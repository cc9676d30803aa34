//! The side of an order or trade and its wire vocabulary.

use vstd::prelude::*;
use vstd::string::StringExecFns;
use crate::error::JsonFailure;
use crate::text::{fold, is_word};

verus! {

/// Which way an order trades.
#[derive(Clone, Copy, Debug, PartialEq, Eq, Structural)]
pub enum Side {
    Buy,
    Sell,
}

impl Side {
    /// The word that stands for this side on the wire, in lower case.
    pub open spec fn wire(self) -> Seq<char> {
        match self {
            Side::Buy => "buy"@,
            Side::Sell => "sell"@,
        }
    }

    /// The name under which this side is shown to a reader.
    pub open spec fn name(self) -> Seq<char> {
        match self {
            Side::Buy => "Buy"@,
            Side::Sell => "Sell"@,
        }
    }

    /// The side that a wire text stands for, if any: the text is compared
    /// with the vocabulary without regard to ASCII case.
    pub open spec fn parse(text: Seq<char>) -> Option<Side> {
        if fold(text) == "buy"@ {
            Some(Side::Buy)
        } else if fold(text) == "sell"@ {
            Some(Side::Sell)
        } else {
            None
        }
    }

    /// The display name: `Buy` or `Sell`.
    pub fn to_string(&self) -> (s: String)
        ensures
            s@ == self.name(),
    {
        match self {
            Side::Buy => String::from_str("Buy"),
            Side::Sell => String::from_str("Sell"),
        }
    }

    /// The wire word: `buy` or `sell`.
    pub fn serialize(&self) -> (s: &'static str)
        ensures
            s@ == self.wire(),
    {
        match self {
            Side::Buy => "buy",
            Side::Sell => "sell",
        }
    }

    /// Reads a side from its wire word, in any mix of upper and lower case.
    /// Any other text is refused and handed back inside the error.
    pub fn deserialize(text: &str) -> (r: Result<Side, JsonFailure>)
        ensures
            match Side::parse(text@) {
                Some(side) => r == Ok::<Side, JsonFailure>(side),
                None => r matches Err(JsonFailure::InvalidValue(found)) && found@ == text@,
            },
    {
        if is_word(text, "buy") {
            Ok(Side::Buy)
        } else if is_word(text, "sell") {
            Ok(Side::Sell)
        } else {
            Err(JsonFailure::InvalidValue(String::from_str(text)))
        }
    }
}

/// Two texts that differ only in ASCII case are read as the same side, or
/// are both refused.
pub proof fn lemma_side_ignores_case(a: Seq<char>, b: Seq<char>)
    requires
        fold(a) == fold(b),
    ensures
        Side::parse(a) == Side::parse(b),
{
}

/// Reading back the wire word of a side gives that side.
pub proof fn lemma_side_round_trip(side: Side)
    ensures
        Side::parse(side.wire()) == Some(side),
{
    reveal_strlit("buy");
    reveal_strlit("sell");
    assert(fold("buy"@) =~= "buy"@);
    assert(fold("sell"@) =~= "sell"@);
    assert("sell"@.len() != "buy"@.len());
}

} // verus!
