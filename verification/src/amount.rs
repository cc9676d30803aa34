//! Quantities and prices as the exact decimal text that goes on the wire.
//!
//! An amount is kept as a JSON number literal, so that what the exchange
//! reads is what the caller wrote, digit for digit.

use vstd::prelude::*;
use vstd::string::StringExecFns;
use crate::text::chars_of;

verus! {

/// Whether a character is one of the ten decimal digits.
pub open spec fn is_digit(c: char) -> bool {
    '0' <= c && c <= '9'
}

/// Every character of `s` at the positions `from..to` is a decimal digit.
pub open spec fn digits_between(s: Seq<char>, from: int, to: int) -> bool {
    forall|i: int| from <= i < to ==> is_digit(#[trigger] s[i])
}

/// From position `at` to the end, `s` holds an optional sign and then at
/// least one digit, and nothing else.
pub open spec fn exponent_digits(s: Seq<char>, at: int) -> bool {
    let start = if at < s.len() && (s[at] == '+' || s[at] == '-') {
        at + 1
    } else {
        at
    };
    start < s.len() && digits_between(s, start, s.len() as int)
}

/// `s` is a JSON number whose sign ends at `a`, whose integer part ends at
/// `b` and whose fraction ends at `c`; the exponent takes the rest.
///
/// The sign is absent or `-`. The integer part is one or more digits with no
/// leading zero, unless it is the single digit `0`. The fraction is absent,
/// or a point and one or more digits. The exponent is absent, or `e` or `E`,
/// an optional sign, and one or more digits.
pub open spec fn number_shape(s: Seq<char>, a: int, b: int, c: int) -> bool {
    &&& 0 <= a < b <= c <= s.len()
    &&& a == 0 || (a == 1 && s[0] == '-')
    &&& digits_between(s, a, b)
    &&& s[a] == '0' ==> b == a + 1
    &&& c == b || (s[b] == '.' && b + 1 < c && digits_between(s, b + 1, c))
    &&& c == s.len() || ((s[c] == 'e' || s[c] == 'E') && exponent_digits(s, c + 1))
}

/// `s` is a number literal in the JSON grammar.
pub open spec fn is_json_number(s: Seq<char>) -> bool {
    exists|a: int, b: int, c: int| number_shape(s, a, b, c)
}

/// A run of digits that starts at `from` and cannot be extended ends at one
/// place only.
proof fn lemma_digit_run_ends_once(s: Seq<char>, from: int, x: int, y: int)
    requires
        from <= x <= s.len(),
        from <= y <= s.len(),
        digits_between(s, from, x),
        digits_between(s, from, y),
        x == s.len() || !is_digit(s[x]),
        y == s.len() || !is_digit(s[y]),
    ensures
        x == y,
{
    if x < y {
        assert(is_digit(s[x]));
    } else if y < x {
        assert(is_digit(s[y]));
    }
}

/// What follows the integer part of a number is not a digit.
proof fn lemma_integer_part_is_maximal(s: Seq<char>, a: int, b: int, c: int)
    requires
        number_shape(s, a, b, c),
    ensures
        b == s.len() || !is_digit(s[b]),
{
    if b < s.len() && c == b {
        assert(s[c] == 'e' || s[c] == 'E');
    }
}

/// The first position at or after `from` that holds no digit.
fn digits_end(v: &Vec<char>, from: usize) -> (to: usize)
    requires
        from <= v.len(),
    ensures
        from <= to <= v.len(),
        digits_between(v@, from as int, to as int),
        to == v.len() || !is_digit(v@[to as int]),
{
    let mut to: usize = from;
    while to < v.len() && '0' <= v[to] && v[to] <= '9'
        invariant
            from <= to <= v.len(),
            digits_between(v@, from as int, to as int),
        decreases v.len() - to,
    {
        to = to + 1;
    }
    to
}

/// Whether the characters form a JSON number literal.
pub fn is_number(v: &Vec<char>) -> (r: bool)
    ensures
        r == is_json_number(v@),
{
    let ghost s = v@;
    let n: usize = v.len();
    let a: usize = if n > 0 && v[0] == '-' {
        1
    } else {
        0
    };
    let b: usize = digits_end(v, a);
    if b == a || (v[a] == '0' && b > a + 1) {
        proof {
            assert forall|x: int, y: int, z: int| !number_shape(s, x, y, z) by {
                if number_shape(s, x, y, z) {
                    assert(is_digit(s[x]));
                    assert(x == a);
                    lemma_integer_part_is_maximal(s, x, y, z);
                    lemma_digit_run_ends_once(s, a as int, b as int, y);
                }
            }
        }
        return false;
    }
    let mut c: usize = b;
    if b < n && v[b] == '.' {
        c = digits_end(v, b + 1);
        if c == b + 1 {
            proof {
                assert forall|x: int, y: int, z: int| !number_shape(s, x, y, z) by {
                    if number_shape(s, x, y, z) {
                        assert(is_digit(s[x]));
                        assert(x == a);
                        lemma_integer_part_is_maximal(s, x, y, z);
                        lemma_digit_run_ends_once(s, a as int, b as int, y);
                        assert(is_digit(s[b + 1]));
                    }
                }
            }
            return false;
        }
    }
    let mut d: usize = c;
    if c < n && (v[c] == 'e' || v[c] == 'E') {
        let k: usize = if c + 1 < n && (v[c + 1] == '+' || v[c + 1] == '-') {
            c + 2
        } else {
            c + 1
        };
        d = digits_end(v, k);
        if d == k || d != n {
            proof {
                assert forall|x: int, y: int, z: int| !number_shape(s, x, y, z) by {
                    if number_shape(s, x, y, z) {
                        lemma_shape_is_scanned(s, x, y, z, a as int, b as int, c as int);
                        if k < n {
                            assert(is_digit(s[k as int]));
                        }
                        if d < n {
                            assert(is_digit(s[d as int]));
                        }
                    }
                }
            }
            return false;
        }
        proof {
            assert(number_shape(s, a as int, b as int, c as int));
        }
        return true;
    }
    if c != n {
        proof {
            assert forall|x: int, y: int, z: int| !number_shape(s, x, y, z) by {
                if number_shape(s, x, y, z) {
                    lemma_shape_is_scanned(s, x, y, z, a as int, b as int, c as int);
                }
            }
        }
        return false;
    }
    proof {
        assert(number_shape(s, a as int, b as int, c as int));
    }
    true
}

/// The parts of a number are where a scan from the left finds them: `a`
/// after the sign, `b` after the first run of digits, `c` after the fraction.
proof fn lemma_shape_is_scanned(s: Seq<char>, x: int, y: int, z: int, a: int, b: int, c: int)
    requires
        number_shape(s, x, y, z),
        a == (if s.len() > 0 && s[0] == '-' { 1int } else { 0int }),
        a <= b <= s.len(),
        digits_between(s, a, b),
        b == s.len() || !is_digit(s[b]),
        b <= c <= s.len(),
        if b < s.len() && s[b] == '.' {
            b + 1 <= c && digits_between(s, b + 1, c) && (c == s.len() || !is_digit(s[c]))
        } else {
            c == b
        },
    ensures
        x == a,
        y == b,
        z == c,
{
    assert(is_digit(s[x]));
    lemma_integer_part_is_maximal(s, x, y, z);
    lemma_digit_run_ends_once(s, a, b, y);
    if z != y {
        if z < s.len() {
            assert(s[z] == 'e' || s[z] == 'E');
        }
        lemma_digit_run_ends_once(s, b + 1, c, z);
    }
}

/// A quantity or price, held as the JSON number literal that is sent.
#[derive(Debug)]
pub struct Amount {
    text: String,
}

impl View for Amount {
    type V = Seq<char>;

    closed spec fn view(&self) -> Seq<char> {
        self.text@
    }
}

impl Amount {
    #[verifier::type_invariant]
    spec fn well_formed(&self) -> bool {
        is_json_number(self.text@)
    }

    /// Takes `text` as an amount if, and only if, it is a JSON number literal.
    pub fn parse(text: &str) -> (r: Option<Amount>)
        ensures
            match r {
                Some(amount) => amount@ == text@ && is_json_number(text@),
                None => !is_json_number(text@),
            },
    {
        let v = chars_of(text);
        if is_number(&v) {
            Some(Amount { text: String::from_str(text) })
        } else {
            None
        }
    }

    /// The literal, as it is written into a request.
    pub fn as_str(&self) -> (s: &str)
        ensures
            s@ == self@,
            is_json_number(s@),
    {
        proof {
            use_type_invariant(self);
        }
        self.text.as_str()
    }

    /// A copy of this amount.
    pub fn duplicate(&self) -> (r: Amount)
        ensures
            r@ == self@,
    {
        proof {
            use_type_invariant(self);
        }
        Amount { text: self.text.clone() }
    }
}

} // verus!
