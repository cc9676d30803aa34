//! The authenticated surface: every request carries the account's key, its
//! passphrase, the time, and a signature over what is sent.

use vstd::prelude::*;
use vstd::string::StringExecFns;
use crate::clock::now_seconds;
use crate::error::{Error, JsonFailure};
use crate::ident::{format_uuid, uuid_text, AccountId, OrderId};
use crate::order::{order_json, NewOrder};
use crate::request::{Method, Request, RequestModel};
use crate::sign::{is_signed, sign, signing, signing_message, Signing};
use crate::text::{concatenate, decimal, decimal_text, fold, is_word, join, joined, texts};

verus! {

/// What a line of an account's ledger records.
#[derive(Clone, Copy, Debug, PartialEq, Eq, Structural)]
pub enum EntryType {
    Fee,
    Match,
    Transfer,
}

impl EntryType {
    /// The word that stands for this entry type on the wire, in lower case.
    pub open spec fn wire(self) -> Seq<char> {
        match self {
            EntryType::Fee => "fee"@,
            EntryType::Match => "match"@,
            EntryType::Transfer => "transfer"@,
        }
    }

    /// The wire word: `fee`, `match` or `transfer`.
    pub fn serialize(&self) -> (s: &'static str)
        ensures
            s@ == self.wire(),
    {
        match self {
            EntryType::Fee => "fee",
            EntryType::Match => "match",
            EntryType::Transfer => "transfer",
        }
    }

    /// The entry type that a wire text stands for, if any: the text is
    /// compared with the vocabulary without regard to ASCII case.
    pub open spec fn parse(text: Seq<char>) -> Option<EntryType> {
        if fold(text) == "fee"@ {
            Some(EntryType::Fee)
        } else if fold(text) == "match"@ {
            Some(EntryType::Match)
        } else if fold(text) == "transfer"@ {
            Some(EntryType::Transfer)
        } else {
            None
        }
    }

    /// Reads an entry type from its wire word, in any mix of upper and lower
    /// case. Any other text is refused and handed back inside the error.
    pub fn deserialize(text: &str) -> (r: Result<EntryType, JsonFailure>)
        ensures
            match EntryType::parse(text@) {
                Some(entry_type) => r == Ok::<EntryType, JsonFailure>(entry_type),
                None => r matches Err(JsonFailure::InvalidValue(found)) && found@ == text@,
            },
    {
        if is_word(text, "fee") {
            Ok(EntryType::Fee)
        } else if is_word(text, "match") {
            Ok(EntryType::Match)
        } else if is_word(text, "transfer") {
            Ok(EntryType::Transfer)
        } else {
            Err(JsonFailure::InvalidValue(String::from_str(text)))
        }
    }
}

/// What a hold on an account's funds is for.
#[derive(Clone, Copy, Debug, PartialEq, Eq, Structural)]
pub enum HoldType {
    Order,
    Transfer,
}

impl HoldType {
    /// The word that stands for this hold type on the wire, in lower case.
    pub open spec fn wire(self) -> Seq<char> {
        match self {
            HoldType::Order => "order"@,
            HoldType::Transfer => "transfer"@,
        }
    }

    /// The wire word: `order` or `transfer`.
    pub fn serialize(&self) -> (s: &'static str)
        ensures
            s@ == self.wire(),
    {
        match self {
            HoldType::Order => "order",
            HoldType::Transfer => "transfer",
        }
    }

    /// The hold type that a wire text stands for, if any: the text is
    /// compared with the vocabulary without regard to ASCII case.
    pub open spec fn parse(text: Seq<char>) -> Option<HoldType> {
        if fold(text) == "order"@ {
            Some(HoldType::Order)
        } else if fold(text) == "transfer"@ {
            Some(HoldType::Transfer)
        } else {
            None
        }
    }

    /// Reads a hold type from its wire word, in any mix of upper and lower
    /// case. Any other text is refused and handed back inside the error.
    pub fn deserialize(text: &str) -> (r: Result<HoldType, JsonFailure>)
        ensures
            match HoldType::parse(text@) {
                Some(hold_type) => r == Ok::<HoldType, JsonFailure>(hold_type),
                None => r matches Err(JsonFailure::InvalidValue(found)) && found@ == text@,
            },
    {
        if is_word(text, "order") {
            Ok(HoldType::Order)
        } else if is_word(text, "transfer") {
            Ok(HoldType::Transfer)
        } else {
            Err(JsonFailure::InvalidValue(String::from_str(text)))
        }
    }
}

/// Two texts that differ only in ASCII case are read as the same entry type
/// and as the same hold type, or are refused alike.
pub proof fn lemma_vocabularies_ignore_case(a: Seq<char>, b: Seq<char>)
    requires
        fold(a) == fold(b),
    ensures
        EntryType::parse(a) == EntryType::parse(b),
        HoldType::parse(a) == HoldType::parse(b),
{
}

/// Reading back the wire word of an entry type or of a hold type gives it back.
pub proof fn lemma_vocabularies_round_trip(entry_type: EntryType, hold_type: HoldType)
    ensures
        EntryType::parse(entry_type.wire()) == Some(entry_type),
        HoldType::parse(hold_type.wire()) == Some(hold_type),
{
    reveal_strlit("fee");
    reveal_strlit("match");
    reveal_strlit("transfer");
    reveal_strlit("order");
    assert(fold("fee"@) =~= "fee"@);
    assert(fold("match"@) =~= "match"@);
    assert(fold("transfer"@) =~= "transfer"@);
    assert(fold("order"@) =~= "order"@);
    assert("fee"@.len() != "match"@.len());
    assert("fee"@.len() != "transfer"@.len());
    assert("match"@.len() != "transfer"@.len());
    assert("order"@.len() != "transfer"@.len());
}

/// The address that every path of the authenticated API is relative to.
pub open spec fn api_url() -> Seq<char> {
    "https://api.gdax.com"@
}

/// The header lines of an authenticated request, in the order in which they
/// are sent. The timestamp is written in decimal, as in the signed text.
pub open spec fn credential_headers(
    key: Seq<char>,
    signature: Seq<char>,
    passphrase: Seq<char>,
    timestamp: int,
) -> Seq<Seq<char>> {
    seq![
        "Accept: application/json"@,
        "User-Agent: rust-gdax-client/1.2.0"@,
        "CB-ACCESS-KEY: "@ + key,
        "CB-ACCESS-SIGN: "@ + signature,
        "CB-ACCESS-PASSPHRASE: "@ + passphrase,
        "CB-ACCESS-TIMESTAMP: "@ + decimal(timestamp),
    ]
}

/// The terms of the filter on an order's status, one for each flag that is
/// set, in the order open, pending, active.
pub open spec fn status_terms(open: bool, pending: bool, active: bool) -> Seq<Seq<char>> {
    (if open {
        seq!["status=open"@]
    } else {
        seq![]
    }) + (if pending {
        seq!["status=pending"@]
    } else {
        seq![]
    }) + (if active {
        seq!["status=active"@]
    } else {
        seq![]
    })
}

/// The query string of the filter: its terms with `&` between them. It is
/// empty where no flag is set.
pub open spec fn status_query(open: bool, pending: bool, active: bool) -> Seq<char> {
    joined(status_terms(open, pending, active), "&"@)
}

/// The path under which all orders are cancelled: those of one product where
/// one is named, else those of every product.
pub open spec fn cancel_all_path(product_id: Option<Seq<char>>) -> Seq<char> {
    match product_id {
        Some(id) => "/orders?product_id="@ + id,
        None => "/orders"@,
    }
}

/// Builds the query string that filters orders by status.
pub fn build_status_query(open: bool, pending: bool, active: bool) -> (query: String)
    ensures
        query@ == status_query(open, pending, active),
{
    let mut terms: Vec<String> = Vec::new();
    if open {
        terms.push(String::from_str("status=open"));
    }
    if pending {
        terms.push(String::from_str("status=pending"));
    }
    if active {
        terms.push(String::from_str("status=active"));
    }
    assert(texts(terms@) =~= status_terms(open, pending, active));
    join(&terms, "&")
}

/// The account's credentials, as text.
pub ghost struct Credentials {
    pub key: Seq<char>,
    pub secret: Seq<char>,
    pub passphrase: Seq<char>,
}

/// The authenticated request that `who` sends at `timestamp`, given its signature.
pub open spec fn signed_request(
    who: Credentials,
    signature: Seq<char>,
    timestamp: i64,
    method: Method,
    path: Seq<char>,
    body: Seq<char>,
) -> RequestModel {
    RequestModel {
        method,
        url: api_url() + path,
        headers: credential_headers(who.key, signature, who.passphrase, timestamp as int),
        body,
    }
}

/// `r` is what building the headers for `who` at `timestamp` returns: the
/// header lines around the signature, or the reason why nothing was signed.
pub open spec fn is_headers_at(
    who: Credentials,
    timestamp: i64,
    method: Method,
    path: Seq<char>,
    body: Seq<char>,
    r: Result<Vec<String>, Error>,
) -> bool {
    match signing(who.secret, signing_message(timestamp as int, method, path, body)) {
        Signing::Signed(signature) => r matches Ok(lines) && texts(lines@) == credential_headers(
            who.key,
            signature,
            who.passphrase,
            timestamp as int,
        ),
        Signing::InvalidSecretKey => r matches Err(Error::InvalidSecretKey),
        Signing::Oversized => r matches Err(Error::Oversized),
    }
}

/// `r` is what building a request for `who` at `timestamp` returns: the
/// signed request, or the reason why nothing was signed.
pub open spec fn is_request_at(
    who: Credentials,
    timestamp: i64,
    method: Method,
    path: Seq<char>,
    body: Seq<char>,
    r: Result<Request, Error>,
) -> bool {
    match signing(who.secret, signing_message(timestamp as int, method, path, body)) {
        Signing::Signed(signature) => r matches Ok(request) && request@ == signed_request(
            who,
            signature,
            timestamp,
            method,
            path,
            body,
        ),
        Signing::InvalidSecretKey => r matches Err(Error::InvalidSecretKey),
        Signing::Oversized => r matches Err(Error::Oversized),
    }
}

/// `r` is what building the headers returns at some reading of the clock.
pub open spec fn is_headers(
    who: Credentials,
    method: Method,
    path: Seq<char>,
    body: Seq<char>,
    r: Result<Vec<String>, Error>,
) -> bool {
    exists|timestamp: i64| is_headers_at(who, timestamp, method, path, body, r)
}

/// `r` is what building a request returns at some reading of the clock.
pub open spec fn is_request(
    who: Credentials,
    method: Method,
    path: Seq<char>,
    body: Seq<char>,
    r: Result<Request, Error>,
) -> bool {
    exists|timestamp: i64| is_request_at(who, timestamp, method, path, body, r)
}

/// The authenticated client: it holds the credentials and prepares the
/// request of each call, signed and ready to send.
pub struct Client {
    key: String,
    secret: String,
    passphrase: String,
}

impl View for Client {
    type V = Credentials;

    closed spec fn view(&self) -> Credentials {
        Credentials { key: self.key@, secret: self.secret@, passphrase: self.passphrase@ }
    }
}

impl Client {
    /// A client for the account with this key, base64 secret and passphrase.
    pub fn new(key: &str, secret: &str, passphrase: &str) -> (client: Client)
        ensures
            client@ == (Credentials { key: key@, secret: secret@, passphrase: passphrase@ }),
    {
        Client {
            key: String::from_str(key),
            secret: String::from_str(secret),
            passphrase: String::from_str(passphrase),
        }
    }

    /// The signature of one request under this account's secret.
    pub fn signature(&self, path: &str, body: &str, timestamp: i64, method: Method) -> (r: Result<
        String,
        Error,
    >)
        ensures
            is_signed(
                self@.secret,
                signing_message(timestamp as int, method, path@, body@),
                r,
            ),
    {
        sign(self.secret.as_str(), timestamp, method, path, body)
    }

    /// The header lines of one request sent at `timestamp`. The timestamp
    /// line holds the very numeral that was signed.
    pub fn headers_at(&self, path: &str, body: &str, method: Method, timestamp: i64) -> (r: Result<
        Vec<String>,
        Error,
    >)
        ensures
            is_headers_at(self@, timestamp, method, path@, body@, r),
    {
        match self.signature(path, body, timestamp, method) {
            Ok(signature) => {
                let numeral = decimal_text(timestamp);
                let mut lines: Vec<String> = Vec::new();
                lines.push(String::from_str("Accept: application/json"));
                lines.push(String::from_str("User-Agent: rust-gdax-client/1.2.0"));
                lines.push(concatenate("CB-ACCESS-KEY: ", self.key.as_str()));
                lines.push(concatenate("CB-ACCESS-SIGN: ", signature.as_str()));
                lines.push(concatenate("CB-ACCESS-PASSPHRASE: ", self.passphrase.as_str()));
                lines.push(concatenate("CB-ACCESS-TIMESTAMP: ", numeral.as_str()));
                assert(texts(lines@) =~= credential_headers(
                    self@.key,
                    signature@,
                    self@.passphrase,
                    timestamp as int,
                ));
                Ok(lines)
            },
            Err(e) => Err(e),
        }
    }

    /// The header lines of one request sent now.
    pub fn get_headers(&self, path: &str, body: &str, method: Method) -> (r: Result<
        Vec<String>,
        Error,
    >)
        ensures
            is_headers(self@, method, path@, body@, r),
    {
        let timestamp = now_seconds();
        self.headers_at(path, body, method, timestamp)
    }

    /// The request for `path`, sent at `timestamp`.
    pub fn request_at(&self, method: Method, path: &str, body: &str, timestamp: i64) -> (r: Result<
        Request,
        Error,
    >)
        ensures
            is_request_at(self@, timestamp, method, path@, body@, r),
    {
        match self.headers_at(path, body, method, timestamp) {
            Ok(headers) => Ok(
                Request {
                    method,
                    url: concatenate("https://api.gdax.com", path),
                    headers,
                    body: String::from_str(body),
                },
            ),
            Err(e) => Err(e),
        }
    }

    /// The request for `path`, sent now.
    pub fn request(&self, method: Method, path: &str, body: &str) -> (r: Result<Request, Error>)
        ensures
            is_request(self@, method, path@, body@, r),
    {
        let timestamp = now_seconds();
        self.request_at(method, path, body, timestamp)
    }

    /// A `GET` of `path`.
    pub fn get(&self, path: &str) -> (r: Result<Request, Error>)
        ensures
            is_request(self@, Method::Get, path@, Seq::empty(), r),
    {
        let r = self.request(Method::Get, path, "");
        proof {
            reveal_strlit("");
            assert(""@ =~= Seq::<char>::empty());
        }
        r
    }

    /// A `POST` of `body` to `path`.
    pub fn post(&self, path: &str, body: &str) -> (r: Result<Request, Error>)
        ensures
            is_request(self@, Method::Post, path@, body@, r),
    {
        self.request(Method::Post, path, body)
    }

    /// A `DELETE` of `path`.
    pub fn delete(&self, path: &str) -> (r: Result<Request, Error>)
        ensures
            is_request(self@, Method::Delete, path@, Seq::empty(), r),
    {
        let r = self.request(Method::Delete, path, "");
        proof {
            reveal_strlit("");
            assert(""@ =~= Seq::<char>::empty());
        }
        r
    }

    /// Asks for all accounts.
    pub fn get_accounts(&self) -> (r: Result<Request, Error>)
        ensures
            is_request(self@, Method::Get, "/accounts"@, Seq::empty(), r),
    {
        self.get("/accounts")
    }

    /// Asks for one account.
    pub fn get_account(&self, id: AccountId) -> (r: Result<Request, Error>)
        ensures
            is_request(self@, Method::Get, "/accounts/"@ + uuid_text(id), Seq::empty(), r),
    {
        let path = concatenate("/accounts/", format_uuid(id).as_str());
        self.get(path.as_str())
    }

    /// Asks for the ledger of one account.
    pub fn get_account_history(&self, id: AccountId) -> (r: Result<Request, Error>)
        ensures
            is_request(
                self@,
                Method::Get,
                "/accounts/"@ + uuid_text(id) + "/ledger"@,
                Seq::empty(),
                r,
            ),
    {
        let mut path = concatenate("/accounts/", format_uuid(id).as_str());
        path.append("/ledger");
        self.get(path.as_str())
    }

    /// Asks for the holds on one account.
    pub fn get_account_holds(&self, id: AccountId) -> (r: Result<Request, Error>)
        ensures
            is_request(
                self@,
                Method::Get,
                "/accounts/"@ + uuid_text(id) + "/holds"@,
                Seq::empty(),
                r,
            ),
    {
        let mut path = concatenate("/accounts/", format_uuid(id).as_str());
        path.append("/holds");
        self.get(path.as_str())
    }

    /// Places an order: a `POST` to `/orders` whose body is the order's JSON
    /// object and nothing more.
    pub fn post_order(&self, order: &NewOrder) -> (r: Result<Request, Error>)
        ensures
            is_request(self@, Method::Post, "/orders"@, order_json(order@), r),
    {
        match order.serialize() {
            Ok(body) => {
                let r = self.post("/orders", body.as_str());
                r
            },
            Err(e) => Err(e),
        }
    }

    /// Cancels one order.
    pub fn cancel_order(&self, order_id: OrderId) -> (r: Result<Request, Error>)
        ensures
            is_request(self@, Method::Delete, "/orders/"@ + uuid_text(order_id), Seq::empty(), r),
    {
        let path = concatenate("/orders/", format_uuid(order_id).as_str());
        self.delete(path.as_str())
    }

    /// Cancels all orders, or all orders of one product.
    pub fn cancel_all_orders(&self, product_id: Option<&str>) -> (r: Result<Request, Error>)
        ensures
            is_request(
                self@,
                Method::Delete,
                cancel_all_path(
                    match product_id {
                        Some(id) => Some(id@),
                        None => None,
                    },
                ),
                Seq::empty(),
                r,
            ),
    {
        match product_id {
            Some(id) => {
                let path = concatenate("/orders?product_id=", id);
                self.delete(path.as_str())
            },
            None => self.delete("/orders"),
        }
    }

    /// Asks for the orders in any of the states whose flag is set. With no
    /// flag set the query string is empty and the exchange's default applies.
    pub fn get_orders_with_status(&self, open: bool, pending: bool, active: bool) -> (r: Result<
        Request,
        Error,
    >)
        ensures
            is_request(
                self@,
                Method::Get,
                "/orders?"@ + status_query(open, pending, active),
                Seq::empty(),
                r,
            ),
    {
        let query = build_status_query(open, pending, active);
        let path = concatenate("/orders?", query.as_str());
        self.get(path.as_str())
    }

    /// Asks for the orders that are open, pending or active.
    pub fn get_orders(&self) -> (r: Result<Request, Error>)
        ensures
            is_request(
                self@,
                Method::Get,
                "/orders?"@ + status_query(true, true, true),
                Seq::empty(),
                r,
            ),
    {
        self.get_orders_with_status(true, true, true)
    }

    /// Asks for one order.
    pub fn get_order(&self, order_id: OrderId) -> (r: Result<Request, Error>)
        ensures
            is_request(self@, Method::Get, "/orders/"@ + uuid_text(order_id), Seq::empty(), r),
    {
        let path = concatenate("/orders/", format_uuid(order_id).as_str());
        self.get(path.as_str())
    }
}

} // verus!
