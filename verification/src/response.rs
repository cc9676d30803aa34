//! What the exchange answered: an HTTP status and a body, both read in full
//! before anything is made of them.

use vstd::prelude::*;
use vstd::utf8::{decode_utf8, valid_utf8};
use crate::error::{ApiError, Error, JsonFailure};
use crate::ident::OrderId;

verus! {

/// Whether a status is in the success class, `200..=299`.
pub open spec fn is_success_status(status: u32) -> bool {
    200 <= status < 300
}

/// Trusted: `String::from_utf8` of the standard library. It hands back the
/// text that the bytes are the UTF-8 encoding of, and nothing where they are
/// not valid UTF-8.
#[verifier::external_body]
pub(crate) fn text_of_bytes(bytes: Vec<u8>) -> (r: Option<String>)
    ensures
        match r {
            Some(text) => valid_utf8(bytes@) && text@ == decode_utf8(bytes@),
            None => !valid_utf8(bytes@),
        },
{
    match String::from_utf8(bytes) {
        Ok(text) => Some(text),
        Err(_) => None,
    }
}

/// The order identifiers that a JSON body lists: the body has to be one
/// array of UUID strings. `None` where it is anything else.
pub uninterp spec fn order_ids_in(body: Seq<u8>) -> Option<Seq<u128>>;

/// Trusted: `serde_json::from_reader` on the body, read as a list of
/// `uuid::Uuid`, each of which is then taken as its 128-bit number. Whether
/// it succeeds, and the list that it gives, depend on the bytes alone. Where
/// it fails, the codec's message is handed back.
#[verifier::external_body]
pub(crate) fn parse_order_ids(body: &[u8]) -> (r: Result<Vec<u128>, String>)
    ensures
        match r {
            Ok(ids) => order_ids_in(body@) == Some(ids@),
            Err(_) => order_ids_in(body@) is None,
        },
{
    match serde_json::from_reader::<_, Vec<uuid::Uuid>>(body) {
        Ok(ids) => Ok(ids.iter().map(uuid::Uuid::as_u128).collect()),
        Err(e) => Err(e.to_string()),
    }
}

/// Whether a status is in the success class.
pub fn is_success(status: u32) -> (r: bool)
    ensures
        r == is_success_status(status),
{
    200 <= status && status < 300
}

/// Tells a refusal from an answer. Under a success status the body is handed
/// on untouched, to be read as JSON of the shape that the call expects.
/// Under any other status the body is the exchange's complaint: it becomes
/// the message of an `ApiError` as the text it is, and is not read as JSON
/// even where it looks like it. A complaint has to be text.
pub fn decode(status: u32, body: Vec<u8>) -> (r: Result<Vec<u8>, Error>)
    requires
        is_success_status(status) || valid_utf8(body@),
    ensures
        is_success_status(status) ==> (r matches Ok(bytes) && bytes@ == body@),
        !is_success_status(status) ==> (r matches Err(Error::Api(e)) && e@ == decode_utf8(body@)),
{
    if is_success(status) {
        Ok(body)
    } else {
        match text_of_bytes(body) {
            Some(message) => Err(Error::Api(ApiError { message })),
            // Not reached: a complaint is text.
            None => Err(Error::Api(ApiError { message: String::new() })),
        }
    }
}

/// The order that a cancellation of one order cancelled. The exchange
/// answers with a list even then; the first identifier is the one. An empty
/// list, as for an order that never existed, is an error.
pub fn cancelled_order(ids: &Vec<OrderId>) -> (r: Result<OrderId, Error>)
    ensures
        ids@.len() > 0 ==> r == Ok::<OrderId, Error>(ids@[0]),
        ids@.len() == 0 ==> (r matches Err(Error::Json(JsonFailure::EmptyResult))),
{
    if ids.len() > 0 {
        Ok(ids[0])
    } else {
        Err(Error::Json(JsonFailure::EmptyResult))
    }
}

/// `r` is what the answer to a cancellation of all orders means: the
/// exchange's complaint, or the codec's failure on a body that is no list of
/// identifiers, or the identifiers of the orders that were cancelled.
pub open spec fn is_cancelled_list(status: u32, body: Seq<u8>, r: Result<Vec<OrderId>, Error>)
    -> bool {
    if !is_success_status(status) {
        r matches Err(Error::Api(e)) && e@ == decode_utf8(body)
    } else {
        match order_ids_in(body) {
            Some(ids) => r matches Ok(list) && list@ == ids,
            None => r matches Err(Error::Json(JsonFailure::Codec(_))),
        }
    }
}

/// `r` is what the answer to a cancellation of one order means: as for a
/// cancellation of all, but of the list only the first identifier is
/// returned, and an empty list is an error.
pub open spec fn is_cancelled_order(status: u32, body: Seq<u8>, r: Result<OrderId, Error>)
    -> bool {
    if !is_success_status(status) {
        r matches Err(Error::Api(e)) && e@ == decode_utf8(body)
    } else {
        match order_ids_in(body) {
            Some(ids) => if ids.len() > 0 {
                r == Ok::<OrderId, Error>(ids[0])
            } else {
                r matches Err(Error::Json(JsonFailure::EmptyResult))
            },
            None => r matches Err(Error::Json(JsonFailure::Codec(_))),
        }
    }
}

/// Reads the answer to a cancellation of all orders.
pub fn cancel_all_orders_response(status: u32, body: Vec<u8>) -> (r: Result<Vec<OrderId>, Error>)
    requires
        is_success_status(status) || valid_utf8(body@),
    ensures
        is_cancelled_list(status, body@, r),
{
    match decode(status, body) {
        Ok(bytes) => match parse_order_ids(bytes.as_slice()) {
            Ok(ids) => Ok(ids),
            Err(message) => Err(Error::Json(JsonFailure::Codec(message))),
        },
        Err(e) => Err(e),
    }
}

/// Reads the answer to a cancellation of one order.
pub fn cancel_order_response(status: u32, body: Vec<u8>) -> (r: Result<OrderId, Error>)
    requires
        is_success_status(status) || valid_utf8(body@),
    ensures
        is_cancelled_order(status, body@, r),
{
    match cancel_all_orders_response(status, body) {
        Ok(ids) => cancelled_order(&ids),
        Err(e) => Err(e),
    }
}

} // verus!
