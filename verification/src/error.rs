//! The failures a call against the exchange can end in.

use vstd::prelude::*;

verus! {

/// What the exchange answered when it refused a request: the response body,
/// kept as the text it arrived as.
#[derive(Debug)]
pub struct ApiError {
    pub message: String,
}

impl View for ApiError {
    type V = Seq<char>;

    open spec fn view(&self) -> Seq<char> {
        self.message@
    }
}

/// Why a JSON text could not be written, or one that the exchange sent with
/// a success status could not be understood.
#[derive(Debug)]
pub enum JsonFailure {
    /// The JSON codec failed: on decoding, the body is not JSON of the
    /// expected shape. The codec's message is kept.
    Codec(String),
    /// An enumerated field holds a text outside its vocabulary; the text is kept.
    InvalidValue(String),
    /// A list that had to name at least one item came back empty.
    EmptyResult,
}

/// Every way in which a call can fail.
#[derive(Debug)]
pub enum Error {
    /// The exchange answered with a status outside the success class.
    Api(ApiError),
    /// The credential secret is not valid base64.
    InvalidSecretKey,
    /// The secret or the request is longer than the signer can take.
    Oversized,
    /// The transport could not complete the exchange of bytes; its message is kept.
    Transport(String),
    /// A JSON text could not be written or understood.
    Json(JsonFailure),
}

impl From<base64::DecodeError> for Error {
    /// The secret is the only base64 text this library ever decodes, so any
    /// decoder failure means an unusable secret.
    fn from(err: base64::DecodeError) -> (e: Error) {
        Error::InvalidSecretKey
    }
}

impl vstd::std_specs::convert::FromSpecImpl<base64::DecodeError> for Error {
    open spec fn obeys_from_spec() -> bool {
        true
    }

    open spec fn from_spec(err: base64::DecodeError) -> Error {
        Error::InvalidSecretKey
    }
}

impl From<JsonFailure> for Error {
    fn from(err: JsonFailure) -> (e: Error) {
        Error::Json(err)
    }
}

impl vstd::std_specs::convert::FromSpecImpl<JsonFailure> for Error {
    open spec fn obeys_from_spec() -> bool {
        true
    }

    open spec fn from_spec(err: JsonFailure) -> Error {
        Error::Json(err)
    }
}

} // verus!
