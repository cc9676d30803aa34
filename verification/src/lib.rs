//! Client-side logic for the GDAX exchange REST API: request signing,
//! credential headers, order encoding and response classification.
//!
//! Nothing here touches the network. A client prepares each call as a
//! `Request` that a transport can send as it stands, and `response` tells
//! what the exchange's answer means.

pub mod amount;
pub mod clock;
pub mod error;
pub mod ident;
pub mod json;
pub mod order;
pub mod private;
pub mod public;
pub mod request;
pub mod response;
pub mod side;
pub mod sign;
pub mod text;

pub use amount::Amount;
pub use error::{ApiError, Error, JsonFailure};
pub use order::SizeOrFunds::{Funds, Size};
pub use order::{NewOrder, SizeOrFunds};
pub use private::Client as PrivateClient;
pub use public::Client as PublicClient;
pub use request::{Method, Request};
pub use side::Side;
