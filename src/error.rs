//! Errors of the library.

use vstd::prelude::*;

verus! {

/// Every failure the library reports.
#[derive(Clone, Debug, PartialEq, Eq)]
pub enum Error {
    /// An HTTP request failed.
    Http(String),
    /// A JSON body or message could not be encoded or decoded.
    Json(String),
    /// Invalid configuration.
    Config(String),
    /// The operation needs credentials that are not configured.
    AuthRequired(String),
    /// A signature could not be computed.
    Signing(String),
    /// A parameter is outside what the exchange accepts.
    InvalidParameter(String),
    /// The exchange rejected the request.
    Api { status: u16, message: String },
    /// A decimal computation left the representable range.
    Decimal(String),
    /// The order cannot be built as asked.
    InvalidOrder(String),
    /// A required field is missing.
    MissingField(String),
    /// The event stream failed.
    WebSocket(String),
    /// The event stream was closed.
    ConnectionClosed,
    /// The reconnection budget is spent.
    ReconnectFailed { attempts: u32, last_error: String },
}

} // verus!
