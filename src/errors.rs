//! The failures a request or a stream can end in, one variant per origin.
use vstd::prelude::*;

verus! {

/// An error that the exchange reports in its `{code, msg}` envelope.
#[derive(Debug, Clone, PartialEq, Eq)]
pub struct BinanceContentError {
    pub code: i16,
    pub msg: String,
}

/// What the transport said when a stream closed.
#[derive(Debug, Clone, PartialEq, Eq)]
pub struct CloseFrame {
    pub code: u16,
    pub reason: String,
}

/// One classified failure.
#[derive(Debug, Clone, PartialEq, Eq)]
pub enum Error {
    /// The exchange understood the request and rejected it.
    BinanceError(BinanceContentError),
    /// The request did not reach the exchange or its answer did not come back.
    TransportError(String),
    /// A response or frame did not have the expected shape. `status` is the
    /// HTTP status where there was one; `body` is the raw text received.
    DecodeError { status: Option<u16>, body: Vec<u8> },
    /// A positional response lacked the value at `index`, named `name`.
    KlineValueMissingError { index: usize, name: String },
    /// The stream ended, with the close frame if the transport gave one.
    WebSocketDisconnected(Option<CloseFrame>),
    /// A setting needed before any request (a secret key, a header) is missing or invalid.
    ConfigurationError(String),
    /// The clock could not be read.
    TimestampError,
}

} // verus!
