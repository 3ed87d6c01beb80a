//! Request-send / response-receive core of a blocking HTTP/1.1 client:
//! chunked body framing, the one-shot retry rule for recycled connections,
//! redirect following, and the finish-once guard of the request writer.
//!
//! The library holds the decisions. Whoever owns the socket performs the
//! actions it asks for and reports back what happened.

pub mod chunk;
pub mod unit;
pub mod write;

pub use chunk::{chunk_frame, last_chunk};
pub use unit::{is_idempotent, Unit};
pub use write::{FinishError, RequestWrite, ResponseHead, WriterState};
