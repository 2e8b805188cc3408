//! Exception normalization and fingerprinting for an error-tracking
//! ingestion pipeline: a typed, lossless model of the exception data an
//! event carries, a decode contract over its JSON property bag, and a
//! deterministic fingerprint that groups recurring errors into issues.

pub mod json;
pub mod num;
pub mod model;
pub mod decode;
pub mod encode;
pub mod hash;
pub mod fingerprint;
pub mod laws;

pub use json::JsonVal;
pub use model::{Mechanism, RawFrame, RawJSFrame, Frame, Stacktrace, Exception, ErrProps,
    DecodeErr};
pub use fingerprint::fingerprint;
