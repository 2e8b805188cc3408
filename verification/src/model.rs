//! The typed exception model: one event reports an ordered list of
//! exceptions, each with required type and message, optional mechanism
//! metadata, and an optional stack trace that is either still raw
//! (unresolved) or resolved into frames that can take part in
//! fingerprinting.

use vstd::prelude::*;
use crate::json::JsonVal;

verus! {

/// How an exception was captured. Every field is independently
/// optional: absence means "unknown", never "false".
#[derive(Debug, Clone, PartialEq, Eq)]
pub struct Mechanism {
    pub handled: Option<bool>,
    pub mechanism_type: Option<String>,
    pub source: Option<String>,
    pub synthetic: Option<bool>,
}

/// A stack frame before symbolication, tagged by source platform.
/// Opaque to the fingerprint engine: raw frames never contribute.
#[derive(Debug, Clone, PartialEq, Eq)]
pub enum RawFrame {
    JavaScript(RawJSFrame),
}

/// An unresolved JavaScript frame as the producer sent it.
#[derive(Debug, Clone, PartialEq, Eq)]
pub struct RawJSFrame {
    pub fn_name: String,
    pub source_url: Option<String>,
    pub in_app: bool,
    pub line: u32,
    pub column: u32,
}

/// A resolved frame: symbolication has mapped it to source identity.
/// `resolved` says whether the symbol lookup succeeded; `in_app` says
/// whether the frame is the application's own code.
#[derive(Debug, Clone, PartialEq, Eq)]
pub struct Frame {
    pub mangled_name: String,
    pub source: Option<String>,
    pub line: Option<u32>,
    pub column: Option<u32>,
    pub in_app: bool,
    pub resolved: bool,
}

/// A stack trace: exactly one of the two variants is active. The
/// raw-to-resolved transition is an external symbolication step that
/// builds a new value; nothing here mutates frames in place.
#[derive(Debug, Clone, PartialEq, Eq)]
pub enum Stacktrace {
    Raw { frames: Vec<RawFrame> },
    Resolved { frames: Vec<Frame> },
}

/// One exception occurrence. Type and message are required at decode
/// time and never empty once decoded.
#[derive(Debug, Clone, PartialEq, Eq)]
pub struct Exception {
    pub exception_type: String,
    pub exception_message: String,
    pub mechanism: Option<Mechanism>,
    pub module: Option<String>,
    pub thread_id: Option<i32>,
    pub stack: Option<Stacktrace>,
}

/// The decoded view of an event's properties: the authoritative
/// exception list when present, the legacy scalar fields kept for
/// pre-migration producers, the pass-through severity label, and
/// `other`, which preserves every property not modeled here, verbatim
/// and in order.
#[derive(Debug)]
pub struct ErrProps {
    pub exception_list: Option<Vec<Exception>>,
    pub exception_type: Option<String>,
    pub exception_message: Option<String>,
    pub exception_stack_trace_raw: Option<String>,
    pub exception_level: Option<String>,
    pub other: Vec<(String, JsonVal)>,
}

/// Why a property decode failed. Decoding is fail-closed: any one of
/// these invalidates the whole decode, and no partial value comes back.
#[derive(Debug, Clone, Copy, PartialEq, Eq)]
pub enum DecodeErr {
    /// The text is not valid JSON.
    InvalidJson,
    /// The document, an exception, a mechanism, a stack trace or a
    /// frame is not a JSON object.
    NotAnObject,
    /// `$exception_list` is present but not an array or null.
    BadExceptionList,
    /// An exception lacks its required `type` field.
    MissingExceptionType,
    /// An exception lacks its required `value` field.
    MissingExceptionMessage,
    /// An exception's `type` is present but the empty string.
    EmptyExceptionType,
    /// An exception's `value` is present but the empty string.
    EmptyExceptionMessage,
    /// A field that must hold a string holds something else.
    BadStringField,
    /// A field that must hold a boolean holds something else.
    BadBoolField,
    /// `thread_id` is not an integer that fits 32 bits.
    BadThreadId,
    /// A stack trace's `type` tag is missing or not `raw`/`resolved`.
    BadStacktraceTag,
    /// A stack trace lacks its `frames` array.
    BadFrames,
    /// A frame field is missing or of the wrong shape.
    BadFrame,
}

/// A decoded exception always carries a non-empty type and message.
pub open spec fn exception_wf(e: Exception) -> bool {
    e.exception_type@.len() > 0 && e.exception_message@.len() > 0
}

} // verus!
