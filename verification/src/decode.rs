//! The property decoder: turns an event's JSON property document into
//! an `ErrProps`, or fails closed. Every field this library models is
//! validated; every other top-level key is preserved verbatim in
//! `other`. A single malformed exception invalidates the whole decode:
//! no partial list is ever returned.
//!
//! The `*_err` spec functions say exactly which error a document
//! decodes to, with `None` meaning the decode succeeds; the `*_ok`
//! predicates pin the decoded value. Where an object holds one key
//! twice, the first occurrence wins throughout (`lookup`); documents
//! that come from `parse_json` never do, since the parser collapses
//! duplicates.

use vstd::prelude::*;
use crate::json::{JsonVal, lookup, find, str_eq};
use crate::model::{Mechanism, RawFrame, RawJSFrame, Frame, Stacktrace, Exception, ErrProps,
    DecodeErr, exception_wf};
use crate::num::{all_digits, dec_value};
use crate::num::parse_dec_limited;
use crate::json::parse_json;
use crate::json::json_parse_of;

verus! {

/// Lifts a borrowed lookup result to the value the specs speak of.
pub open spec fn opt_deref(v: Option<&JsonVal>) -> Option<JsonVal> {
    match v {
        Option::Some(x) => Option::Some(*x),
        Option::None => Option::None,
    }
}

/// An optional string field: absent or null is none, a string is
/// itself, anything else fails.
pub open spec fn dec_opt_string(v: Option<JsonVal>) -> Result<Option<String>, DecodeErr> {
    match v {
        Option::None => Result::Ok(Option::None),
        Option::Some(JsonVal::Null) => Result::Ok(Option::None),
        Option::Some(JsonVal::Str(s)) => Result::Ok(Option::Some(s)),
        Option::Some(_) => Result::Err(DecodeErr::BadStringField),
    }
}

/// An optional boolean field, by the same rule.
pub open spec fn dec_opt_bool(v: Option<JsonVal>) -> Result<Option<bool>, DecodeErr> {
    match v {
        Option::None => Result::Ok(Option::None),
        Option::Some(JsonVal::Null) => Result::Ok(Option::None),
        Option::Some(JsonVal::Bool(b)) => Result::Ok(Option::Some(b)),
        Option::Some(_) => Result::Err(DecodeErr::BadBoolField),
    }
}

/// The integer a kept number literal denotes: an optional leading
/// minus sign followed by decimal digits; anything else (a fraction,
/// an exponent) denotes no integer.
pub open spec fn int_literal_value(s: Seq<char>) -> Option<int> {
    if all_digits(s) {
        Option::Some(dec_value(s) as int)
    } else if s.len() > 1 && s[0] == '-' && all_digits(s.drop_first()) {
        Option::Some(-(dec_value(s.drop_first()) as int))
    } else {
        Option::None
    }
}

/// An optional 32-bit signed field: absent or null is none, a number
/// whose literal denotes an integer that fits is itself, all else fails.
pub open spec fn dec_opt_i32(v: Option<JsonVal>) -> Result<Option<i32>, DecodeErr> {
    match v {
        Option::None => Result::Ok(Option::None),
        Option::Some(JsonVal::Null) => Result::Ok(Option::None),
        Option::Some(JsonVal::Num(s)) => match int_literal_value(s@) {
            Option::Some(w) => if -0x8000_0000 <= w <= 0x7fff_ffff {
                Result::Ok(Option::Some(w as i32))
            } else {
                Result::Err(DecodeErr::BadThreadId)
            },
            Option::None => Result::Err(DecodeErr::BadThreadId),
        },
        Option::Some(_) => Result::Err(DecodeErr::BadThreadId),
    }
}

/// The unsigned 32-bit value a number literal denotes, if any.
pub open spec fn u32_literal(s: Seq<char>) -> Option<u32> {
    if all_digits(s) && dec_value(s) <= 0xffff_ffff {
        Option::Some(dec_value(s) as u32)
    } else {
        Option::None
    }
}

/// A required frame string field.
pub open spec fn dec_req_str(v: Option<JsonVal>) -> Result<String, DecodeErr> {
    match v {
        Option::Some(JsonVal::Str(s)) => Result::Ok(s),
        _ => Result::Err(DecodeErr::BadFrame),
    }
}

/// A required frame boolean field.
pub open spec fn dec_req_bool(v: Option<JsonVal>) -> Result<bool, DecodeErr> {
    match v {
        Option::Some(JsonVal::Bool(b)) => Result::Ok(b),
        _ => Result::Err(DecodeErr::BadFrame),
    }
}

/// A required frame line or column number.
pub open spec fn dec_req_u32(v: Option<JsonVal>) -> Result<u32, DecodeErr> {
    match v {
        Option::Some(JsonVal::Num(s)) => match u32_literal(s@) {
            Option::Some(n) => Result::Ok(n),
            Option::None => Result::Err(DecodeErr::BadFrame),
        },
        _ => Result::Err(DecodeErr::BadFrame),
    }
}

/// An optional frame line or column number.
pub open spec fn dec_opt_u32(v: Option<JsonVal>) -> Result<Option<u32>, DecodeErr> {
    match v {
        Option::None => Result::Ok(Option::None),
        Option::Some(JsonVal::Null) => Result::Ok(Option::None),
        Option::Some(JsonVal::Num(s)) => match u32_literal(s@) {
            Option::Some(n) => Result::Ok(Option::Some(n)),
            Option::None => Result::Err(DecodeErr::BadFrame),
        },
        Option::Some(_) => Result::Err(DecodeErr::BadFrame),
    }
}

/// What a mechanism object decodes to.
pub open spec fn dec_mechanism(v: JsonVal) -> Result<Mechanism, DecodeErr> {
    match v {
        JsonVal::Obj(es) => match dec_opt_bool(lookup(es@, "handled"@)) {
            Result::Err(e) => Result::Err(e),
            Result::Ok(handled) => match dec_opt_string(lookup(es@, "type"@)) {
                Result::Err(e) => Result::Err(e),
                Result::Ok(mechanism_type) => match dec_opt_string(lookup(es@, "source"@)) {
                    Result::Err(e) => Result::Err(e),
                    Result::Ok(source) => match dec_opt_bool(lookup(es@, "synthetic"@)) {
                        Result::Err(e) => Result::Err(e),
                        Result::Ok(synthetic) => Result::Ok(
                            Mechanism { handled, mechanism_type, source, synthetic },
                        ),
                    },
                },
            },
        },
        _ => Result::Err(DecodeErr::NotAnObject),
    }
}

/// An optional mechanism field.
pub open spec fn dec_mech_field(v: Option<JsonVal>) -> Result<Option<Mechanism>, DecodeErr> {
    match v {
        Option::None => Result::Ok(Option::None),
        Option::Some(JsonVal::Null) => Result::Ok(Option::None),
        Option::Some(w) => match dec_mechanism(w) {
            Result::Ok(m) => Result::Ok(Option::Some(m)),
            Result::Err(e) => Result::Err(e),
        },
    }
}

/// What one resolved-frame object decodes to.
pub open spec fn dec_frame(v: JsonVal) -> Result<Frame, DecodeErr> {
    match v {
        JsonVal::Obj(es) => match dec_req_str(lookup(es@, "mangled_name"@)) {
            Result::Err(e) => Result::Err(e),
            Result::Ok(mangled_name) => match dec_opt_string(lookup(es@, "source"@)) {
                Result::Err(e) => Result::Err(e),
                Result::Ok(source) => match dec_opt_u32(lookup(es@, "line"@)) {
                    Result::Err(e) => Result::Err(e),
                    Result::Ok(line) => match dec_opt_u32(lookup(es@, "column"@)) {
                        Result::Err(e) => Result::Err(e),
                        Result::Ok(column) => match dec_req_bool(lookup(es@, "in_app"@)) {
                            Result::Err(e) => Result::Err(e),
                            Result::Ok(in_app) => match dec_req_bool(
                                lookup(es@, "resolved"@),
                            ) {
                                Result::Err(e) => Result::Err(e),
                                Result::Ok(resolved) => Result::Ok(
                                    Frame {
                                        mangled_name,
                                        source,
                                        line,
                                        column,
                                        in_app,
                                        resolved,
                                    },
                                ),
                            },
                        },
                    },
                },
            },
        },
        _ => Result::Err(DecodeErr::NotAnObject),
    }
}

/// What one raw JavaScript frame object decodes to.
pub open spec fn dec_raw_frame(v: JsonVal) -> Result<RawFrame, DecodeErr> {
    match v {
        JsonVal::Obj(es) => match dec_req_str(lookup(es@, "fn_name"@)) {
            Result::Err(e) => Result::Err(e),
            Result::Ok(fn_name) => match dec_opt_string(lookup(es@, "source_url"@)) {
                Result::Err(e) => Result::Err(e),
                Result::Ok(source_url) => match dec_req_bool(lookup(es@, "in_app"@)) {
                    Result::Err(e) => Result::Err(e),
                    Result::Ok(in_app) => match dec_req_u32(lookup(es@, "line"@)) {
                        Result::Err(e) => Result::Err(e),
                        Result::Ok(line) => match dec_req_u32(lookup(es@, "column"@)) {
                            Result::Err(e) => Result::Err(e),
                            Result::Ok(column) => Result::Ok(
                                RawFrame::JavaScript(
                                    RawJSFrame { fn_name, source_url, in_app, line, column },
                                ),
                            ),
                        },
                    },
                },
            },
        },
        _ => Result::Err(DecodeErr::NotAnObject),
    }
}

/// The first error among a list of resolved-frame objects, if any.
pub open spec fn frames_list_err(elems: Seq<JsonVal>) -> Option<DecodeErr>
    decreases elems.len(),
{
    if elems.len() == 0 {
        Option::None
    } else {
        match dec_frame(elems[0]) {
            Result::Err(e) => Option::Some(e),
            Result::Ok(_) => frames_list_err(elems.drop_first()),
        }
    }
}

/// The first error among a list of raw-frame objects, if any.
pub open spec fn raw_frames_list_err(elems: Seq<JsonVal>) -> Option<DecodeErr>
    decreases elems.len(),
{
    if elems.len() == 0 {
        Option::None
    } else {
        match dec_raw_frame(elems[0]) {
            Result::Err(e) => Option::Some(e),
            Result::Ok(_) => raw_frames_list_err(elems.drop_first()),
        }
    }
}

/// The decoded frames are exactly the element-wise decodes.
pub open spec fn frames_ok(elems: Seq<JsonVal>, fs: Seq<Frame>) -> bool {
    fs.len() == elems.len() && forall|i: int|
        0 <= i < elems.len() ==> dec_frame(#[trigger] elems[i]) == Result::<
            Frame,
            DecodeErr,
        >::Ok(fs[i])
}

/// The decoded raw frames are exactly the element-wise decodes.
pub open spec fn raw_frames_ok(elems: Seq<JsonVal>, fs: Seq<RawFrame>) -> bool {
    fs.len() == elems.len() && forall|i: int|
        0 <= i < elems.len() ==> dec_raw_frame(#[trigger] elems[i]) == Result::<
            RawFrame,
            DecodeErr,
        >::Ok(fs[i])
}

/// Which error a stack-trace object decodes to, if any: the `type` tag
/// must be the string `raw` or `resolved`, `frames` must be an array,
/// and every frame must decode under the tagged shape.
pub open spec fn stacktrace_err(v: JsonVal) -> Option<DecodeErr> {
    match v {
        JsonVal::Obj(es) => match lookup(es@, "type"@) {
            Option::Some(JsonVal::Str(tag)) => if tag@ == "raw"@ {
                match lookup(es@, "frames"@) {
                    Option::Some(JsonVal::Arr(elems)) => raw_frames_list_err(elems@),
                    _ => Option::Some(DecodeErr::BadFrames),
                }
            } else if tag@ == "resolved"@ {
                match lookup(es@, "frames"@) {
                    Option::Some(JsonVal::Arr(elems)) => frames_list_err(elems@),
                    _ => Option::Some(DecodeErr::BadFrames),
                }
            } else {
                Option::Some(DecodeErr::BadStacktraceTag)
            },
            _ => Option::Some(DecodeErr::BadStacktraceTag),
        },
        _ => Option::Some(DecodeErr::NotAnObject),
    }
}

/// The decoded stack trace carries the tagged variant with the
/// element-wise decoded frames.
pub open spec fn stacktrace_ok(v: JsonVal, st: Stacktrace) -> bool {
    match v {
        JsonVal::Obj(es) => match lookup(es@, "type"@) {
            Option::Some(JsonVal::Str(tag)) => if tag@ == "raw"@ {
                match lookup(es@, "frames"@) {
                    Option::Some(JsonVal::Arr(elems)) => st matches Stacktrace::Raw { frames }
                        && raw_frames_ok(elems@, frames@),
                    _ => false,
                }
            } else if tag@ == "resolved"@ {
                match lookup(es@, "frames"@) {
                    Option::Some(JsonVal::Arr(elems)) => st matches Stacktrace::Resolved {
                        frames,
                    } && frames_ok(elems@, frames@),
                    _ => false,
                }
            } else {
                false
            },
            _ => false,
        },
        _ => false,
    }
}

/// Which error an optional stack field decodes to, if any.
pub open spec fn stack_field_err(v: Option<JsonVal>) -> Option<DecodeErr> {
    match v {
        Option::None => Option::None,
        Option::Some(JsonVal::Null) => Option::None,
        Option::Some(w) => stacktrace_err(w),
    }
}

/// The decoded optional stack field.
pub open spec fn stack_field_ok(v: Option<JsonVal>, st: Option<Stacktrace>) -> bool {
    match v {
        Option::None => st is None,
        Option::Some(JsonVal::Null) => st is None,
        Option::Some(w) => st matches Option::Some(s) && stacktrace_ok(w, s),
    }
}

/// Which error one exception object decodes to, if any: `type` and
/// `value` are required and must be non-empty strings; the optional
/// fields must each have their shape.
pub open spec fn exception_err(v: JsonVal) -> Option<DecodeErr> {
    match v {
        JsonVal::Obj(es) => match lookup(es@, "type"@) {
            Option::None => Option::Some(DecodeErr::MissingExceptionType),
            Option::Some(JsonVal::Str(t)) => if t@.len() == 0 {
                Option::Some(DecodeErr::EmptyExceptionType)
            } else {
                match lookup(es@, "value"@) {
                    Option::None => Option::Some(DecodeErr::MissingExceptionMessage),
                    Option::Some(JsonVal::Str(m)) => if m@.len() == 0 {
                        Option::Some(DecodeErr::EmptyExceptionMessage)
                    } else {
                        match dec_mech_field(lookup(es@, "mechanism"@)) {
                            Result::Err(e) => Option::Some(e),
                            Result::Ok(_) => match dec_opt_string(lookup(es@, "module"@)) {
                                Result::Err(e) => Option::Some(e),
                                Result::Ok(_) => match dec_opt_i32(
                                    lookup(es@, "thread_id"@),
                                ) {
                                    Result::Err(e) => Option::Some(e),
                                    Result::Ok(_) => stack_field_err(
                                        lookup(es@, "stacktrace"@),
                                    ),
                                },
                            },
                        }
                    },
                    Option::Some(_) => Option::Some(DecodeErr::BadStringField),
                }
            },
            Option::Some(_) => Option::Some(DecodeErr::BadStringField),
        },
        _ => Option::Some(DecodeErr::NotAnObject),
    }
}

/// The decoded exception carries exactly the decoded fields.
pub open spec fn exception_ok(v: JsonVal, e: Exception) -> bool {
    match v {
        JsonVal::Obj(es) => {
            &&& lookup(es@, "type"@) matches Option::Some(JsonVal::Str(t)) && e.exception_type
                == t
            &&& lookup(es@, "value"@) matches Option::Some(JsonVal::Str(m))
                && e.exception_message == m
            &&& dec_mech_field(lookup(es@, "mechanism"@)) == Result::<
                Option<Mechanism>,
                DecodeErr,
            >::Ok(e.mechanism)
            &&& dec_opt_string(lookup(es@, "module"@)) == Result::<
                Option<String>,
                DecodeErr,
            >::Ok(e.module)
            &&& dec_opt_i32(lookup(es@, "thread_id"@)) == Result::<
                Option<i32>,
                DecodeErr,
            >::Ok(e.thread_id)
            &&& stack_field_ok(lookup(es@, "stacktrace"@), e.stack)
        },
        _ => false,
    }
}

/// The first error among a list of exception objects, if any.
pub open spec fn exceptions_list_err(elems: Seq<JsonVal>) -> Option<DecodeErr>
    decreases elems.len(),
{
    if elems.len() == 0 {
        Option::None
    } else {
        match exception_err(elems[0]) {
            Option::Some(e) => Option::Some(e),
            Option::None => exceptions_list_err(elems.drop_first()),
        }
    }
}

/// The decoded exceptions are exactly the element-wise decodes.
pub open spec fn exceptions_ok(elems: Seq<JsonVal>, out: Seq<Exception>) -> bool {
    out.len() == elems.len() && forall|i: int|
        0 <= i < elems.len() ==> exception_ok(#[trigger] elems[i], out[i])
}

/// Which error the `$exception_list` field decodes to, if any.
pub open spec fn list_field_err(v: Option<JsonVal>) -> Option<DecodeErr> {
    match v {
        Option::None => Option::None,
        Option::Some(JsonVal::Null) => Option::None,
        Option::Some(JsonVal::Arr(elems)) => exceptions_list_err(elems@),
        Option::Some(_) => Option::Some(DecodeErr::BadExceptionList),
    }
}

/// The decoded `$exception_list` field.
pub open spec fn list_field_ok(v: Option<JsonVal>, l: Option<Vec<Exception>>) -> bool {
    match v {
        Option::None => l is None,
        Option::Some(JsonVal::Null) => l is None,
        Option::Some(JsonVal::Arr(elems)) => l matches Option::Some(xs) && exceptions_ok(
            elems@,
            xs@,
        ),
        Option::Some(_) => false,
    }
}

/// The five top-level keys this library models.
pub open spec fn modeled_key(k: Seq<char>) -> bool {
    ||| k == "$exception_list"@
    ||| k == "$exception_type"@
    ||| k == "$exception_message"@
    ||| k == "$exception_stack_trace_raw"@
    ||| k == "$exception_level"@
}

/// The entries whose keys are not modeled, in their original order.
pub open spec fn unmodeled_entries(es: Seq<(String, JsonVal)>) -> Seq<(String, JsonVal)>
    decreases es.len(),
{
    if es.len() == 0 {
        Seq::empty()
    } else if modeled_key(es[0].0@) {
        unmodeled_entries(es.drop_first())
    } else {
        seq![es[0]] + unmodeled_entries(es.drop_first())
    }
}

/// Which error a whole property document decodes to, if any.
pub open spec fn props_err(v: JsonVal) -> Option<DecodeErr> {
    match v {
        JsonVal::Obj(es) => match list_field_err(lookup(es@, "$exception_list"@)) {
            Option::Some(e) => Option::Some(e),
            Option::None => match dec_opt_string(lookup(es@, "$exception_type"@)) {
                Result::Err(e) => Option::Some(e),
                Result::Ok(_) => match dec_opt_string(lookup(es@, "$exception_message"@)) {
                    Result::Err(e) => Option::Some(e),
                    Result::Ok(_) => match dec_opt_string(
                        lookup(es@, "$exception_stack_trace_raw"@),
                    ) {
                        Result::Err(e) => Option::Some(e),
                        Result::Ok(_) => match dec_opt_string(
                            lookup(es@, "$exception_level"@),
                        ) {
                            Result::Err(e) => Option::Some(e),
                            Result::Ok(_) => Option::None,
                        },
                    },
                },
            },
        },
        _ => Option::Some(DecodeErr::NotAnObject),
    }
}

/// The decoded properties carry exactly the decoded modeled fields,
/// and `other` carries every unmodeled entry, verbatim and in order.
pub open spec fn props_ok(v: JsonVal, p: ErrProps) -> bool {
    match v {
        JsonVal::Obj(es) => {
            &&& list_field_ok(lookup(es@, "$exception_list"@), p.exception_list)
            &&& dec_opt_string(lookup(es@, "$exception_type"@)) == Result::<
                Option<String>,
                DecodeErr,
            >::Ok(p.exception_type)
            &&& dec_opt_string(lookup(es@, "$exception_message"@)) == Result::<
                Option<String>,
                DecodeErr,
            >::Ok(p.exception_message)
            &&& dec_opt_string(lookup(es@, "$exception_stack_trace_raw"@)) == Result::<
                Option<String>,
                DecodeErr,
            >::Ok(p.exception_stack_trace_raw)
            &&& dec_opt_string(lookup(es@, "$exception_level"@)) == Result::<
                Option<String>,
                DecodeErr,
            >::Ok(p.exception_level)
            &&& p.other@ == unmodeled_entries(es@)
        },
        _ => false,
    }
}

/// Decodes an optional string field, as `dec_opt_string` describes.
fn get_opt_string(v: Option<&JsonVal>) -> (r: Result<Option<String>, DecodeErr>)
    ensures
        r == dec_opt_string(opt_deref(v)),
{
    match v {
        Option::None => Result::Ok(Option::None),
        Option::Some(JsonVal::Null) => Result::Ok(Option::None),
        Option::Some(JsonVal::Str(s)) => Result::Ok(Option::Some(s.clone())),
        Option::Some(_) => Result::Err(DecodeErr::BadStringField),
    }
}

/// Decodes an optional boolean field, as `dec_opt_bool` describes.
fn get_opt_bool(v: Option<&JsonVal>) -> (r: Result<Option<bool>, DecodeErr>)
    ensures
        r == dec_opt_bool(opt_deref(v)),
{
    match v {
        Option::None => Result::Ok(Option::None),
        Option::Some(JsonVal::Null) => Result::Ok(Option::None),
        Option::Some(JsonVal::Bool(b)) => Result::Ok(Option::Some(*b)),
        Option::Some(_) => Result::Err(DecodeErr::BadBoolField),
    }
}

/// Reads a number literal as a 32-bit signed integer, exactly when
/// `int_literal_value` gives one that fits.
fn parse_i32(s: &str) -> (r: Option<i32>)
    ensures
        match r {
            Option::Some(v) => int_literal_value(s@) == Option::Some(v as int),
            Option::None => !(int_literal_value(s@) matches Option::Some(w) && -0x8000_0000 <= w
                <= 0x7fff_ffff),
        },
{
    let len = s.unicode_len();
    if len == 0 {
        return Option::None;
    }
    let c0 = s.get_char(0);
    if c0 == '-' {
        let rest = s.substring_char(1, len);
        proof {
            assert(rest@ =~= s@.drop_first());
        }
        match parse_dec_limited(rest, 0x8000_0000) {
            Option::Some(v) => {
                let w: i64 = -(v as i64);
                proof {
                    assert(!all_digits(s@));
                }
                Option::Some(w as i32)
            },
            Option::None => {
                proof {
                    assert(!all_digits(s@));
                }
                Option::None
            },
        }
    } else {
        match parse_dec_limited(s, 0x7fff_ffff) {
            Option::Some(v) => Option::Some(v as i32),
            Option::None => Option::None,
        }
    }
}

/// Decodes an optional 32-bit signed field, as `dec_opt_i32` describes.
fn get_opt_i32(v: Option<&JsonVal>) -> (r: Result<Option<i32>, DecodeErr>)
    ensures
        r == dec_opt_i32(opt_deref(v)),
{
    match v {
        Option::None => Result::Ok(Option::None),
        Option::Some(JsonVal::Null) => Result::Ok(Option::None),
        Option::Some(JsonVal::Num(s)) => match parse_i32(s.as_str()) {
            Option::Some(n) => Result::Ok(Option::Some(n)),
            Option::None => Result::Err(DecodeErr::BadThreadId),
        },
        Option::Some(_) => Result::Err(DecodeErr::BadThreadId),
    }
}

/// Reads a number literal as an unsigned 32-bit integer, exactly when
/// `u32_literal` gives one.
fn parse_u32(s: &str) -> (r: Option<u32>)
    ensures
        r == u32_literal(s@),
{
    match parse_dec_limited(s, 0xffff_ffff) {
        Option::Some(v) => Option::Some(v as u32),
        Option::None => Option::None,
    }
}

/// Decodes a required frame string field, as `dec_req_str` describes.
fn get_req_str(v: Option<&JsonVal>) -> (r: Result<String, DecodeErr>)
    ensures
        r == dec_req_str(opt_deref(v)),
{
    match v {
        Option::Some(JsonVal::Str(s)) => Result::Ok(s.clone()),
        _ => Result::Err(DecodeErr::BadFrame),
    }
}

/// Decodes a required frame boolean field, as `dec_req_bool` describes.
fn get_req_bool(v: Option<&JsonVal>) -> (r: Result<bool, DecodeErr>)
    ensures
        r == dec_req_bool(opt_deref(v)),
{
    match v {
        Option::Some(JsonVal::Bool(b)) => Result::Ok(*b),
        _ => Result::Err(DecodeErr::BadFrame),
    }
}

/// Decodes a required frame number field, as `dec_req_u32` describes.
fn get_req_u32(v: Option<&JsonVal>) -> (r: Result<u32, DecodeErr>)
    ensures
        r == dec_req_u32(opt_deref(v)),
{
    match v {
        Option::Some(JsonVal::Num(s)) => match parse_u32(s.as_str()) {
            Option::Some(n) => Result::Ok(n),
            Option::None => Result::Err(DecodeErr::BadFrame),
        },
        _ => Result::Err(DecodeErr::BadFrame),
    }
}

/// Decodes an optional frame number field, as `dec_opt_u32` describes.
fn get_opt_u32(v: Option<&JsonVal>) -> (r: Result<Option<u32>, DecodeErr>)
    ensures
        r == dec_opt_u32(opt_deref(v)),
{
    match v {
        Option::None => Result::Ok(Option::None),
        Option::Some(JsonVal::Null) => Result::Ok(Option::None),
        Option::Some(JsonVal::Num(s)) => match parse_u32(s.as_str()) {
            Option::Some(n) => Result::Ok(Option::Some(n)),
            Option::None => Result::Err(DecodeErr::BadFrame),
        },
        Option::Some(_) => Result::Err(DecodeErr::BadFrame),
    }
}

/// Decodes a mechanism object, as `dec_mechanism` describes.
fn decode_mechanism(v: &JsonVal) -> (r: Result<Mechanism, DecodeErr>)
    ensures
        r == dec_mechanism(*v),
{
    match v {
        JsonVal::Obj(es) => {
            let handled = match get_opt_bool(find(es, "handled")) {
                Result::Ok(x) => x,
                Result::Err(e) => return Result::Err(e),
            };
            let mechanism_type = match get_opt_string(find(es, "type")) {
                Result::Ok(x) => x,
                Result::Err(e) => return Result::Err(e),
            };
            let source = match get_opt_string(find(es, "source")) {
                Result::Ok(x) => x,
                Result::Err(e) => return Result::Err(e),
            };
            let synthetic = match get_opt_bool(find(es, "synthetic")) {
                Result::Ok(x) => x,
                Result::Err(e) => return Result::Err(e),
            };
            Result::Ok(Mechanism { handled, mechanism_type, source, synthetic })
        },
        _ => Result::Err(DecodeErr::NotAnObject),
    }
}

/// Decodes an optional mechanism field, as `dec_mech_field` describes.
fn get_mech_field(v: Option<&JsonVal>) -> (r: Result<Option<Mechanism>, DecodeErr>)
    ensures
        r == dec_mech_field(opt_deref(v)),
{
    match v {
        Option::None => Result::Ok(Option::None),
        Option::Some(JsonVal::Null) => Result::Ok(Option::None),
        Option::Some(w) => match decode_mechanism(w) {
            Result::Ok(m) => Result::Ok(Option::Some(m)),
            Result::Err(e) => Result::Err(e),
        },
    }
}

/// Decodes one resolved-frame object, as `dec_frame` describes.
fn decode_frame(v: &JsonVal) -> (r: Result<Frame, DecodeErr>)
    ensures
        r == dec_frame(*v),
{
    match v {
        JsonVal::Obj(es) => {
            let mangled_name = match get_req_str(find(es, "mangled_name")) {
                Result::Ok(x) => x,
                Result::Err(e) => return Result::Err(e),
            };
            let source = match get_opt_string(find(es, "source")) {
                Result::Ok(x) => x,
                Result::Err(e) => return Result::Err(e),
            };
            let line = match get_opt_u32(find(es, "line")) {
                Result::Ok(x) => x,
                Result::Err(e) => return Result::Err(e),
            };
            let column = match get_opt_u32(find(es, "column")) {
                Result::Ok(x) => x,
                Result::Err(e) => return Result::Err(e),
            };
            let in_app = match get_req_bool(find(es, "in_app")) {
                Result::Ok(x) => x,
                Result::Err(e) => return Result::Err(e),
            };
            let resolved = match get_req_bool(find(es, "resolved")) {
                Result::Ok(x) => x,
                Result::Err(e) => return Result::Err(e),
            };
            Result::Ok(Frame { mangled_name, source, line, column, in_app, resolved })
        },
        _ => Result::Err(DecodeErr::NotAnObject),
    }
}

/// Decodes one raw JavaScript frame object, as `dec_raw_frame` describes.
fn decode_raw_frame(v: &JsonVal) -> (r: Result<RawFrame, DecodeErr>)
    ensures
        r == dec_raw_frame(*v),
{
    match v {
        JsonVal::Obj(es) => {
            let fn_name = match get_req_str(find(es, "fn_name")) {
                Result::Ok(x) => x,
                Result::Err(e) => return Result::Err(e),
            };
            let source_url = match get_opt_string(find(es, "source_url")) {
                Result::Ok(x) => x,
                Result::Err(e) => return Result::Err(e),
            };
            let in_app = match get_req_bool(find(es, "in_app")) {
                Result::Ok(x) => x,
                Result::Err(e) => return Result::Err(e),
            };
            let line = match get_req_u32(find(es, "line")) {
                Result::Ok(x) => x,
                Result::Err(e) => return Result::Err(e),
            };
            let column = match get_req_u32(find(es, "column")) {
                Result::Ok(x) => x,
                Result::Err(e) => return Result::Err(e),
            };
            Result::Ok(RawFrame::JavaScript(RawJSFrame { fn_name, source_url, in_app, line, column }))
        },
        _ => Result::Err(DecodeErr::NotAnObject),
    }
}

/// With the first `i` elements decoding cleanly, the list's first
/// error is decided by the rest.
proof fn lemma_frames_err_skip(elems: Seq<JsonVal>, i: int)
    requires
        0 <= i <= elems.len(),
        forall|k: int| 0 <= k < i ==> dec_frame(#[trigger] elems[k]) is Ok,
    ensures
        frames_list_err(elems) == frames_list_err(elems.skip(i)),
    decreases i,
{
    if i > 0 {
        assert(dec_frame(elems[0]) is Ok);
        assert(forall|k: int|
            0 <= k < i - 1 ==> dec_frame(#[trigger] elems.drop_first()[k]) is Ok);
        lemma_frames_err_skip(elems.drop_first(), i - 1);
        assert(elems.drop_first().skip(i - 1) =~= elems.skip(i));
    } else {
        assert(elems.skip(0) =~= elems);
    }
}

/// As `lemma_frames_err_skip`, for raw frames.
proof fn lemma_raw_frames_err_skip(elems: Seq<JsonVal>, i: int)
    requires
        0 <= i <= elems.len(),
        forall|k: int| 0 <= k < i ==> dec_raw_frame(#[trigger] elems[k]) is Ok,
    ensures
        raw_frames_list_err(elems) == raw_frames_list_err(elems.skip(i)),
    decreases i,
{
    if i > 0 {
        assert(dec_raw_frame(elems[0]) is Ok);
        assert(forall|k: int|
            0 <= k < i - 1 ==> dec_raw_frame(#[trigger] elems.drop_first()[k]) is Ok);
        lemma_raw_frames_err_skip(elems.drop_first(), i - 1);
        assert(elems.drop_first().skip(i - 1) =~= elems.skip(i));
    } else {
        assert(elems.skip(0) =~= elems);
    }
}

/// As `lemma_frames_err_skip`, for exceptions.
proof fn lemma_exceptions_err_skip(elems: Seq<JsonVal>, i: int)
    requires
        0 <= i <= elems.len(),
        forall|k: int| 0 <= k < i ==> exception_err(#[trigger] elems[k]) is None,
    ensures
        exceptions_list_err(elems) == exceptions_list_err(elems.skip(i)),
    decreases i,
{
    if i > 0 {
        assert(exception_err(elems[0]) is None);
        assert(forall|k: int|
            0 <= k < i - 1 ==> exception_err(#[trigger] elems.drop_first()[k]) is None);
        lemma_exceptions_err_skip(elems.drop_first(), i - 1);
        assert(elems.drop_first().skip(i - 1) =~= elems.skip(i));
    } else {
        assert(elems.skip(0) =~= elems);
    }
}

/// Decodes a whole array of resolved-frame objects, fail-closed.
fn decode_frames(elems: &Vec<JsonVal>) -> (r: Result<Vec<Frame>, DecodeErr>)
    ensures
        match r {
            Result::Ok(fs) => frames_list_err(elems@) is None && frames_ok(elems@, fs@),
            Result::Err(e) => frames_list_err(elems@) == Option::Some(e),
        },
{
    let mut fs: Vec<Frame> = Vec::new();
    let mut i: usize = 0;
    while i < elems.len()
        invariant
            0 <= i <= elems@.len(),
            fs@.len() == i,
            forall|k: int|
                0 <= k < i ==> dec_frame(#[trigger] elems@[k]) == Result::<
                    Frame,
                    DecodeErr,
                >::Ok(fs@[k]),
        decreases elems@.len() - i,
    {
        match decode_frame(&elems[i]) {
            Result::Ok(f) => {
                fs.push(f);
            },
            Result::Err(e) => {
                proof {
                    lemma_frames_err_skip(elems@, i as int);
                    assert(elems@.skip(i as int)[0] == elems@[i as int]);
                }
                return Result::Err(e);
            },
        }
        i = i + 1;
    }
    proof {
        lemma_frames_err_skip(elems@, elems@.len() as int);
        assert(elems@.skip(elems@.len() as int) =~= Seq::<JsonVal>::empty());
    }
    Result::Ok(fs)
}

/// Decodes a whole array of raw-frame objects, fail-closed.
fn decode_raw_frames(elems: &Vec<JsonVal>) -> (r: Result<Vec<RawFrame>, DecodeErr>)
    ensures
        match r {
            Result::Ok(fs) => raw_frames_list_err(elems@) is None && raw_frames_ok(elems@, fs@),
            Result::Err(e) => raw_frames_list_err(elems@) == Option::Some(e),
        },
{
    let mut fs: Vec<RawFrame> = Vec::new();
    let mut i: usize = 0;
    while i < elems.len()
        invariant
            0 <= i <= elems@.len(),
            fs@.len() == i,
            forall|k: int|
                0 <= k < i ==> dec_raw_frame(#[trigger] elems@[k]) == Result::<
                    RawFrame,
                    DecodeErr,
                >::Ok(fs@[k]),
        decreases elems@.len() - i,
    {
        match decode_raw_frame(&elems[i]) {
            Result::Ok(f) => {
                fs.push(f);
            },
            Result::Err(e) => {
                proof {
                    lemma_raw_frames_err_skip(elems@, i as int);
                    assert(elems@.skip(i as int)[0] == elems@[i as int]);
                }
                return Result::Err(e);
            },
        }
        i = i + 1;
    }
    proof {
        lemma_raw_frames_err_skip(elems@, elems@.len() as int);
        assert(elems@.skip(elems@.len() as int) =~= Seq::<JsonVal>::empty());
    }
    Result::Ok(fs)
}

/// Decodes a stack-trace object, as `stacktrace_err` and
/// `stacktrace_ok` describe.
fn decode_stacktrace(v: &JsonVal) -> (r: Result<Stacktrace, DecodeErr>)
    ensures
        match r {
            Result::Ok(st) => stacktrace_err(*v) is None && stacktrace_ok(*v, st),
            Result::Err(e) => stacktrace_err(*v) == Option::Some(e),
        },
{
    match v {
        JsonVal::Obj(es) => {
            let tag = match find(es, "type") {
                Option::Some(JsonVal::Str(s)) => s,
                _ => return Result::Err(DecodeErr::BadStacktraceTag),
            };
            let is_raw = str_eq(tag, "raw");
            let is_resolved = str_eq(tag, "resolved");
            if !is_raw && !is_resolved {
                return Result::Err(DecodeErr::BadStacktraceTag);
            }
            let elems = match find(es, "frames") {
                Option::Some(JsonVal::Arr(elems)) => elems,
                _ => return Result::Err(DecodeErr::BadFrames),
            };
            if is_raw {
                match decode_raw_frames(elems) {
                    Result::Ok(frames) => Result::Ok(Stacktrace::Raw { frames }),
                    Result::Err(e) => Result::Err(e),
                }
            } else {
                match decode_frames(elems) {
                    Result::Ok(frames) => Result::Ok(Stacktrace::Resolved { frames }),
                    Result::Err(e) => Result::Err(e),
                }
            }
        },
        _ => Result::Err(DecodeErr::NotAnObject),
    }
}

/// Decodes an optional stack field, as `stack_field_err` and
/// `stack_field_ok` describe.
fn get_stack_field(v: Option<&JsonVal>) -> (r: Result<Option<Stacktrace>, DecodeErr>)
    ensures
        match r {
            Result::Ok(st) => stack_field_err(opt_deref(v)) is None && stack_field_ok(
                opt_deref(v),
                st,
            ),
            Result::Err(e) => stack_field_err(opt_deref(v)) == Option::Some(e),
        },
{
    match v {
        Option::None => Result::Ok(Option::None),
        Option::Some(JsonVal::Null) => Result::Ok(Option::None),
        Option::Some(w) => match decode_stacktrace(w) {
            Result::Ok(st) => Result::Ok(Option::Some(st)),
            Result::Err(e) => Result::Err(e),
        },
    }
}

/// Decodes one exception object: `type` and `value` must be present,
/// strings, and non-empty; every optional field must have its shape.
pub fn decode_exception(v: &JsonVal) -> (r: Result<Exception, DecodeErr>)
    ensures
        match r {
            Result::Ok(e) => exception_err(*v) is None && exception_ok(*v, e) && exception_wf(e),
            Result::Err(er) => exception_err(*v) == Option::Some(er),
        },
{
    match v {
        JsonVal::Obj(es) => {
            let exception_type = match find(es, "type") {
                Option::Some(JsonVal::Str(s)) => s.clone(),
                Option::Some(_) => return Result::Err(DecodeErr::BadStringField),
                Option::None => return Result::Err(DecodeErr::MissingExceptionType),
            };
            if exception_type.as_str().is_empty() {
                return Result::Err(DecodeErr::EmptyExceptionType);
            }
            let exception_message = match find(es, "value") {
                Option::Some(JsonVal::Str(s)) => s.clone(),
                Option::Some(_) => return Result::Err(DecodeErr::BadStringField),
                Option::None => return Result::Err(DecodeErr::MissingExceptionMessage),
            };
            if exception_message.as_str().is_empty() {
                return Result::Err(DecodeErr::EmptyExceptionMessage);
            }
            let mechanism = match get_mech_field(find(es, "mechanism")) {
                Result::Ok(x) => x,
                Result::Err(e) => return Result::Err(e),
            };
            let module = match get_opt_string(find(es, "module")) {
                Result::Ok(x) => x,
                Result::Err(e) => return Result::Err(e),
            };
            let thread_id = match get_opt_i32(find(es, "thread_id")) {
                Result::Ok(x) => x,
                Result::Err(e) => return Result::Err(e),
            };
            let stack = match get_stack_field(find(es, "stacktrace")) {
                Result::Ok(x) => x,
                Result::Err(e) => return Result::Err(e),
            };
            Result::Ok(
                Exception {
                    exception_type,
                    exception_message,
                    mechanism,
                    module,
                    thread_id,
                    stack,
                },
            )
        },
        _ => Result::Err(DecodeErr::NotAnObject),
    }
}

/// Decodes a whole exception array, fail-closed.
fn decode_exceptions(elems: &Vec<JsonVal>) -> (r: Result<Vec<Exception>, DecodeErr>)
    ensures
        match r {
            Result::Ok(out) => exceptions_list_err(elems@) is None && exceptions_ok(elems@, out@)
                && forall|i: int| 0 <= i < out@.len() ==> exception_wf(#[trigger] out@[i]),
            Result::Err(e) => exceptions_list_err(elems@) == Option::Some(e),
        },
{
    let mut out: Vec<Exception> = Vec::new();
    let mut i: usize = 0;
    while i < elems.len()
        invariant
            0 <= i <= elems@.len(),
            out@.len() == i,
            forall|k: int| 0 <= k < i ==> exception_err(#[trigger] elems@[k]) is None,
            forall|k: int| 0 <= k < i ==> exception_ok(#[trigger] elems@[k], out@[k]),
            forall|k: int| 0 <= k < i ==> exception_wf(#[trigger] out@[k]),
        decreases elems@.len() - i,
    {
        match decode_exception(&elems[i]) {
            Result::Ok(e) => {
                out.push(e);
            },
            Result::Err(er) => {
                proof {
                    lemma_exceptions_err_skip(elems@, i as int);
                    assert(elems@.skip(i as int)[0] == elems@[i as int]);
                }
                return Result::Err(er);
            },
        }
        i = i + 1;
    }
    proof {
        lemma_exceptions_err_skip(elems@, elems@.len() as int);
        assert(elems@.skip(elems@.len() as int) =~= Seq::<JsonVal>::empty());
    }
    Result::Ok(out)
}

/// Decodes the `$exception_list` field, as `list_field_err` and
/// `list_field_ok` describe.
fn get_list_field(v: Option<&JsonVal>) -> (r: Result<Option<Vec<Exception>>, DecodeErr>)
    ensures
        match r {
            Result::Ok(l) => list_field_err(opt_deref(v)) is None && list_field_ok(
                opt_deref(v),
                l,
            ) && (l matches Option::Some(xs) ==> forall|i: int|
                0 <= i < xs@.len() ==> exception_wf(#[trigger] xs@[i])),
            Result::Err(e) => list_field_err(opt_deref(v)) == Option::Some(e),
        },
{
    match v {
        Option::None => Result::Ok(Option::None),
        Option::Some(JsonVal::Null) => Result::Ok(Option::None),
        Option::Some(JsonVal::Arr(elems)) => match decode_exceptions(elems) {
            Result::Ok(out) => Result::Ok(Option::Some(out)),
            Result::Err(e) => Result::Err(e),
        },
        Option::Some(_) => Result::Err(DecodeErr::BadExceptionList),
    }
}

/// Reports whether a top-level key is one this library models.
fn is_modeled_key(k: &String) -> (r: bool)
    ensures
        r == modeled_key(k@),
{
    str_eq(k, "$exception_list") || str_eq(k, "$exception_type") || str_eq(
        k,
        "$exception_message",
    ) || str_eq(k, "$exception_stack_trace_raw") || str_eq(k, "$exception_level")
}

/// Decodes a whole property document, as `props_err` and `props_ok`
/// describe: fail-closed over the modeled fields, and lossless over
/// everything else, which lands in `other` verbatim and in order.
/// Every exception in a decoded list has a non-empty type and message.
pub fn decode_props(v: JsonVal) -> (r: Result<ErrProps, DecodeErr>)
    ensures
        match r {
            Result::Ok(p) => props_err(v) is None && props_ok(v, p) && (p.exception_list
                matches Option::Some(xs) ==> forall|i: int|
                0 <= i < xs@.len() ==> exception_wf(#[trigger] xs@[i])),
            Result::Err(e) => props_err(v) == Option::Some(e),
        },
{
    match v {
        JsonVal::Obj(es) => {
            let exception_list = match get_list_field(find(&es, "$exception_list")) {
                Result::Ok(x) => x,
                Result::Err(e) => return Result::Err(e),
            };
            let exception_type = match get_opt_string(find(&es, "$exception_type")) {
                Result::Ok(x) => x,
                Result::Err(e) => return Result::Err(e),
            };
            let exception_message = match get_opt_string(find(&es, "$exception_message")) {
                Result::Ok(x) => x,
                Result::Err(e) => return Result::Err(e),
            };
            let exception_stack_trace_raw = match get_opt_string(
                find(&es, "$exception_stack_trace_raw"),
            ) {
                Result::Ok(x) => x,
                Result::Err(e) => return Result::Err(e),
            };
            let exception_level = match get_opt_string(find(&es, "$exception_level")) {
                Result::Ok(x) => x,
                Result::Err(e) => return Result::Err(e),
            };
            let ghost es0 = es@;
            let mut rest = es;
            let mut other: Vec<(String, JsonVal)> = Vec::new();
            while rest.len() > 0
                invariant
                    other@ + unmodeled_entries(rest@) == unmodeled_entries(es0),
                decreases rest@.len(),
            {
                let ghost r0 = rest@;
                let entry = rest.remove(0);
                proof {
                    assert(r0.remove(0) =~= r0.drop_first());
                    assert(entry == r0[0]);
                }
                if is_modeled_key(&entry.0) {
                    proof {
                        assert(other@ + unmodeled_entries(rest@) == unmodeled_entries(es0));
                    }
                } else {
                    other.push(entry);
                    proof {
                        assert(other@ + unmodeled_entries(rest@) =~= unmodeled_entries(es0));
                    }
                }
            }
            proof {
                assert(rest@ =~= Seq::<(String, JsonVal)>::empty());
                assert(other@ + unmodeled_entries(rest@) =~= other@);
                assert(other@ =~= unmodeled_entries(es0));
            }
            Result::Ok(
                ErrProps {
                    exception_list,
                    exception_type,
                    exception_message,
                    exception_stack_trace_raw,
                    exception_level,
                    other,
                },
            )
        },
        _ => Result::Err(DecodeErr::NotAnObject),
    }
}

/// Decodes an event's property text: parses the JSON and decodes the
/// document. Text that is not valid JSON fails with `InvalidJson`;
/// everything else decodes exactly as `decode_props` does.
pub fn decode_error_props(text: &str) -> (r: Result<ErrProps, DecodeErr>)
    ensures
        json_parse_of(text@) is None ==> r == Result::<ErrProps, DecodeErr>::Err(
            DecodeErr::InvalidJson,
        ),
        json_parse_of(text@) matches Option::Some(v) ==> match r {
            Result::Ok(p) => props_err(v) is None && props_ok(v, p) && (p.exception_list
                matches Option::Some(xs) ==> forall|i: int|
                0 <= i < xs@.len() ==> exception_wf(#[trigger] xs@[i])),
            Result::Err(e) => props_err(v) == Option::Some(e),
        },
{
    match parse_json(text) {
        Option::Some(v) => decode_props(v),
        Option::None => Result::Err(DecodeErr::InvalidJson),
    }
}

} // verus!
