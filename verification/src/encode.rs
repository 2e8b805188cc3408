//! The property encoder: turns an `ErrProps` back into a JSON
//! document. Modeled fields come first, in a fixed order; every entry
//! of `other` follows verbatim and in order, so a decode followed by a
//! re-encode preserves every key this library does not model. A field
//! marked optional on the wire is omitted when unset; the exception
//! list, the severity level and an exception's mechanism are always
//! written, as `null` when unset.

use vstd::prelude::*;
use crate::json::{JsonVal, lookup};
use crate::model::{Mechanism, RawFrame, RawJSFrame, Frame, Stacktrace, Exception, ErrProps};
use crate::num::{dec_chars, dec_u32};
use crate::decode::{modeled_key, unmodeled_entries, props_ok};

verus! {

/// One entry holds `k` and exactly the value `v`.
pub open spec fn entry_is(e: (String, JsonVal), k: Seq<char>, v: JsonVal) -> bool {
    e.0@ == k && e.1 == v
}

/// One entry holds `k` and a number whose literal is `cs`.
pub open spec fn num_entry_is(e: (String, JsonVal), k: Seq<char>, cs: Seq<char>) -> bool {
    e.0@ == k && (e.1 matches JsonVal::Num(s) && s@ == cs)
}

/// How many entries an optional field occupies.
pub open spec fn opt_len<T>(v: Option<T>) -> int {
    match v {
        Option::Some(_) => 1,
        Option::None => 0,
    }
}

/// The decimal literal of a signed 32-bit value.
pub open spec fn i32_chars(n: int) -> Seq<char> {
    if n < 0 {
        seq!['-'] + dec_chars((-n) as nat)
    } else {
        dec_chars(n as nat)
    }
}

/// The encoded mechanism object: each of the four fields appears, in
/// order, exactly when it is set.
pub open spec fn encodes_mechanism(m: Mechanism, v: JsonVal) -> bool {
    v matches JsonVal::Obj(es) && {
        let n1 = opt_len(m.handled);
        let n2 = opt_len(m.mechanism_type);
        let n3 = opt_len(m.source);
        &&& es@.len() == n1 + n2 + n3 + opt_len(m.synthetic)
        &&& (m.handled matches Option::Some(b) ==> entry_is(es@[0], "handled"@, JsonVal::Bool(b)))
        &&& (m.mechanism_type matches Option::Some(s) ==> entry_is(
            es@[n1],
            "type"@,
            JsonVal::Str(s),
        ))
        &&& (m.source matches Option::Some(s) ==> entry_is(
            es@[n1 + n2],
            "source"@,
            JsonVal::Str(s),
        ))
        &&& (m.synthetic matches Option::Some(b) ==> entry_is(
            es@[n1 + n2 + n3],
            "synthetic"@,
            JsonVal::Bool(b),
        ))
    }
}

/// The encoded raw JavaScript frame object.
pub open spec fn encodes_raw_frame(f: RawFrame, v: JsonVal) -> bool {
    v matches JsonVal::Obj(es) && {
        let RawFrame::JavaScript(j) = f;
        let a = opt_len(j.source_url);
        &&& es@.len() == 4 + a
        &&& entry_is(es@[0], "fn_name"@, JsonVal::Str(j.fn_name))
        &&& (j.source_url matches Option::Some(u) ==> entry_is(
            es@[1],
            "source_url"@,
            JsonVal::Str(u),
        ))
        &&& entry_is(es@[1 + a], "in_app"@, JsonVal::Bool(j.in_app))
        &&& num_entry_is(es@[2 + a], "line"@, dec_chars(j.line as nat))
        &&& num_entry_is(es@[3 + a], "column"@, dec_chars(j.column as nat))
    }
}

/// The encoded resolved-frame object.
pub open spec fn encodes_frame(f: Frame, v: JsonVal) -> bool {
    v matches JsonVal::Obj(es) && {
        let a = opt_len(f.source);
        let b = opt_len(f.line);
        let c = opt_len(f.column);
        &&& es@.len() == 3 + a + b + c
        &&& entry_is(es@[0], "mangled_name"@, JsonVal::Str(f.mangled_name))
        &&& (f.source matches Option::Some(s) ==> entry_is(es@[1], "source"@, JsonVal::Str(s)))
        &&& (f.line matches Option::Some(n) ==> num_entry_is(
            es@[1 + a],
            "line"@,
            dec_chars(n as nat),
        ))
        &&& (f.column matches Option::Some(n) ==> num_entry_is(
            es@[1 + a + b],
            "column"@,
            dec_chars(n as nat),
        ))
        &&& entry_is(es@[1 + a + b + c], "in_app"@, JsonVal::Bool(f.in_app))
        &&& entry_is(es@[2 + a + b + c], "resolved"@, JsonVal::Bool(f.resolved))
    }
}

/// The encoded stack trace: its lower-case tag, then its frames.
pub open spec fn encodes_stacktrace(st: Stacktrace, v: JsonVal) -> bool {
    v matches JsonVal::Obj(es) && es@.len() == 2 && es@[0].0@ == "type"@ && es@[1].0@
        == "frames"@ && match st {
        Stacktrace::Raw { frames } => {
            &&& es@[0].1 matches JsonVal::Str(t) && t@ == "raw"@
            &&& es@[1].1 matches JsonVal::Arr(elems) && elems@.len() == frames@.len() && forall|
                i: int,
            |
                0 <= i < frames@.len() ==> encodes_raw_frame(frames@[i], #[trigger] elems@[i])
        },
        Stacktrace::Resolved { frames } => {
            &&& es@[0].1 matches JsonVal::Str(t) && t@ == "resolved"@
            &&& es@[1].1 matches JsonVal::Arr(elems) && elems@.len() == frames@.len() && forall|
                i: int,
            |
                0 <= i < frames@.len() ==> encodes_frame(frames@[i], #[trigger] elems@[i])
        },
    }
}

/// The encoded exception object: type, value and mechanism always (the
/// mechanism as `null` when unset), then each optional field exactly
/// when set.
pub open spec fn encodes_exception(e: Exception, v: JsonVal) -> bool {
    v matches JsonVal::Obj(es) && {
        let a = opt_len(e.module);
        let b = opt_len(e.thread_id);
        &&& es@.len() == 3 + a + b + opt_len(e.stack)
        &&& entry_is(es@[0], "type"@, JsonVal::Str(e.exception_type))
        &&& entry_is(es@[1], "value"@, JsonVal::Str(e.exception_message))
        &&& es@[2].0@ == "mechanism"@
        &&& (match e.mechanism {
            Option::None => es@[2].1 == JsonVal::Null,
            Option::Some(m) => encodes_mechanism(m, es@[2].1),
        })
        &&& (e.module matches Option::Some(s) ==> entry_is(es@[3], "module"@, JsonVal::Str(s)))
        &&& (e.thread_id matches Option::Some(n) ==> num_entry_is(
            es@[3 + a],
            "thread_id"@,
            i32_chars(n as int),
        ))
        &&& (e.stack matches Option::Some(st) ==> es@[3 + a + b].0@ == "stacktrace"@
            && encodes_stacktrace(st, es@[3 + a + b].1))
    }
}

/// The encoded `$exception_list` value: `null` when unset.
pub open spec fn encodes_list_field(l: Option<Vec<Exception>>, v: JsonVal) -> bool {
    match l {
        Option::None => v == JsonVal::Null,
        Option::Some(xs) => v matches JsonVal::Arr(elems) && elems@.len() == xs@.len()
            && forall|i: int|
            0 <= i < xs@.len() ==> encodes_exception(xs@[i], #[trigger] elems@[i]),
    }
}

/// The encoded property document: the modeled entries first, in a
/// fixed order, then every entry of `other`, verbatim and in order.
pub open spec fn encodes_props(p: ErrProps, v: JsonVal) -> bool {
    v matches JsonVal::Obj(es) && {
        let a = opt_len(p.exception_type);
        let b = opt_len(p.exception_message);
        let c = opt_len(p.exception_stack_trace_raw);
        let m = 2 + a + b + c;
        &&& es@.len() == m + p.other@.len()
        &&& es@[0].0@ == "$exception_list"@ && encodes_list_field(p.exception_list, es@[0].1)
        &&& (p.exception_type matches Option::Some(s) ==> entry_is(
            es@[1],
            "$exception_type"@,
            JsonVal::Str(s),
        ))
        &&& (p.exception_message matches Option::Some(s) ==> entry_is(
            es@[1 + a],
            "$exception_message"@,
            JsonVal::Str(s),
        ))
        &&& (p.exception_stack_trace_raw matches Option::Some(s) ==> entry_is(
            es@[1 + a + b],
            "$exception_stack_trace_raw"@,
            JsonVal::Str(s),
        ))
        &&& es@[1 + a + b + c].0@ == "$exception_level"@
        &&& (match p.exception_level {
            Option::None => es@[1 + a + b + c].1 == JsonVal::Null,
            Option::Some(s) => es@[1 + a + b + c].1 == JsonVal::Str(s),
        })
        &&& es@.skip(m) == p.other@
        &&& forall|i: int| 0 <= i < m ==> modeled_key(#[trigger] es@[i].0@)
    }
}

/// An owned copy of a key literal.
fn key(lit: &str) -> (k: String)
    ensures
        k@ == lit@,
{
    lit.to_owned()
}

/// Prints a signed 32-bit value in decimal, as `i32_chars` describes.
fn dec_i32(n: i32) -> (s: String)
    ensures
        s@ == i32_chars(n as int),
{
    if n < 0 {
        let mag: u32 = (-(n as i64)) as u32;
        let mut s = "-".to_owned();
        let t = dec_u32(mag);
        s.append(t.as_str());
        proof {
            reveal_strlit("-");
            assert("-"@ =~= seq!['-']);
            assert(s@ =~= i32_chars(n as int));
        }
        s
    } else {
        dec_u32(n as u32)
    }
}

/// Encodes a mechanism, as `encodes_mechanism` describes.
pub fn encode_mechanism(m: &Mechanism) -> (v: JsonVal)
    ensures
        encodes_mechanism(*m, v),
{
    let mut es: Vec<(String, JsonVal)> = Vec::new();
    match &m.handled {
        Option::Some(b) => es.push((key("handled"), JsonVal::Bool(*b))),
        Option::None => (),
    }
    match &m.mechanism_type {
        Option::Some(s) => es.push((key("type"), JsonVal::Str(s.clone()))),
        Option::None => (),
    }
    match &m.source {
        Option::Some(s) => es.push((key("source"), JsonVal::Str(s.clone()))),
        Option::None => (),
    }
    match &m.synthetic {
        Option::Some(b) => es.push((key("synthetic"), JsonVal::Bool(*b))),
        Option::None => (),
    }
    JsonVal::Obj(es)
}

/// Encodes one raw frame, as `encodes_raw_frame` describes.
pub fn encode_raw_frame(f: &RawFrame) -> (v: JsonVal)
    ensures
        encodes_raw_frame(*f, v),
{
    let RawFrame::JavaScript(j) = f;
    let mut es: Vec<(String, JsonVal)> = Vec::new();
    es.push((key("fn_name"), JsonVal::Str(j.fn_name.clone())));
    match &j.source_url {
        Option::Some(u) => es.push((key("source_url"), JsonVal::Str(u.clone()))),
        Option::None => (),
    }
    es.push((key("in_app"), JsonVal::Bool(j.in_app)));
    es.push((key("line"), JsonVal::Num(dec_u32(j.line))));
    es.push((key("column"), JsonVal::Num(dec_u32(j.column))));
    JsonVal::Obj(es)
}

/// Encodes one resolved frame, as `encodes_frame` describes.
pub fn encode_frame(f: &Frame) -> (v: JsonVal)
    ensures
        encodes_frame(*f, v),
{
    let mut es: Vec<(String, JsonVal)> = Vec::new();
    es.push((key("mangled_name"), JsonVal::Str(f.mangled_name.clone())));
    match &f.source {
        Option::Some(s) => es.push((key("source"), JsonVal::Str(s.clone()))),
        Option::None => (),
    }
    match f.line {
        Option::Some(n) => es.push((key("line"), JsonVal::Num(dec_u32(n)))),
        Option::None => (),
    }
    match f.column {
        Option::Some(n) => es.push((key("column"), JsonVal::Num(dec_u32(n)))),
        Option::None => (),
    }
    es.push((key("in_app"), JsonVal::Bool(f.in_app)));
    es.push((key("resolved"), JsonVal::Bool(f.resolved)));
    JsonVal::Obj(es)
}

/// Encodes a stack trace, as `encodes_stacktrace` describes.
pub fn encode_stacktrace(st: &Stacktrace) -> (v: JsonVal)
    ensures
        encodes_stacktrace(*st, v),
{
    let mut es: Vec<(String, JsonVal)> = Vec::new();
    match st {
        Stacktrace::Raw { frames } => {
            es.push((key("type"), JsonVal::Str(key("raw"))));
            let mut elems: Vec<JsonVal> = Vec::new();
            let mut i: usize = 0;
            while i < frames.len()
                invariant
                    0 <= i <= frames@.len(),
                    elems@.len() == i,
                    forall|j: int|
                        0 <= j < i ==> encodes_raw_frame(frames@[j], #[trigger] elems@[j]),
                decreases frames@.len() - i,
            {
                elems.push(encode_raw_frame(&frames[i]));
                i = i + 1;
            }
            es.push((key("frames"), JsonVal::Arr(elems)));
        },
        Stacktrace::Resolved { frames } => {
            es.push((key("type"), JsonVal::Str(key("resolved"))));
            let mut elems: Vec<JsonVal> = Vec::new();
            let mut i: usize = 0;
            while i < frames.len()
                invariant
                    0 <= i <= frames@.len(),
                    elems@.len() == i,
                    forall|j: int| 0 <= j < i ==> encodes_frame(frames@[j], #[trigger] elems@[j]),
                decreases frames@.len() - i,
            {
                elems.push(encode_frame(&frames[i]));
                i = i + 1;
            }
            es.push((key("frames"), JsonVal::Arr(elems)));
        },
    }
    JsonVal::Obj(es)
}

/// Encodes one exception, as `encodes_exception` describes.
pub fn encode_exception(e: &Exception) -> (v: JsonVal)
    ensures
        encodes_exception(*e, v),
{
    let mut es: Vec<(String, JsonVal)> = Vec::new();
    es.push((key("type"), JsonVal::Str(e.exception_type.clone())));
    es.push((key("value"), JsonVal::Str(e.exception_message.clone())));
    match &e.mechanism {
        Option::Some(m) => es.push((key("mechanism"), encode_mechanism(m))),
        Option::None => es.push((key("mechanism"), JsonVal::Null)),
    }
    match &e.module {
        Option::Some(s) => es.push((key("module"), JsonVal::Str(s.clone()))),
        Option::None => (),
    }
    match e.thread_id {
        Option::Some(n) => es.push((key("thread_id"), JsonVal::Num(dec_i32(n)))),
        Option::None => (),
    }
    match &e.stack {
        Option::Some(st) => es.push((key("stacktrace"), encode_stacktrace(st))),
        Option::None => (),
    }
    JsonVal::Obj(es)
}

/// Encodes a whole property value, as `encodes_props` describes: the
/// modeled fields first, then every unmodeled entry, untouched.
pub fn encode_props(p: ErrProps) -> (v: JsonVal)
    ensures
        encodes_props(p, v),
{
    let mut es: Vec<(String, JsonVal)> = Vec::new();
    match &p.exception_list {
        Option::Some(xs) => {
            let mut elems: Vec<JsonVal> = Vec::new();
            let mut i: usize = 0;
            while i < xs.len()
                invariant
                    0 <= i <= xs@.len(),
                    elems@.len() == i,
                    forall|j: int|
                        0 <= j < i ==> encodes_exception(xs@[j], #[trigger] elems@[j]),
                decreases xs@.len() - i,
            {
                elems.push(encode_exception(&xs[i]));
                i = i + 1;
            }
            es.push((key("$exception_list"), JsonVal::Arr(elems)));
        },
        Option::None => es.push((key("$exception_list"), JsonVal::Null)),
    }
    match &p.exception_type {
        Option::Some(s) => es.push((key("$exception_type"), JsonVal::Str(s.clone()))),
        Option::None => (),
    }
    match &p.exception_message {
        Option::Some(s) => es.push((key("$exception_message"), JsonVal::Str(s.clone()))),
        Option::None => (),
    }
    match &p.exception_stack_trace_raw {
        Option::Some(s) => es.push((key("$exception_stack_trace_raw"), JsonVal::Str(s.clone()))),
        Option::None => (),
    }
    match &p.exception_level {
        Option::Some(s) => es.push((key("$exception_level"), JsonVal::Str(s.clone()))),
        Option::None => es.push((key("$exception_level"), JsonVal::Null)),
    }
    let ghost base = es@;
    let ghost oth0 = p.other@;
    let mut other = p.other;
    let ghost mut j: int = 0;
    proof {
        assert(oth0.take(0) =~= Seq::<(String, JsonVal)>::empty());
        assert(es@ =~= base + oth0.take(0));
        assert(other@ =~= oth0.skip(0));
    }
    while other.len() > 0
        invariant
            0 <= j <= oth0.len(),
            es@ == base + oth0.take(j),
            other@ == oth0.skip(j),
        decreases other@.len(),
    {
        let entry = other.remove(0);
        proof {
            assert(oth0.skip(j)[0] == oth0[j]);
            assert(oth0.skip(j).remove(0) =~= oth0.skip(j + 1));
        }
        es.push(entry);
        proof {
            assert(oth0.take(j + 1) =~= oth0.take(j).push(oth0[j]));
            assert((base + oth0.take(j)).push(oth0[j]) =~= base + oth0.take(j + 1));
            j = j + 1;
        }
    }
    proof {
        assert(oth0.skip(j) =~= other@);
        assert(j == oth0.len());
        assert(oth0.take(j) =~= oth0);
        assert(es@.skip(base.len() as int) =~= oth0);
    }
    JsonVal::Obj(es)
}

/// The entries of a JSON object, or nothing for any other document.
pub open spec fn obj_entries(v: JsonVal) -> Seq<(String, JsonVal)> {
    match v {
        JsonVal::Obj(es) => es@,
        _ => Seq::empty(),
    }
}

/// A lookup passes over any leading entries whose keys differ from the
/// one sought.
proof fn lemma_lookup_skip_unmatching(out: Seq<(String, JsonVal)>, m: int, k: Seq<char>)
    requires
        0 <= m <= out.len(),
        forall|i: int| 0 <= i < m ==> (#[trigger] out[i].0@) != k,
    ensures
        lookup(out, k) == lookup(out.skip(m), k),
    decreases m,
{
    if m > 0 {
        assert(out[0].0@ != k);
        assert(forall|i: int| 0 <= i < m - 1 ==> (#[trigger] out.drop_first()[i].0@) != k);
        lemma_lookup_skip_unmatching(out.drop_first(), m - 1, k);
        assert(out.drop_first().skip(m - 1) =~= out.skip(m));
    } else {
        assert(out.skip(0) =~= out);
    }
}

/// Filtering out the modeled entries leaves every unmodeled lookup
/// unchanged.
proof fn lemma_lookup_unmodeled(es: Seq<(String, JsonVal)>, k: Seq<char>)
    requires
        !modeled_key(k),
    ensures
        lookup(unmodeled_entries(es), k) == lookup(es, k),
    decreases es.len(),
{
    if es.len() > 0 {
        lemma_lookup_unmodeled(es.drop_first(), k);
        if modeled_key(es[0].0@) {
            assert(es[0].0@ != k);
        } else {
            let u = unmodeled_entries(es.drop_first());
            assert(unmodeled_entries(es) == seq![es[0]] + u);
            assert((seq![es[0]] + u)[0] == es[0]);
            if es[0].0@ != k {
                assert((seq![es[0]] + u).drop_first() =~= u);
            }
        }
    } else {
        assert(unmodeled_entries(es) =~= es);
    }
}

/// Round trip: decoding a property document and re-encoding the result
/// preserves every key this library does not model — looking such a
/// key up in the re-encoded document finds exactly what the original
/// document held under it.
pub proof fn lemma_round_trip_preserves_unmodeled(
    v: JsonVal,
    p: ErrProps,
    w: JsonVal,
    k: Seq<char>,
)
    requires
        props_ok(v, p),
        encodes_props(p, w),
        !modeled_key(k),
    ensures
        lookup(obj_entries(w), k) == lookup(obj_entries(v), k),
{
    match v {
        JsonVal::Obj(es) => {
            match w {
                JsonVal::Obj(out) => {
                    let a = opt_len(p.exception_type);
                    let b = opt_len(p.exception_message);
                    let c = opt_len(p.exception_stack_trace_raw);
                    let m = 2 + a + b + c;
                    assert(forall|i: int| 0 <= i < m ==> (#[trigger] out@[i].0@) != k) by {
                        assert(forall|i: int| 0 <= i < m ==> modeled_key(#[trigger] out@[i].0@));
                    }
                    lemma_lookup_skip_unmatching(out@, m, k);
                    assert(out@.skip(m) == p.other@);
                    lemma_lookup_unmodeled(es@, k);
                    assert(p.other@ == unmodeled_entries(es@));
                },
                _ => {
                    assert(false);
                },
            }
        },
        _ => {
            assert(false);
        },
    }
}

} // verus!
