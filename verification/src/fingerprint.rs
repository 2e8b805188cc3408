//! The fingerprint engine: folds an event's ordered exception list into
//! one SHA-512 digest, used downstream as the grouping key that decides
//! whether two error occurrences are the same issue.
//!
//! Per exception, the type and message always contribute. A missing or
//! still-raw stack contributes nothing further. For a resolved stack:
//! when no frame is in-app, only the first frame contributes (a
//! deliberately simple fallback, kept exactly as it is for
//! compatibility with stored fingerprints); otherwise the in-app frames
//! contribute in order, restricted to the resolved ones as soon as any
//! frame at all is resolved.

use vstd::prelude::*;
use crate::model::{Exception, Frame, Stacktrace};
use crate::num::dec_chars;
use crate::num::dec_u32;
use crate::hash::{HashCtx, absorbed, sha512_of};

verus! {

/// The text an optional string field adds to a frame's contribution.
pub open spec fn opt_str_chars(s: Option<String>) -> Seq<char> {
    match s {
        Option::Some(v) => v@,
        Option::None => Seq::empty(),
    }
}

/// The text an optional number field adds to a frame's contribution.
pub open spec fn opt_num_chars(n: Option<u32>) -> Seq<char> {
    match n {
        Option::Some(v) => dec_chars(v as nat),
        Option::None => Seq::empty(),
    }
}

/// One resolved frame's canonical contribution: its symbol, source and
/// position, concatenated in a fixed order.
pub open spec fn frame_chars(f: Frame) -> Seq<char> {
    f.mangled_name@ + opt_str_chars(f.source) + opt_num_chars(f.line) + opt_num_chars(f.column)
}

/// Whether some frame of the list resolved successfully.
pub open spec fn any_resolved(fs: Seq<Frame>) -> bool {
    exists|i: int| 0 <= i < fs.len() && fs[i].resolved
}

/// Whether some frame of the list is in-app.
pub open spec fn any_in_app(fs: Seq<Frame>) -> bool {
    exists|i: int| 0 <= i < fs.len() && fs[i].in_app
}

/// A frame contributes among in-app frames iff it is in-app and, as
/// soon as any frame of its list is resolved, itself resolved.
pub open spec fn frame_selected(f: Frame, anyres: bool) -> bool {
    f.in_app && (!anyres || f.resolved)
}

/// The contribution of the selected frames, in list order.
pub open spec fn selected_chars(fs: Seq<Frame>, anyres: bool) -> Seq<char>
    decreases fs.len(),
{
    if fs.len() == 0 {
        Seq::empty()
    } else {
        (if frame_selected(fs[0], anyres) {
            frame_chars(fs[0])
        } else {
            Seq::empty()
        }) + selected_chars(fs.drop_first(), anyres)
    }
}

/// What a resolved stack's frame list contributes: only its first frame
/// when no frame is in-app, else the selected in-app frames in order.
pub open spec fn resolved_stack_chars(fs: Seq<Frame>) -> Seq<char> {
    if !any_in_app(fs) {
        if fs.len() == 0 {
            Seq::empty()
        } else {
            frame_chars(fs[0])
        }
    } else {
        selected_chars(fs, any_resolved(fs))
    }
}

/// What an optional stack contributes: nothing until it is resolved.
pub open spec fn stack_chars(st: Option<Stacktrace>) -> Seq<char> {
    match st {
        Option::Some(Stacktrace::Resolved { frames }) => resolved_stack_chars(frames@),
        Option::Some(Stacktrace::Raw { .. }) => Seq::empty(),
        Option::None => Seq::empty(),
    }
}

/// One exception's whole contribution: type, then message, then stack.
pub open spec fn exception_chars(e: Exception) -> Seq<char> {
    e.exception_type@ + e.exception_message@ + stack_chars(e.stack)
}

/// The whole event's contribution: each exception's, in list order.
pub open spec fn event_chars(list: Seq<Exception>) -> Seq<char>
    decreases list.len(),
{
    if list.len() == 0 {
        Seq::empty()
    } else {
        exception_chars(list[0]) + event_chars(list.drop_first())
    }
}

impl Frame {
    /// Builds this frame's canonical contribution text.
    pub fn contribution(&self) -> (s: String)
        ensures
            s@ == frame_chars(*self),
    {
        let mut s = self.mangled_name.clone();
        match &self.source {
            Option::Some(src) => s.append(src.as_str()),
            Option::None => (),
        }
        match self.line {
            Option::Some(n) => {
                let t = dec_u32(n);
                s.append(t.as_str());
            },
            Option::None => (),
        }
        match self.column {
            Option::Some(n) => {
                let t = dec_u32(n);
                s.append(t.as_str());
            },
            Option::None => (),
        }
        proof {
            assert(s@ =~= frame_chars(*self));
        }
        s
    }
}

/// Reports whether some frame of the list resolved successfully.
fn compute_any_resolved(frames: &Vec<Frame>) -> (r: bool)
    ensures
        r == any_resolved(frames@),
{
    let mut i: usize = 0;
    while i < frames.len()
        invariant
            0 <= i <= frames@.len(),
            forall|j: int| 0 <= j < i ==> !frames@[j].resolved,
        decreases frames@.len() - i,
    {
        if frames[i].resolved {
            return true;
        }
        i = i + 1;
    }
    false
}

/// Reports whether some frame of the list is in-app.
fn compute_any_in_app(frames: &Vec<Frame>) -> (r: bool)
    ensures
        r == any_in_app(frames@),
{
    let mut i: usize = 0;
    while i < frames.len()
        invariant
            0 <= i <= frames@.len(),
            forall|j: int| 0 <= j < i ==> !frames@[j].in_app,
        decreases frames@.len() - i,
    {
        if frames[i].in_app {
            return true;
        }
        i = i + 1;
    }
    false
}

/// Feeds the selected frames from position `i` on into the context.
fn include_selected(frames: &Vec<Frame>, i: usize, anyres: bool, h: &mut HashCtx)
    requires
        i <= frames@.len(),
    ensures
        absorbed(*final(h)) == absorbed(*old(h)) + selected_chars(frames@.skip(i as int), anyres),
    decreases frames@.len() - i,
{
    if i == frames.len() {
        proof {
            assert(frames@.skip(i as int) =~= Seq::<Frame>::empty());
            assert(absorbed(*h) =~= absorbed(*h) + Seq::<char>::empty());
        }
        return;
    }
    proof {
        assert(frames@.skip(i as int)[0] == frames@[i as int]);
        assert(frames@.skip(i as int).drop_first() =~= frames@.skip(i + 1));
    }
    if frames[i].in_app && (!anyres || frames[i].resolved) {
        let piece = frames[i].contribution();
        h.update(piece.as_str());
    }
    include_selected(frames, i + 1, anyres, h);
    proof {
        assert(absorbed(*h) =~= absorbed(*old(h)) + selected_chars(frames@.skip(i as int), anyres));
    }
}

impl Exception {
    /// Feeds this exception's contribution into a shared hash context:
    /// always the type and message; then, only for a resolved stack,
    /// the frame selection described at the top of this module.
    pub fn include_in_fingerprint(&self, h: &mut HashCtx)
        ensures
            absorbed(*final(h)) == absorbed(*old(h)) + exception_chars(*self),
    {
        h.update(self.exception_type.as_str());
        h.update(self.exception_message.as_str());
        match &self.stack {
            Option::Some(Stacktrace::Resolved { frames }) => {
                let has_in_app = compute_any_in_app(frames);
                if !has_in_app {
                    if frames.len() > 0 {
                        let piece = frames[0].contribution();
                        h.update(piece.as_str());
                    }
                } else {
                    let anyres = compute_any_resolved(frames);
                    include_selected(frames, 0, anyres, h);
                    proof {
                        assert(frames@.skip(0) =~= frames@);
                    }
                }
            },
            Option::Some(Stacktrace::Raw { .. }) => (),
            Option::None => (),
        }
        proof {
            assert(absorbed(*h) =~= absorbed(*old(h)) + exception_chars(*self));
        }
    }
}

/// Feeds the exceptions from position `i` on into the context.
fn include_exceptions(list: &Vec<Exception>, i: usize, h: &mut HashCtx)
    requires
        i <= list@.len(),
    ensures
        absorbed(*final(h)) == absorbed(*old(h)) + event_chars(list@.skip(i as int)),
    decreases list@.len() - i,
{
    if i == list.len() {
        proof {
            assert(list@.skip(i as int) =~= Seq::<Exception>::empty());
            assert(absorbed(*h) =~= absorbed(*h) + Seq::<char>::empty());
        }
        return;
    }
    proof {
        assert(list@.skip(i as int)[0] == list@[i as int]);
        assert(list@.skip(i as int).drop_first() =~= list@.skip(i + 1));
    }
    list[i].include_in_fingerprint(h);
    include_exceptions(list, i + 1, h);
    proof {
        assert(absorbed(*h) =~= absorbed(*old(h)) + event_chars(list@.skip(i as int)));
    }
}

/// Computes the event's fingerprint: one digest over the whole ordered
/// exception list, from a hash context owned by this one computation.
/// Never fails; the empty list yields the digest of the empty text.
pub fn fingerprint(list: &Vec<Exception>) -> (d: Vec<u8>)
    ensures
        d@ == sha512_of(event_chars(list@)),
        d@.len() == 64,
{
    let mut h = HashCtx::new();
    include_exceptions(list, 0, &mut h);
    proof {
        assert(list@.skip(0) =~= list@);
        assert(Seq::<char>::empty() + event_chars(list@) =~= event_chars(list@));
    }
    h.finish()
}

} // verus!
