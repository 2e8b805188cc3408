//! The grouping guarantees the fingerprint engine gives, stated and
//! proved over the contribution model that `fingerprint`'s own contract
//! speaks of: what reaches the digest, and what provably cannot.

use vstd::prelude::*;
use crate::model::{Exception, Frame, Stacktrace};
use crate::fingerprint::{
    frame_chars, frame_selected, any_resolved, any_in_app, selected_chars,
    resolved_stack_chars, stack_chars, exception_chars, event_chars,
};
use crate::hash::sha512_of;

verus! {

/// Equal contributions, exception by exception, give one and the same
/// digest for the whole event.
pub proof fn lemma_digest_of_equal_contributions(la: Seq<Exception>, lb: Seq<Exception>)
    requires
        la.len() == lb.len(),
        forall|i: int|
            0 <= i < la.len() ==> exception_chars(#[trigger] la[i]) == exception_chars(lb[i]),
    ensures
        event_chars(la) == event_chars(lb),
        sha512_of(event_chars(la)) == sha512_of(event_chars(lb)),
    decreases la.len(),
{
    if la.len() != 0 {
        assert(forall|i: int|
            0 <= i < la.drop_first().len() ==> exception_chars(
                #[trigger] la.drop_first()[i],
            ) == exception_chars(lb.drop_first()[i]));
        lemma_digest_of_equal_contributions(la.drop_first(), lb.drop_first());
    }
}

/// Determinism: the fingerprint is a function of the exception list
/// alone, so computing it twice on equal input yields equal digests.
pub proof fn lemma_fingerprint_deterministic(la: Seq<Exception>, lb: Seq<Exception>)
    requires
        la == lb,
    ensures
        sha512_of(event_chars(la)) == sha512_of(event_chars(lb)),
{
}

/// Message sensitivity: with the type and the stack held fixed, two
/// different messages give two different contributions to the digest.
pub proof fn lemma_message_sensitivity(a: Exception, b: Exception)
    requires
        a.exception_type == b.exception_type,
        a.stack == b.stack,
        a.exception_message@ != b.exception_message@,
    ensures
        exception_chars(a) != exception_chars(b),
{
    let t = a.exception_type@;
    let ma = a.exception_message@;
    let mb = b.exception_message@;
    let s = stack_chars(a.stack);
    if ma.len() != mb.len() {
        assert(exception_chars(a).len() != exception_chars(b).len());
    } else {
        assert(exists|j: int| 0 <= j < ma.len() && ma[j] != mb[j]) by {
            if forall|j: int| 0 <= j < ma.len() ==> ma[j] == #[trigger] mb[j] {
                assert(ma =~= mb);
            }
        }
        let j = choose|j: int| 0 <= j < ma.len() && ma[j] != mb[j];
        assert(exception_chars(a)[t.len() + j] == ma[j]);
        assert(exception_chars(b)[t.len() + j] == mb[j]);
    }
}

/// Raw stacks contribute nothing: identical type and message with any
/// two still-raw stacks (or none at all) give identical contributions,
/// and so identical digests.
pub proof fn lemma_raw_stack_ignored(a: Exception, b: Exception)
    requires
        a.exception_type == b.exception_type,
        a.exception_message == b.exception_message,
        !(a.stack matches Option::Some(Stacktrace::Resolved { .. })),
        !(b.stack matches Option::Some(Stacktrace::Resolved { .. })),
    ensures
        exception_chars(a) == exception_chars(b),
        sha512_of(event_chars(seq![a])) == sha512_of(event_chars(seq![b])),
{
    assert(stack_chars(a.stack) =~= stack_chars(b.stack));
    assert(seq![a].drop_first() =~= Seq::<Exception>::empty());
    assert(seq![b].drop_first() =~= Seq::<Exception>::empty());
    assert(event_chars(seq![a]) =~= event_chars(seq![b]));
}

/// The no-in-app fallback: when no frame of a resolved stack is
/// in-app, only the first frame reaches the digest — every frame after
/// it may change freely without changing the contribution.
pub proof fn lemma_no_in_app_first_frame_only(fs1: Seq<Frame>, fs2: Seq<Frame>)
    requires
        !any_in_app(fs1),
        !any_in_app(fs2),
        fs1.len() > 0,
        fs2.len() > 0,
        fs1[0] == fs2[0],
    ensures
        resolved_stack_chars(fs1) == resolved_stack_chars(fs2),
{
}

/// Selection sees only the selected frames: with the in-app and
/// resolved flags pointwise equal, the contribution of the selection
/// depends on the selected frames alone.
pub proof fn lemma_selected_pointwise(fs1: Seq<Frame>, fs2: Seq<Frame>, anyres: bool)
    requires
        fs1.len() == fs2.len(),
        forall|i: int|
            0 <= i < fs1.len() ==> (#[trigger] fs1[i]).in_app == fs2[i].in_app
                && fs1[i].resolved == fs2[i].resolved,
        forall|i: int|
            0 <= i < fs1.len() ==> (frame_selected(#[trigger] fs1[i], anyres) ==> fs1[i]
                == fs2[i]),
    ensures
        selected_chars(fs1, anyres) == selected_chars(fs2, anyres),
    decreases fs1.len(),
{
    if fs1.len() != 0 {
        assert(forall|i: int|
            0 <= i < fs1.drop_first().len() ==> (#[trigger] fs1.drop_first()[i]) == fs1[i + 1]
                && fs2.drop_first()[i] == fs2[i + 1]);
        lemma_selected_pointwise(fs1.drop_first(), fs2.drop_first(), anyres);
    }
}

/// The prefer-resolved rule: as soon as one frame is resolved and one
/// is in-app, only the frames that are both in-app and resolved reach
/// the digest — every other frame may change freely, flags kept, and
/// the contribution stays the same.
pub proof fn lemma_prefer_resolved(fs1: Seq<Frame>, fs2: Seq<Frame>)
    requires
        fs1.len() == fs2.len(),
        any_in_app(fs1),
        any_resolved(fs1),
        forall|i: int|
            0 <= i < fs1.len() ==> (#[trigger] fs1[i]).in_app == fs2[i].in_app
                && fs1[i].resolved == fs2[i].resolved,
        forall|i: int|
            0 <= i < fs1.len() ==> ((fs1[i].in_app && (#[trigger] fs1[i]).resolved) ==> fs1[i]
                == fs2[i]),
    ensures
        resolved_stack_chars(fs1) == resolved_stack_chars(fs2),
{
    let wi = choose|i: int| 0 <= i < fs1.len() && fs1[i].in_app;
    assert(fs2[wi].in_app);
    let wr = choose|i: int| 0 <= i < fs1.len() && fs1[i].resolved;
    assert(fs2[wr].resolved);
    assert(any_in_app(fs2));
    assert(any_resolved(fs2));
    lemma_selected_pointwise(fs1, fs2, true);
}

/// The no-resolved fallback: when no frame resolved but some are
/// in-app, every in-app frame contributes, in order; with two in-app
/// unresolved frames, both stand in the contribution.
pub proof fn lemma_no_resolved_uses_all_in_app(f0: Frame, f1: Frame)
    requires
        f0.in_app,
        f1.in_app,
        !f0.resolved,
        !f1.resolved,
    ensures
        resolved_stack_chars(seq![f0, f1]) == frame_chars(f0) + frame_chars(f1),
{
    let fs = seq![f0, f1];
    assert(fs[0] == f0 && fs[1] == f1);
    assert(any_in_app(fs));
    assert(!any_resolved(fs));
    assert(fs.drop_first() =~= seq![f1]);
    assert(seq![f1].drop_first() =~= Seq::<Frame>::empty());
    assert(selected_chars(Seq::<Frame>::empty(), false) =~= Seq::<char>::empty());
    assert(seq![f1][0] == f1);
    assert(selected_chars(seq![f1], false) =~= frame_chars(f1));
    assert(selected_chars(fs, false) =~= frame_chars(f0) + frame_chars(f1));
}

} // verus!
