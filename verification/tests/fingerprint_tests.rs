use cymbal::{Exception, Frame, RawFrame, RawJSFrame, Stacktrace};
use cymbal::fingerprint;
use sha2::{Digest, Sha512};

fn exc(t: &str, m: &str, stack: Option<Stacktrace>) -> Exception {
    Exception {
        exception_type: t.to_string(),
        exception_message: m.to_string(),
        mechanism: None,
        module: None,
        thread_id: None,
        stack,
    }
}

fn frame(name: &str, in_app: bool, resolved: bool) -> Frame {
    Frame {
        mangled_name: name.to_string(),
        source: None,
        line: None,
        column: None,
        in_app,
        resolved,
    }
}

fn raw_frame(name: &str) -> RawFrame {
    RawFrame::JavaScript(RawJSFrame {
        fn_name: name.to_string(),
        source_url: None,
        in_app: true,
        line: 1,
        column: 2,
    })
}

#[test]
fn empty_list_gives_the_digest_of_nothing() {
    let d = fingerprint(&vec![]);
    let expected = Sha512::digest(b"").to_vec();
    assert_eq!(d, expected);
}

#[test]
fn type_and_message_feed_the_digest_in_order() {
    let d = fingerprint(&vec![exc("TypeError", "boom", None)]);
    let expected = Sha512::digest(b"TypeErrorboom").to_vec();
    assert_eq!(d, expected);
}

#[test]
fn the_digest_is_deterministic() {
    let a = vec![exc("A", "a", None), exc("B", "b", None)];
    let b = vec![exc("A", "a", None), exc("B", "b", None)];
    assert_eq!(fingerprint(&a), fingerprint(&b));
}

#[test]
fn changing_the_message_changes_the_digest() {
    let frames = vec![frame("f", true, true)];
    let a = exc("TypeError", "one", Some(Stacktrace::Resolved { frames: frames.clone() }));
    let b = exc("TypeError", "two", Some(Stacktrace::Resolved { frames }));
    assert_ne!(fingerprint(&vec![a]), fingerprint(&vec![b]));
}

#[test]
fn raw_stacks_contribute_nothing() {
    let a = exc(
        "TypeError",
        "boom",
        Some(Stacktrace::Raw { frames: vec![raw_frame("first")] }),
    );
    let b = exc(
        "TypeError",
        "boom",
        Some(Stacktrace::Raw { frames: vec![raw_frame("other"), raw_frame("more")] }),
    );
    let c = exc("TypeError", "boom", None);
    assert_eq!(fingerprint(&vec![a.clone()]), fingerprint(&vec![b]));
    assert_eq!(fingerprint(&vec![a]), fingerprint(&vec![c]));
}

#[test]
fn without_in_app_frames_only_the_first_counts() {
    let a = exc(
        "E",
        "m",
        Some(Stacktrace::Resolved {
            frames: vec![frame("keep", false, true), frame("ignored", false, true)],
        }),
    );
    let b = exc(
        "E",
        "m",
        Some(Stacktrace::Resolved {
            frames: vec![frame("keep", false, true), frame("changed", false, false)],
        }),
    );
    assert_eq!(fingerprint(&vec![a]), fingerprint(&vec![b]));
}

#[test]
fn without_in_app_frames_the_first_still_counts() {
    let a = exc(
        "E",
        "m",
        Some(Stacktrace::Resolved { frames: vec![frame("one", false, false)] }),
    );
    let b = exc(
        "E",
        "m",
        Some(Stacktrace::Resolved { frames: vec![frame("two", false, false)] }),
    );
    assert_ne!(fingerprint(&vec![a]), fingerprint(&vec![b]));
}

#[test]
fn resolved_in_app_frames_are_preferred() {
    let a = exc(
        "E",
        "m",
        Some(Stacktrace::Resolved {
            frames: vec![frame("kept", true, true), frame("skipped", true, false)],
        }),
    );
    let b = exc(
        "E",
        "m",
        Some(Stacktrace::Resolved {
            frames: vec![frame("kept", true, true), frame("mutated", true, false)],
        }),
    );
    assert_eq!(fingerprint(&vec![a]), fingerprint(&vec![b]));
}

#[test]
fn unresolved_in_app_frames_all_count_when_none_resolved() {
    let a = exc(
        "E",
        "m",
        Some(Stacktrace::Resolved {
            frames: vec![frame("one", true, false), frame("two", true, false)],
        }),
    );
    let b = exc(
        "E",
        "m",
        Some(Stacktrace::Resolved {
            frames: vec![frame("one", true, false), frame("changed", true, false)],
        }),
    );
    assert_ne!(fingerprint(&vec![a]), fingerprint(&vec![b]));
    let expected = Sha512::digest(b"Emonetwo").to_vec();
    let c = exc(
        "E",
        "m",
        Some(Stacktrace::Resolved {
            frames: vec![frame("one", true, false), frame("two", true, false)],
        }),
    );
    assert_eq!(fingerprint(&vec![c]), expected);
}

#[test]
fn non_in_app_frames_never_count_beside_in_app_ones() {
    let a = exc(
        "E",
        "m",
        Some(Stacktrace::Resolved {
            frames: vec![frame("lib", false, true), frame("app", true, true)],
        }),
    );
    let b = exc(
        "E",
        "m",
        Some(Stacktrace::Resolved {
            frames: vec![frame("otherlib", false, true), frame("app", true, true)],
        }),
    );
    assert_eq!(fingerprint(&vec![a]), fingerprint(&vec![b]));
}

#[test]
fn frame_fields_feed_the_digest_canonically() {
    let f = Frame {
        mangled_name: "fn".to_string(),
        source: Some("app.js".to_string()),
        line: Some(10),
        column: Some(205),
        in_app: true,
        resolved: true,
    };
    let e = exc("E", "m", Some(Stacktrace::Resolved { frames: vec![f] }));
    let expected = Sha512::digest(b"Emfnapp.js10205").to_vec();
    assert_eq!(fingerprint(&vec![e]), expected);
}

#[test]
fn exceptions_feed_the_digest_in_list_order() {
    let ab = vec![exc("A", "a", None), exc("B", "b", None)];
    let ba = vec![exc("B", "b", None), exc("A", "a", None)];
    assert_ne!(fingerprint(&ab), fingerprint(&ba));
    let expected = Sha512::digest(b"AaBb").to_vec();
    assert_eq!(fingerprint(&ab), expected);
}

#[test]
fn the_incremental_context_matches_the_one_shot_digest() {
    let mut h = cymbal::hash::HashCtx::new();
    let a = exc("A", "a", None);
    let b = exc("B", "b", None);
    a.include_in_fingerprint(&mut h);
    b.include_in_fingerprint(&mut h);
    let d = h.finish();
    assert_eq!(d, fingerprint(&vec![a, b]));
    assert_eq!(d.len(), 64);
}
