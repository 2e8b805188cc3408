//! The hash context the fingerprint engine owns for one computation:
//! a SHA-512 state, fed text pieces in order, then finished into a
//! 64-byte digest. Each computation constructs its own context and
//! consumes it at digest extraction; no state is ever shared or reused.

use vstd::prelude::*;
use sha2::Digest;

verus! {

/// A fresh, exclusively-owned SHA-512 state. The generic alias shape
/// of `sha2::Sha512` keeps the type itself from being declared to the
/// verifier, so it lives in one opaque private field instead.
#[verifier::external_body]
pub struct HashCtx {
    inner: sha2::Sha512,
}

/// The text a hash context has absorbed so far, in absorption order.
pub uninterp spec fn absorbed(h: HashCtx) -> Seq<char>;

/// The SHA-512 digest of the UTF-8 bytes of a text: 64 bytes that
/// depend on the text alone, in every process and on every machine.
pub uninterp spec fn sha512_of(text: Seq<char>) -> Seq<u8>;

impl HashCtx {
    /// Relies on `sha2::Sha512::new`: a fresh state that has absorbed
    /// nothing.
    #[verifier::external_body]
    pub fn new() -> (h: HashCtx)
        ensures
            absorbed(h) == Seq::<char>::empty(),
    {
        HashCtx { inner: sha2::Sha512::new() }
    }

    /// Relies on `sha2::digest::Update::update`: feeding bytes extends
    /// the absorbed stream, and UTF-8 encoding of concatenated text is
    /// the concatenation of the encodings.
    #[verifier::external_body]
    pub fn update(&mut self, piece: &str)
        ensures
            absorbed(*final(self)) == absorbed(*old(self)) + piece@,
    {
        sha2::digest::Update::update(&mut self.inner, piece.as_bytes());
    }

    /// Relies on `sha2::Sha512::finalize`: the digest is 64 bytes and a
    /// function of the absorbed bytes alone.
    #[verifier::external_body]
    pub fn finish(self) -> (d: Vec<u8>)
        ensures
            d@ == sha512_of(absorbed(self)),
            d@.len() == 64,
    {
        self.inner.finalize().to_vec()
    }
}

} // verus!
