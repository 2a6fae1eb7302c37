//! A domain-separated absorb/squeeze transcript, backed by merlin.
//!
//! The verified code never looks inside the cryptographic state. Instead,
//! every transcript carries a ghost trace of what was absorbed: the domain
//! label it was initialized under and the ordered sequence of labeled
//! messages it has committed. The bytes a challenge yields are named by the
//! uninterpreted function [`merlin_challenge`], a pure function of that
//! trace: merlin is deterministic, so equal traces give equal challenges.

use vstd::prelude::*;

verus! {

/// Declares merlin's `Transcript` as an opaque outside type, so that a value
/// of it can be held in a field. Nothing is known of its inside.
#[verifier::external_type_specification]
#[verifier::external_body]
pub struct ExMerlinTranscript(merlin::Transcript);

/// The challenge bytes that a merlin transcript yields, as a function of the
/// domain label it was initialized under, the ordered `(label, message)`
/// pairs it absorbed, and the challenge label. The function is a name only:
/// merlin's STROBE construction determines the value, and it depends on
/// nothing but these three arguments.
pub uninterp spec fn merlin_challenge(
    domain: Seq<u8>,
    absorbed: Seq<(Seq<u8>, Seq<u8>)>,
    label: Seq<u8>,
) -> Seq<u8>;

/// The little-endian encoding of a `u64`, eight bytes long: the form in
/// which merlin's `append_u64` absorbs an integer.
pub open spec fn u64_le_bytes(x: u64) -> Seq<u8> {
    seq![
        (x & 0xff) as u8,
        ((x >> 8) & 0xff) as u8,
        ((x >> 16) & 0xff) as u8,
        ((x >> 24) & 0xff) as u8,
        ((x >> 32) & 0xff) as u8,
        ((x >> 40) & 0xff) as u8,
        ((x >> 48) & 0xff) as u8,
        ((x >> 56) & 0xff) as u8,
    ]
}

/// Two integers with the same little-endian encoding are the same integer.
pub proof fn lemma_u64_le_bytes_injective(a: u64, b: u64)
    requires
        u64_le_bytes(a) == u64_le_bytes(b),
    ensures
        a == b,
{
    assert(u64_le_bytes(a)[0] == u64_le_bytes(b)[0]);
    assert(u64_le_bytes(a)[1] == u64_le_bytes(b)[1]);
    assert(u64_le_bytes(a)[2] == u64_le_bytes(b)[2]);
    assert(u64_le_bytes(a)[3] == u64_le_bytes(b)[3]);
    assert(u64_le_bytes(a)[4] == u64_le_bytes(b)[4]);
    assert(u64_le_bytes(a)[5] == u64_le_bytes(b)[5]);
    assert(u64_le_bytes(a)[6] == u64_le_bytes(b)[6]);
    assert(u64_le_bytes(a)[7] == u64_le_bytes(b)[7]);
    assert(a == b) by (bit_vector)
        requires
            (a & 0xff) as u8 == (b & 0xff) as u8,
            ((a >> 8) & 0xff) as u8 == ((b >> 8) & 0xff) as u8,
            ((a >> 16) & 0xff) as u8 == ((b >> 16) & 0xff) as u8,
            ((a >> 24) & 0xff) as u8 == ((b >> 24) & 0xff) as u8,
            ((a >> 32) & 0xff) as u8 == ((b >> 32) & 0xff) as u8,
            ((a >> 40) & 0xff) as u8 == ((b >> 40) & 0xff) as u8,
            ((a >> 48) & 0xff) as u8 == ((b >> 48) & 0xff) as u8,
            ((a >> 56) & 0xff) as u8 == ((b >> 56) & 0xff) as u8,
    ;
}

/// A transcript together with the ghost trace of everything it absorbed.
pub struct HashTranscript {
    inner: merlin::Transcript,
    domain: Ghost<Seq<u8>>,
    absorbed: Ghost<Seq<(Seq<u8>, Seq<u8>)>>,
}

/// Relies on `merlin::Transcript::new`: initializes a fresh transcript under
/// the given domain label, with nothing absorbed yet. Nothing is claimed of
/// the opaque value; the ghost trace is attached by [`HashTranscript::new`].
#[verifier::external_body]
fn merlin_new<const N: usize>(domain: &'static [u8; N]) -> merlin::Transcript {
    merlin::Transcript::new(domain)
}

impl HashTranscript {
    /// The domain label this transcript was initialized under.
    pub closed spec fn domain(self) -> Seq<u8> {
        self.domain@
    }

    /// The ordered `(label, message)` pairs absorbed so far.
    pub closed spec fn absorbed(self) -> Seq<(Seq<u8>, Seq<u8>)> {
        self.absorbed@
    }

    /// A fresh transcript under the given domain label, with nothing
    /// absorbed yet.
    pub fn new<const N: usize>(domain: &'static [u8; N]) -> (t: HashTranscript)
        ensures
            t.domain() == domain@,
            t.absorbed() == Seq::<(Seq<u8>, Seq<u8>)>::empty(),
    {
        HashTranscript {
            inner: merlin_new(domain),
            domain: Ghost(domain@),
            absorbed: Ghost(Seq::empty()),
        }
    }

    /// Relies on `merlin::Transcript::append_message`: absorbs one message
    /// under its label. Messages of at most `u32::MAX` bytes are framed
    /// losslessly; merlin refuses longer ones.
    #[verifier::external_body]
    pub fn append_message<const N: usize>(&mut self, label: &'static [u8; N], message: &[u8])
        requires
            message@.len() <= 0xffff_ffff,
        ensures
            final(self).domain() == old(self).domain(),
            final(self).absorbed() == old(self).absorbed().push((label@, message@)),
    {
        self.inner.append_message(label, message);
    }

    /// Relies on `merlin::Transcript::append_u64`: absorbs the eight-byte
    /// little-endian encoding of the integer under the label.
    #[verifier::external_body]
    pub fn append_u64<const N: usize>(&mut self, label: &'static [u8; N], x: u64)
        ensures
            final(self).domain() == old(self).domain(),
            final(self).absorbed() == old(self).absorbed().push((label@, u64_le_bytes(x))),
    {
        self.inner.append_u64(label, x);
    }

    /// Relies on `merlin::Transcript::challenge_bytes`: squeezes 32 bytes
    /// under the challenge label. The result is a pure function of the
    /// domain, the absorbed trace, and the label.
    #[verifier::external_body]
    pub fn challenge_bytes32<const N: usize>(self, label: &'static [u8; N]) -> (r: [u8; 32])
        ensures
            r@ == merlin_challenge(self.domain(), self.absorbed(), label@),
            r@.len() == 32,
    {
        let mut inner = self.inner;
        let mut buf = [0u8; 32];
        inner.challenge_bytes(label, &mut buf);
        buf
    }
}

} // verus!
