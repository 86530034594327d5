//! Content digests: the checksum verifier.
//!
//! A digest is a fixed-size fingerprint of a byte sequence. The algorithms
//! themselves come from outside crates; their results are named by
//! uninterpreted spec functions, and everything around them (comparison,
//! hex rendering, algorithm dispatch) is verified.

use vstd::prelude::*;

verus! {

/// The digest algorithms the manifest data may declare.
#[derive(Clone, Copy, PartialEq, Eq, Structural, Debug)]
pub enum DigestAlgorithm {
    Sha1,
    Md5,
}

/// The SHA-1 digest of a byte sequence, as the `sha1` crate computes it.
pub uninterp spec fn sha1_of(bytes: Seq<u8>) -> Seq<u8>;

/// The MD5 digest of a byte sequence, as the `md-5` crate computes it.
pub uninterp spec fn md5_of(bytes: Seq<u8>) -> Seq<u8>;

/// The digest of `bytes` under `alg`.
pub open spec fn digest_of(alg: DigestAlgorithm, bytes: Seq<u8>) -> Seq<u8> {
    match alg {
        DigestAlgorithm::Sha1 => sha1_of(bytes),
        DigestAlgorithm::Md5 => md5_of(bytes),
    }
}

/// The length, in bytes, of a digest under `alg`.
pub open spec fn digest_len(alg: DigestAlgorithm) -> nat {
    match alg {
        DigestAlgorithm::Sha1 => 20,
        DigestAlgorithm::Md5 => 16,
    }
}

/// Relies on sha1::Sha1 through digest::Digest::digest: a 20-byte digest
/// that depends on the input bytes alone.
#[verifier::external_body]
fn sha1_digest(bytes: &[u8]) -> (r: Vec<u8>)
    ensures
        r@ == sha1_of(bytes@),
        r@.len() == 20,
{
    <sha1::Sha1 as sha1::Digest>::digest(bytes).to_vec()
}

/// Relies on md5::Md5 through digest::Digest::digest: a 16-byte digest
/// that depends on the input bytes alone.
#[verifier::external_body]
fn md5_digest(bytes: &[u8]) -> (r: Vec<u8>)
    ensures
        r@ == md5_of(bytes@),
        r@.len() == 16,
{
    <md5::Md5 as md5::Digest>::digest(bytes).to_vec()
}

/// Computes the digest of `bytes` under `alg`.
pub fn compute_digest(alg: DigestAlgorithm, bytes: &[u8]) -> (r: Vec<u8>)
    ensures
        r@ == digest_of(alg, bytes@),
        r@.len() == digest_len(alg),
{
    match alg {
        DigestAlgorithm::Sha1 => sha1_digest(bytes),
        DigestAlgorithm::Md5 => md5_digest(bytes),
    }
}

/// An incremental SHA-1 computation, so a large file can be digested
/// chunk by chunk while it streams, never buffered whole. Its state is
/// modeled by the bytes it has been fed.
#[verifier::external_body]
pub struct Sha1Stream {
    inner: sha1::Sha1,
}

/// The bytes a stream has been fed so far.
pub uninterp spec fn fed_bytes(h: Sha1Stream) -> Seq<u8>;

impl Sha1Stream {
    /// Relies on sha1::Sha1 through digest::Digest::new: a fresh
    /// stream has been fed nothing.
    #[verifier::external_body]
    pub fn new() -> (r: Sha1Stream)
        ensures
            fed_bytes(r) == Seq::<u8>::empty(),
    {
        Sha1Stream { inner: <sha1::Sha1 as sha1::Digest>::new() }
    }

    /// Relies on digest::Digest::update: feeding a chunk appends it to
    /// the fed bytes.
    #[verifier::external_body]
    pub fn update(&mut self, chunk: &[u8])
        ensures
            fed_bytes(*final(self)) == fed_bytes(*old(self)) + chunk@,
    {
        <sha1::Sha1 as sha1::Digest>::update(&mut self.inner, chunk);
    }

    /// Relies on digest::Digest::finalize: the result is the SHA-1
    /// digest of everything fed, and a digest fed in chunks equals the
    /// digest of the chunks' concatenation.
    #[verifier::external_body]
    pub fn finalize(self) -> (r: Vec<u8>)
        ensures
            r@ == sha1_of(fed_bytes(self)),
            r@.len() == 20,
    {
        <sha1::Sha1 as sha1::Digest>::finalize(self.inner).to_vec()
    }
}

/// The lower-case hex digit (as an ASCII byte) for a nibble.
pub open spec fn hex_digit(n: u8) -> u8
    recommends
        n < 16,
{
    if n < 10 {
        (48 + n) as u8
    } else {
        (87 + n) as u8
    }
}

/// The lower-case hex rendering of a byte sequence, two digits per
/// byte.
pub open spec fn hex_of(bytes: Seq<u8>) -> Seq<u8>
    decreases bytes.len(),
{
    if bytes.len() == 0 {
        Seq::empty()
    } else {
        hex_of(bytes.drop_last()).push(hex_digit(bytes.last() / 16)).push(
            hex_digit(bytes.last() % 16),
        )
    }
}

/// Renders a digest as lower-case ASCII hex.
pub fn hex_encode(bytes: &Vec<u8>) -> (r: Vec<u8>)
    ensures
        r@ == hex_of(bytes@),
        r@.len() == 2 * bytes@.len(),
{
    let mut r: Vec<u8> = Vec::new();
    let mut i: usize = 0;
    proof {
        assert(bytes@.subrange(0, 0) =~= Seq::<u8>::empty());
    }
    while i < bytes.len()
        invariant
            i <= bytes@.len(),
            r@ == hex_of(bytes@.subrange(0, i as int)),
            r@.len() == 2 * i,
        decreases bytes@.len() - i,
    {
        proof {
            assert(bytes@.subrange(0, i as int + 1).drop_last() =~= bytes@.subrange(0, i as int));
            assert(bytes@.subrange(0, i as int + 1).last() == bytes@[i as int]);
        }
        let b = bytes[i];
        let hi = b / 16;
        let lo = b % 16;
        r.push(if hi < 10 {
            48 + hi
        } else {
            87 + hi
        });
        r.push(if lo < 10 {
            48 + lo
        } else {
            87 + lo
        });
        i += 1;
    }
    proof {
        assert(bytes@.subrange(0, bytes@.len() as int) =~= bytes@);
    }
    r
}

/// The path of a loose resource under the content-addressed layout,
/// relative to the objects area: the first two hex digits of its
/// digest form the directory, the full hex digest the file name.
pub fn asset_object_path(hash: &Vec<u8>) -> (r: Vec<u8>)
    requires
        hash@.len() >= 1,
    ensures
        r@ == hex_of(hash@).subrange(0, 2) + seq![47u8] + hex_of(hash@),
{
    let hex = hex_encode(hash);
    let mut r: Vec<u8> = Vec::new();
    r.push(hex[0]);
    r.push(hex[1]);
    r.push(47);
    let mut i: usize = 0;
    while i < hex.len()
        invariant
            i <= hex@.len(),
            hex@ == hex_of(hash@),
            hex@.len() >= 2,
            r@ == seq![hex@[0], hex@[1], 47u8] + hex@.subrange(0, i as int),
        decreases hex@.len() - i,
    {
        r.push(hex[i]);
        proof {
            assert(hex@.subrange(0, i as int + 1) =~= hex@.subrange(0, i as int).push(
                hex@[i as int],
            ));
            assert(r@ =~= seq![hex@[0], hex@[1], 47u8] + hex@.subrange(0, i as int + 1));
        }
        i += 1;
    }
    proof {
        assert(hex@.subrange(0, hex@.len() as int) =~= hex@);
        assert(r@ =~= hex_of(hash@).subrange(0, 2) + seq![47u8] + hex_of(hash@));
    }
    r
}

/// Byte-for-byte equality of two digests.
pub fn digests_match(expected: &Vec<u8>, actual: &Vec<u8>) -> (r: bool)
    ensures
        r == (expected@ == actual@),
{
    if expected.len() != actual.len() {
        proof {
            assert(expected@.len() != actual@.len());
        }
        return false;
    }
    let mut i: usize = 0;
    while i < expected.len()
        invariant
            i <= expected.len(),
            expected@.len() == actual@.len(),
            forall|j: int| 0 <= j < i ==> expected@[j] == actual@[j],
        decreases expected.len() - i,
    {
        if expected[i] != actual[i] {
            return false;
        }
        i += 1;
    }
    proof {
        assert(expected@ =~= actual@);
    }
    true
}

} // verus!
