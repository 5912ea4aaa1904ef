//! Content fingerprinting.
//!
//! A fingerprint is the lowercase hex encoding of the SHA-256 digest of
//! a source file's full byte content.  Byte-identical inputs always
//! yield the identical fingerprint, independent of path, name or any
//! filesystem metadata; the fingerprint is the sole cache key of the
//! derived store.

use vstd::prelude::*;
use sha2::Digest;

verus! {

/// SHA-256 digest of a byte sequence, as the `sha2` crate computes it.
/// The digest is a function of the bytes alone.
pub uninterp spec fn spec_sha256(bytes: Seq<u8>) -> Seq<u8>;

/// `sha2`'s hasher state, opaque to verification.
#[verifier::external_type_specification]
#[verifier::external_body]
pub struct ExSha256(sha2::Sha256);

/// The lowercase hex digit for a nibble value.
pub open spec fn hex_digit(n: int) -> char
    recommends
        0 <= n < 16,
{
    if n == 0 {
        '0'
    } else if n == 1 {
        '1'
    } else if n == 2 {
        '2'
    } else if n == 3 {
        '3'
    } else if n == 4 {
        '4'
    } else if n == 5 {
        '5'
    } else if n == 6 {
        '6'
    } else if n == 7 {
        '7'
    } else if n == 8 {
        '8'
    } else if n == 9 {
        '9'
    } else if n == 10 {
        'a'
    } else if n == 11 {
        'b'
    } else if n == 12 {
        'c'
    } else if n == 13 {
        'd'
    } else if n == 14 {
        'e'
    } else {
        'f'
    }
}

/// Lowercase hex encoding of a byte sequence: two digits per byte, most
/// significant nibble first.
pub open spec fn spec_hex(bytes: Seq<u8>) -> Seq<char>
    decreases bytes.len(),
{
    if bytes.len() == 0 {
        Seq::empty()
    } else {
        seq![
            hex_digit(bytes.first() as int / 16),
            hex_digit(bytes.first() as int % 16),
        ] + spec_hex(bytes.drop_first())
    }
}

/// The hex encoding has exactly two characters per byte.
pub proof fn lemma_spec_hex_len(bytes: Seq<u8>)
    ensures
        spec_hex(bytes).len() == 2 * bytes.len(),
    decreases bytes.len(),
{
    if bytes.len() > 0 {
        lemma_spec_hex_len(bytes.drop_first());
    }
}

/// The fingerprint of a byte content: lowercase hex of its SHA-256
/// digest.
pub open spec fn spec_fingerprint(bytes: Seq<u8>) -> Seq<char> {
    spec_hex(spec_sha256(bytes))
}

/// Relies on `hex::encode`: lowercase hex, two digits per byte, most
/// significant nibble first.
#[verifier::external_body]
fn to_hex_lower(bytes: &Vec<u8>) -> (r: String)
    ensures
        r@ == spec_hex(bytes@),
{
    hex::encode(bytes)
}

/// Streaming fingerprinter.
///
/// Content is absorbed chunk by chunk, so a file of any size can be
/// fingerprinted with a fixed-size read buffer: cost is linear in the
/// content and constant in memory.
pub struct Fingerprinter {
    inner: sha2::Sha256,
    fed: Ghost<Seq<u8>>,
}

impl Fingerprinter {
    /// All bytes absorbed so far, in order.
    pub closed spec fn bytes_fed(self) -> Seq<u8> {
        self.fed@
    }

    /// Relies on `sha2::Sha256::new` (via the `Digest` trait): a fresh
    /// hasher that has absorbed nothing.
    #[verifier::external_body]
    pub fn new() -> (r: Fingerprinter)
        ensures
            r.bytes_fed() == Seq::<u8>::empty(),
    {
        Fingerprinter { inner: sha2::Sha256::new(), fed: Ghost(Seq::empty()) }
    }

    /// Relies on `sha2`'s `Digest::update`: absorbs a chunk; absorbing
    /// content in chunks is equivalent to absorbing it whole.
    #[verifier::external_body]
    pub fn update(&mut self, chunk: &[u8])
        ensures
            final(self).bytes_fed() == old(self).bytes_fed() + chunk@,
    {
        self.inner.update(chunk);
    }

    /// Relies on `sha2`'s `Digest::finalize`: the 32-byte SHA-256
    /// digest of everything absorbed, a function of those bytes alone.
    #[verifier::external_body]
    pub fn finalize(self) -> (r: Vec<u8>)
        ensures
            r@ == spec_sha256(self.bytes_fed()),
            r@.len() == 32,
    {
        self.inner.finalize().to_vec()
    }

    /// The fingerprint of everything absorbed: 64 lowercase hex
    /// characters.
    pub fn finish_hex(self) -> (r: String)
        ensures
            r@ == spec_fingerprint(self.bytes_fed()),
            r@.len() == 64,
    {
        let digest = self.finalize();
        proof {
            lemma_spec_hex_len(digest@);
        }
        to_hex_lower(&digest)
    }
}

/// The fingerprint of a byte content held in memory.
pub fn fingerprint_bytes(data: &[u8]) -> (r: String)
    ensures
        r@ == spec_fingerprint(data@),
        r@.len() == 64,
{
    let mut hasher = Fingerprinter::new();
    hasher.update(data);
    proof {
        assert(hasher.bytes_fed() =~= data@);
    }
    hasher.finish_hex()
}

/// Determinism: fingerprinting a byte content twice yields the same
/// fingerprint; the fingerprint depends on the bytes alone.
pub proof fn lemma_fingerprint_deterministic(b1: Seq<u8>, b2: Seq<u8>)
    requires
        b1 == b2,
    ensures
        spec_fingerprint(b1) == spec_fingerprint(b2),
{
}

} // verus!
