//! Content digests: SHA-256 of a stream of bytes, as lowercase hexadecimal.
use data_encoding::HEXLOWER;
use sha2::Digest;
use sha2::Sha256;
use vstd::prelude::*;

verus! {

/// The SHA-256 digest of `data`, as computed by the `sha2` crate.
pub uninterp spec fn sha256_of(data: Seq<u8>) -> Seq<u8>;

/// The bytes fed so far into a SHA-256 hasher.
pub uninterp spec fn hasher_input(h: Sha256Hasher) -> Seq<u8>;

/// A `sha2::Sha256` hasher. Verus cannot declare that type (an alias of a
/// generic wrapper), so it is held here, out of the verifier's sight.
#[verifier::external_body]
pub struct Sha256Hasher {
    inner: Sha256,
}

/// Relies on `sha2::Sha256::new` (through `Digest`): a hasher that has been fed nothing.
#[verifier::external_body]
fn sha256_new() -> (h: Sha256Hasher)
    ensures
        hasher_input(h) == Seq::<u8>::empty(),
{
    Sha256Hasher { inner: Sha256::new() }
}

/// Relies on `Digest::update` of `sha2::Sha256`: feeds `chunk` after what was fed before.
#[verifier::external_body]
fn sha256_update(h: &mut Sha256Hasher, chunk: &[u8])
    ensures
        hasher_input(*final(h)) == hasher_input(*old(h)) + chunk@,
{
    h.inner.update(chunk)
}

/// Relies on `Digest::finalize` of `sha2::Sha256`: the digest of all that was fed.
#[verifier::external_body]
fn sha256_finalize(h: Sha256Hasher) -> (r: Vec<u8>)
    ensures
        r@ == sha256_of(hasher_input(h)),
        r@.len() == 32,
{
    h.inner.finalize().to_vec()
}

/// The lowercase hexadecimal digit of a value below sixteen.
pub open spec fn hex_digit(v: u8) -> char {
    seq!['0', '1', '2', '3', '4', '5', '6', '7', '8', '9', 'a', 'b', 'c', 'd', 'e', 'f'][v as int]
}

/// Two lowercase hexadecimal digits per byte, high half first.
pub open spec fn hex_text(bytes: Seq<u8>) -> Seq<char>
    decreases bytes.len(),
{
    if bytes.len() == 0 {
        Seq::empty()
    } else {
        let b = bytes.last();
        hex_text(bytes.drop_last()) + seq![hex_digit(b / 16), hex_digit(b % 16)]
    }
}

proof fn lemma_hex_text_len(bytes: Seq<u8>)
    ensures
        hex_text(bytes).len() == 2 * bytes.len(),
    decreases bytes.len(),
{
    if bytes.len() > 0 {
        lemma_hex_text_len(bytes.drop_last());
    }
}

/// Relies on `data_encoding::HEXLOWER.encode`: two lowercase digits per
/// byte, most significant half first, no padding or separators.
#[verifier::external_body]
fn hex_lower(bytes: &[u8]) -> (r: String)
    ensures
        r@ == hex_text(bytes@),
{
    HEXLOWER.encode(bytes)
}

/// The digest text of a content: its SHA-256 in lowercase hexadecimal.
pub open spec fn digest_text(content: Seq<u8>) -> Seq<char> {
    hex_text(sha256_of(content))
}

/// A digest computed over a content fed in chunks, so that a file never
/// has to be held in memory whole.
pub struct ContentDigest {
    hasher: Sha256Hasher,
}

impl View for ContentDigest {
    type V = Seq<u8>;

    /// The bytes fed so far.
    closed spec fn view(&self) -> Seq<u8> {
        hasher_input(self.hasher)
    }
}

impl ContentDigest {
    pub fn new() -> (d: ContentDigest)
        ensures
            d@ == Seq::<u8>::empty(),
    {
        ContentDigest { hasher: sha256_new() }
    }

    /// Feeds the next chunk of the content.
    pub fn update(&mut self, chunk: &[u8])
        ensures
            final(self)@ == old(self)@ + chunk@,
    {
        sha256_update(&mut self.hasher, chunk);
    }

    /// The digest text of everything fed: 64 lowercase hexadecimal digits.
    pub fn finish(self) -> (r: String)
        ensures
            r@ == digest_text(self@),
            r@.len() == 64,
    {
        let bytes = sha256_finalize(self.hasher);
        proof {
            lemma_hex_text_len(bytes@);
        }
        hex_lower(bytes.as_slice())
    }
}

} // verus!
