//! SHA-256 and MD5 digests of executables and backups, hex encoded.

use vstd::prelude::*;
use crate::ids::hex_digit;

verus! {

/// Lower-case hexadecimal text of a byte string, two digits per byte.
pub open spec fn hex_lower(data: Seq<u8>) -> Seq<char>
    decreases data.len(),
{
    if data.len() == 0 {
        Seq::empty()
    } else {
        hex_lower(data.drop_last()) + seq![hex_digit(data.last() as int / 16), hex_digit(data.last() as int % 16)]
    }
}

/// Name for the SHA-256 digest of a byte string.
pub uninterp spec fn sha256_digest(data: Seq<u8>) -> Seq<u8>;

/// Name for the bytes a SHA-256 hasher has absorbed so far.
pub uninterp spec fn sha256_absorbed(h: Sha256State) -> Seq<u8>;

/// Name for the MD5 digest of a byte string.
pub uninterp spec fn md5_digest(data: Seq<u8>) -> Seq<u8>;

/// A `sha2::Sha256` hasher, held opaque (the type is an alias over generic
/// core wrappers, which cannot be declared as an outside type); what it has
/// absorbed is named by `sha256_absorbed`.
#[verifier::external_body]
pub struct Sha256State {
    inner: sha2::Sha256,
}

/// `sha2::Sha256::new()`: a hasher that has absorbed nothing.
#[verifier::external_body]
fn sha256_new() -> (h: Sha256State)
    ensures
        sha256_absorbed(h) == Seq::<u8>::empty(),
{
    Sha256State { inner: <sha2::Sha256 as sha2::Digest>::new() }
}

/// `Digest::update`: the hasher absorbs `data` after what it held.
#[verifier::external_body]
fn sha256_update(h: &mut Sha256State, data: &[u8])
    ensures
        sha256_absorbed(*final(h)) == sha256_absorbed(*old(h)) + data@,
{
    sha2::Digest::update(&mut h.inner, data);
}

/// `Digest::finalize`: the 32-byte SHA-256 digest of everything absorbed.
#[verifier::external_body]
fn sha256_finalize(h: Sha256State) -> (r: Vec<u8>)
    ensures
        r@ == sha256_digest(sha256_absorbed(h)),
        r@.len() == 32,
{
    sha2::Digest::finalize(h.inner).to_vec()
}

/// `hex::encode`: two lower-case hexadecimal digits per byte, in order.
#[verifier::external_body]
fn hex_encode(data: &[u8]) -> (r: String)
    ensures
        r@ == hex_lower(data@),
{
    hex::encode(data)
}

/// `md5::compute` formatted with the digest's `LowerHex` impl (`{:02x}` per
/// byte): the lower-case hexadecimal text of the 16-byte MD5 digest.
#[verifier::external_body]
fn md5_lower_hex(data: &[u8]) -> (r: String)
    ensures
        r@ == hex_lower(md5_digest(data@)),
        r@.len() == 32,
{
    format!("{:x}", md5::compute(data))
}

/// SHA-256 of a stream of chunks, with bounded memory whatever the stream's size.
pub struct StreamingSha256 {
    hasher: Sha256State,
}

impl View for StreamingSha256 {
    type V = Seq<u8>;

    /// The bytes fed so far.
    closed spec fn view(&self) -> Seq<u8> {
        sha256_absorbed(self.hasher)
    }
}

impl StreamingSha256 {
    pub fn new() -> (r: Self)
        ensures
            r@ == Seq::<u8>::empty(),
    {
        StreamingSha256 { hasher: sha256_new() }
    }

    /// Feeds the next chunk.
    pub fn update(&mut self, chunk: &[u8])
        ensures
            final(self)@ == old(self)@ + chunk@,
    {
        sha256_update(&mut self.hasher, chunk);
    }

    /// Lower-case hex SHA-256 of everything fed.
    pub fn finalize_hex(self) -> (r: String)
        ensures
            r@ == hex_lower(sha256_digest(self@)),
            r@.len() == 64,
    {
        let d = sha256_finalize(self.hasher);
        proof {
            law_hex_length(d@);
        }
        hex_encode(d.as_slice())
    }
}

/// Lower-case hex SHA-256 of a byte string.
pub fn sha256_hex(data: &[u8]) -> (r: String)
    ensures
        r@ == hex_lower(sha256_digest(data@)),
        r@.len() == 64,
{
    let mut s = StreamingSha256::new();
    s.update(data);
    assert(Seq::<u8>::empty() + data@ =~= data@);
    s.finalize_hex()
}

/// Concatenation of chunks.
pub open spec fn flatten(chunks: Seq<Vec<u8>>) -> Seq<u8>
    decreases chunks.len(),
{
    if chunks.len() == 0 {
        Seq::empty()
    } else {
        flatten(chunks.drop_last()) + chunks.last()@
    }
}

/// Hashing a byte string chunk by chunk gives the digest of the whole string.
pub fn sha256_hex_of_chunks(chunks: &[Vec<u8>]) -> (r: String)
    ensures
        r@ == hex_lower(sha256_digest(flatten(chunks@))),
        r@.len() == 64,
{
    let mut s = StreamingSha256::new();
    let mut i: usize = 0;
    while i < chunks.len()
        invariant
            i <= chunks@.len(),
            s@ == flatten(chunks@.take(i as int)),
        decreases chunks@.len() - i,
    {
        proof {
            assert(chunks@.take(i + 1).drop_last() =~= chunks@.take(i as int));
        }
        s.update(chunks[i].as_slice());
        i += 1;
    }
    assert(chunks@.take(chunks@.len() as int) =~= chunks@);
    s.finalize_hex()
}

/// Checksum recorded in the backup manifest: lower-case hex MD5.
pub fn backup_checksum(data: &[u8]) -> (r: String)
    ensures
        r@ == hex_lower(md5_digest(data@)),
        r@.len() == 32,
{
    md5_lower_hex(data)
}

/// Hex text has two digits per byte.
pub proof fn law_hex_length(data: Seq<u8>)
    ensures
        hex_lower(data).len() == 2 * data.len(),
    decreases data.len(),
{
    if data.len() > 0 {
        law_hex_length(data.drop_last());
    }
}

} // verus!
