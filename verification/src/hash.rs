//! Content addressing: SHA-256 digests and the domain-separated combine
//! functions used for Merkle tree leaves and interior nodes.

use vstd::prelude::*;

verus! {

/// What `sha2::Sha256` returns for a given byte string: a pure function of
/// the bytes alone, left abstract here.
pub uninterp spec fn sha256_of(bytes: Seq<u8>) -> Seq<u8>;

/// An algorithm-tagged, fixed-size hash value; the library uses SHA-256.
/// A digest is the identity of content, of a log entry, of a signing key,
/// and of a Merkle tree node; digests compare by byte equality.
#[derive(Clone, Copy, Debug)]
pub struct Digest {
    /// The 32 bytes of the SHA-256 output.
    pub bytes: [u8; 32],
}

impl View for Digest {
    type V = Seq<u8>;

    open spec fn view(&self) -> Seq<u8> {
        self.bytes@
    }
}

/// Relies on `sha2::Sha256::digest` (through the `sha2::Digest` trait): the
/// 32-byte SHA-256 of the input, a function of the input bytes alone.
#[verifier::external_body]
fn sha256(bytes: &Vec<u8>) -> (r: Digest)
    ensures
        r@ == sha256_of(bytes@),
{
    let mut out = [0u8; 32];
    out.copy_from_slice(&<sha2::Sha256 as sha2::Digest>::digest(bytes.as_slice()));
    Digest { bytes: out }
}

/// The digest of a leaf: hashed under a `0x00` prefix so that a leaf hash can
/// never collide with an interior-node hash.
pub open spec fn leaf_hash_of(content: Seq<u8>) -> Seq<u8> {
    sha256_of(seq![0u8] + content)
}

/// The digest of an interior Merkle node: hashed under a `0x01` prefix.
pub open spec fn node_hash_of(left: Seq<u8>, right: Seq<u8>) -> Seq<u8> {
    sha256_of(seq![1u8] + left + right)
}

/// Hashes arbitrary content into its digest (content addressing).
pub fn digest(content: &Vec<u8>) -> (r: Digest)
    ensures
        r@ == sha256_of(content@),
{
    sha256(content)
}

/// Appends the 32 bytes of `d` to `buf`.
pub fn append_digest(buf: &mut Vec<u8>, d: &Digest)
    ensures
        final(buf)@ == old(buf)@ + d@,
{
    let mut i: usize = 0;
    while i < 32
        invariant
            i <= 32,
            buf@ == old(buf)@ + d@.subrange(0, i as int),
        decreases 32 - i,
    {
        buf.push(d.bytes[i]);
        assert(d@.subrange(0, i as int).push(d@[i as int]) =~= d@.subrange(0, i + 1 as int));
        i = i + 1;
    }
    assert(d@.subrange(0, 32) =~= d@);
}

/// Hashes a leaf's content under the leaf domain prefix.
pub fn hash_leaf_content(content: &Vec<u8>) -> (r: Digest)
    ensures
        r@ == leaf_hash_of(content@),
{
    let mut buf: Vec<u8> = Vec::new();
    buf.push(0u8);
    let mut i: usize = 0;
    while i < content.len()
        invariant
            i <= content@.len(),
            buf@ == seq![0u8] + content@.subrange(0, i as int),
        decreases content@.len() - i,
    {
        buf.push(content[i]);
        assert(buf@ =~= seq![0u8] + content@.subrange(0, i + 1 as int));
        i = i + 1;
    }
    assert(buf@ =~= seq![0u8] + content@);
    sha256(&buf)
}

/// Combines two child digests into their parent's digest under the
/// interior-node domain prefix.
pub fn node_hash(left: &Digest, right: &Digest) -> (r: Digest)
    ensures
        r@ == node_hash_of(left@, right@),
{
    let mut buf: Vec<u8> = Vec::new();
    buf.push(1u8);
    append_digest(&mut buf, left);
    append_digest(&mut buf, right);
    assert(buf@ =~= seq![1u8] + left@ + right@);
    sha256(&buf)
}

/// Compares two digests by byte equality.
pub fn digest_eq(a: &Digest, b: &Digest) -> (r: bool)
    ensures
        r == (a@ == b@),
{
    let mut i: usize = 0;
    while i < 32
        invariant
            i <= 32,
            forall|j: int| 0 <= j < i ==> a@[j] == b@[j],
        decreases 32 - i,
    {
        if a.bytes[i] != b.bytes[i] {
            assert(a@[i as int] != b@[i as int]);
            return false;
        }
        i = i + 1;
    }
    assert(a@ =~= b@);
    true
}

} // verus!
