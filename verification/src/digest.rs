//! SHA-256 digests, computed by the `bitcoin_hashes` crate, and the 32-byte
//! values that identify contracts, transactions and state transitions.

use vstd::prelude::*;

verus! {

/// The SHA-256 digest of a byte string.
///
/// The function is left without a definition: the library relies only on the
/// digest being a function of the hashed bytes.
pub uninterp spec fn sha256_digest(data: Seq<u8>) -> Seq<u8>;

/// Trusted wrapper around `bitcoin_hashes::sha256::Hash::hash`, followed by
/// `to_byte_array`.
///
/// Not proved: that the 32 bytes handed back are the SHA-256 digest of
/// `data`, and therefore depend on nothing but the bytes of `data`.
#[verifier::external_body]
fn sha256(data: &[u8]) -> (out: [u8; 32])
    ensures
        out@ == sha256_digest(data@),
{
    bitcoin_hashes::sha256::Hash::hash(data).to_byte_array()
}

/// A 32-byte value: a digest, or an identifier made from one.
#[derive(Clone, Copy, Debug, PartialEq, Eq, Hash)]
pub struct Hash32 {
    pub bytes: [u8; 32],
}

impl View for Hash32 {
    type V = Seq<u8>;

    open spec fn view(&self) -> Seq<u8> {
        self.bytes@
    }
}

impl Hash32 {
    /// Wraps 32 bytes.
    pub fn from_bytes(bytes: [u8; 32]) -> (out: Hash32)
        ensures
            out.bytes == bytes,
            out@ == bytes@,
    {
        Hash32 { bytes }
    }

    /// The SHA-256 digest of `data`.
    pub fn digest(data: &[u8]) -> (out: Hash32)
        ensures
            out@ == sha256_digest(data@),
    {
        Hash32 { bytes: sha256(data) }
    }

    /// Two values are the same exactly when all 32 bytes agree.
    pub proof fn lemma_view_injective(a: Hash32, b: Hash32)
        ensures
            (a@ == b@) <==> (a == b),
    {
        if a@ == b@ {
            assert(a.bytes =~= b.bytes);
        }
    }

    /// Byte-wise comparison.
    pub fn same(&self, other: &Hash32) -> (eq: bool)
        ensures
            eq == (self@ == other@),
            eq == (*self == *other),
    {
        let mut i: usize = 0;
        while i < 32
            invariant
                i <= 32,
                forall|j: int| 0 <= j < i ==> self.bytes@[j] == other.bytes@[j],
            decreases 32 - i,
        {
            if self.bytes[i] != other.bytes[i] {
                return false;
            }
            i += 1;
        }
        proof {
            assert(self.bytes@ =~= other.bytes@);
            Self::lemma_view_injective(*self, *other);
        }
        true
    }
}

} // verus!
