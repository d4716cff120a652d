//! Owned byte blobs with a provenance tag.
//!
//! A blob's memory either came from the native allocator and must go back
//! through the matching native free routine, or it is local and lives
//! exactly as long as this value. The tag records which, so destruction
//! takes the right path exactly once; the bytes themselves are carried as a
//! plain vector either way.

use vstd::prelude::*;

verus! {

/// Where a blob's memory came from, and so how it must be released.
#[derive(Clone, Copy, Debug, PartialEq, Eq, Structural)]
pub enum BlobOrigin {
    /// Allocated by the native subsystem; released through its matching
    /// free routine.
    Native,
    /// Allocated locally; released with this value.
    Local,
}

/// An owned byte blob whose origin determines its free policy.
pub struct OwnedByteBlob {
    /// Which allocator produced the memory.
    pub origin: BlobOrigin,
    /// The blob's bytes.
    pub bytes: Vec<u8>,
}

/// What an [`OwnedByteBlob`] holds: its origin tag and its bytes.
#[verifier::ext_equal]
pub ghost struct BlobV {
    /// Which allocator produced the memory.
    pub origin: BlobOrigin,
    /// The blob's bytes.
    pub bytes: Seq<u8>,
}

impl View for OwnedByteBlob {
    type V = BlobV;

    open spec fn view(&self) -> BlobV {
        BlobV { origin: self.origin, bytes: self.bytes@ }
    }
}

impl OwnedByteBlob {
    /// Wraps bytes handed over by the native subsystem. The caller is
    /// answerable for the bytes really being the content of a
    /// native-allocated blob.
    pub fn from_native(bytes: Vec<u8>) -> (b: OwnedByteBlob)
        ensures
            b.origin is Native,
            b.bytes == bytes,
    {
        OwnedByteBlob { origin: BlobOrigin::Native, bytes }
    }

    /// Copies arbitrary byte data into a locally owned blob, suitable for
    /// attaching to a condition.
    pub fn from_bytes(bytes: Vec<u8>) -> (b: OwnedByteBlob)
        ensures
            b.origin is Local,
            b.bytes == bytes,
    {
        OwnedByteBlob { origin: BlobOrigin::Local, bytes }
    }

    /// The blob's bytes, exactly as they were given.
    pub fn as_bytes(&self) -> (r: &Vec<u8>)
        ensures
            r == &self.bytes,
    {
        &self.bytes
    }

    /// Which allocator produced the memory, and so which free path applies.
    pub fn origin(&self) -> (r: BlobOrigin)
        ensures
            r == self.origin,
    {
        self.origin
    }
}

impl From<Vec<u8>> for OwnedByteBlob {
    /// A locally owned blob holding exactly the given bytes.
    fn from(bytes: Vec<u8>) -> (b: OwnedByteBlob) {
        OwnedByteBlob::from_bytes(bytes)
    }
}

impl vstd::std_specs::convert::FromSpecImpl<Vec<u8>> for OwnedByteBlob {
    open spec fn obeys_from_spec() -> bool {
        true
    }

    open spec fn from_spec(bytes: Vec<u8>) -> Self {
        OwnedByteBlob { origin: BlobOrigin::Local, bytes }
    }
}

impl Clone for OwnedByteBlob {
    /// An equal blob: same origin tag, same bytes.
    fn clone(&self) -> (r: Self)
        ensures
            r@ == self@,
    {
        let mut bytes: Vec<u8> = Vec::new();
        let mut i: usize = 0;
        let len = self.bytes.len();
        while i < len
            invariant
                0 <= i <= len,
                len == self.bytes@.len(),
                bytes@ == self.bytes@.subrange(0, i as int),
            decreases len - i,
        {
            bytes.push(self.bytes[i]);
            i = i + 1;
        }
        proof {
            assert(bytes@ =~= self.bytes@);
        }
        OwnedByteBlob { origin: self.origin, bytes }
    }
}

} // verus!
