//! Identities of callers, donors and recipients.
//!
//! An identity is an opaque string of at most 29 bytes, the form in which the
//! host names a principal. The engine only asks whether two identities are the
//! same and whether one is the anonymous identity.

use vstd::prelude::*;

verus! {

/// The largest number of bytes an identity can have.
pub const MAX_IDENTITY_BYTES: usize = 29;

/// The byte string of the anonymous identity.
pub open spec fn anonymous_bytes() -> Seq<u8> {
    seq![4u8]
}

/// An identity, held as its length and its bytes in a zero-padded buffer.
#[derive(Clone, Copy, Debug, PartialEq, Eq, Hash)]
pub struct Identity {
    len: u8,
    bytes: [u8; 29],
}

impl View for Identity {
    type V = Seq<u8>;

    closed spec fn view(&self) -> Seq<u8> {
        self.bytes@.subrange(0, self.len as int)
    }
}

/// The bytes of `candid::Principal::anonymous()`, read back through
/// `Principal::as_slice`. The contract claims that the anonymous principal is
/// the single byte 0x04, as candid constructs it.
#[verifier::external_body]
fn anonymous_principal_bytes() -> (bytes: Vec<u8>)
    ensures
        bytes@ == anonymous_bytes(),
{
    candid::Principal::anonymous().as_slice().to_vec()
}

impl Identity {
    #[verifier::type_invariant]
    spec fn well_formed(self) -> bool {
        &&& self.len <= 29
        &&& forall|i: int| self.len <= i < 29 ==> self.bytes[i] == 0
    }

    /// The identity with the given bytes, or `None` when there are more than 29.
    pub fn from_slice(bytes: &[u8]) -> (id: Option<Identity>)
        ensures
            bytes@.len() <= MAX_IDENTITY_BYTES ==> id is Some && id.unwrap()@ == bytes@,
            bytes@.len() > MAX_IDENTITY_BYTES ==> id is None,
    {
        if bytes.len() > MAX_IDENTITY_BYTES {
            return None;
        }
        let mut buffer = [0u8; 29];
        let mut i: usize = 0;
        while i < bytes.len()
            invariant
                i <= bytes@.len() <= 29,
                forall|j: int| 0 <= j < i ==> buffer[j] == bytes@[j],
                forall|j: int| i <= j < 29 ==> buffer[j] == 0,
            decreases bytes@.len() - i,
        {
            buffer[i] = bytes[i];
            i += 1;
        }
        Some(Identity { len: bytes.len() as u8, bytes: buffer })
    }

    /// The bytes of this identity.
    pub fn as_bytes(&self) -> (bytes: Vec<u8>)
        ensures
            bytes@ == self@,
            bytes@.len() <= MAX_IDENTITY_BYTES,
    {
        proof {
            use_type_invariant(self);
        }
        let mut out: Vec<u8> = Vec::new();
        let mut i: usize = 0;
        while i < self.len as usize
            invariant
                i <= self.len <= 29,
                out@ == self.bytes@.subrange(0, i as int),
            decreases self.len - i,
        {
            out.push(self.bytes[i]);
            i += 1;
        }
        out
    }

    /// Whether two identities are the same.
    pub fn same(&self, other: &Identity) -> (equal: bool)
        ensures
            equal == (self@ == other@),
    {
        proof {
            use_type_invariant(self);
            use_type_invariant(other);
        }
        assert(self@.len() == self.len && other@.len() == other.len);
        if self.len != other.len {
            return false;
        }
        let mut i: usize = 0;
        while i < self.len as usize
            invariant
                i <= self.len <= 29,
                self.len == other.len,
                forall|j: int| 0 <= j < i ==> self.bytes[j] == other.bytes[j],
            decreases self.len - i,
        {
            if self.bytes[i] != other.bytes[i] {
                assert(self@[i as int] != other@[i as int]);
                return false;
            }
            i += 1;
        }
        assert(self@ =~= other@);
        true
    }

    /// The anonymous identity, which names no one.
    pub fn anonymous() -> (id: Identity)
        ensures
            id@ == anonymous_bytes(),
    {
        let bytes = anonymous_principal_bytes();
        Identity::from_slice(bytes.as_slice()).unwrap()
    }

    /// Whether this is the anonymous identity.
    pub fn is_anonymous(&self) -> (anonymous: bool)
        ensures
            anonymous == (self@ == anonymous_bytes()),
    {
        self.same(&Identity::anonymous())
    }
}

} // verus!
