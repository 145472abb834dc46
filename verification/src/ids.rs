use vstd::prelude::*;

verus! {

/// A ledger-native principal: an opaque, stable handle to a contract
/// instance or a signing party. Instance handles are sequence-addressable
/// (the factory assigns them in deployment order).
#[derive(Clone, Copy, PartialEq, Eq, Structural, Debug)]
pub struct Address {
    pub id: u64,
}

/// The number of bytes in an external-identity key.
pub const IDENTITY_KEY_LEN: usize = 32;

/// A fixed-length external-identity key: the opaque 32-byte identifier a
/// registry entry is keyed by, distinct from the `u64` identity form used
/// inside an account instance.
#[derive(Clone, Debug)]
pub struct IdentityKey {
    bytes: Vec<u8>,
}

impl View for IdentityKey {
    type V = Seq<u8>;

    closed spec fn view(&self) -> Seq<u8> {
        self.bytes@
    }
}

impl IdentityKey {
    /// A key holds exactly [`IDENTITY_KEY_LEN`] bytes.
    pub open spec fn well_formed(&self) -> bool {
        self@.len() == IDENTITY_KEY_LEN
    }

    /// Builds a key from raw bytes; refuses any length other than
    /// [`IDENTITY_KEY_LEN`].
    pub fn new(bytes: Vec<u8>) -> (r: Option<IdentityKey>)
        ensures
            match r {
                Some(k) => k@ == bytes@ && k.well_formed(),
                None => bytes@.len() != IDENTITY_KEY_LEN,
            },
    {
        if bytes.len() == IDENTITY_KEY_LEN {
            Some(IdentityKey { bytes })
        } else {
            None
        }
    }

    /// Byte-for-byte key equality.
    pub fn matches(&self, other: &IdentityKey) -> (r: bool)
        ensures
            r == (self@ == other@),
    {
        if self.bytes.len() != other.bytes.len() {
            return false;
        }
        let n = self.bytes.len();
        let mut i: usize = 0;
        while i < n
            invariant
                i <= n,
                n == self.bytes@.len(),
                n == other.bytes@.len(),
                forall|j: int| 0 <= j < i ==> self.bytes@[j] == other.bytes@[j],
            decreases n - i,
        {
            if self.bytes[i] != other.bytes[i] {
                return false;
            }
            i += 1;
        }
        proof {
            assert(self.bytes@ =~= other.bytes@);
        }
        true
    }
}

} // verus!
