use vstd::prelude::*;

use crate::error::HDWalletError;

verus! {

/// First index of the hardened range, 2^31.
pub const HARDENED_KEY_START_INDEX: u32 = 2_147_483_648;

/// KeyIndex indicates the key type and index of a child key.
#[derive(Debug, Clone, Copy, PartialEq, Eq, Structural, Hash)]
pub enum KeyIndex {
    /// Normal key, index range is from 0 to 2 ** 31 - 1
    Normal(u32),
}

impl KeyIndex {
    /// The raw 32-bit index.
    pub open spec fn raw(self) -> u32 {
        match self {
            KeyIndex::Normal(i) => i,
        }
    }

    /// Whether the index lies in the range of its kind.
    pub open spec fn valid(self) -> bool {
        match self {
            KeyIndex::Normal(i) => i < HARDENED_KEY_START_INDEX,
        }
    }

    /// Check index range.
    pub fn is_valid(self) -> (r: bool)
        ensures
            r == self.valid(),
    {
        match self {
            KeyIndex::Normal(i) => i < HARDENED_KEY_START_INDEX,
        }
    }

    /// Generate KeyIndex from raw index value.
    pub fn from_index(i: u32) -> (r: Result<Self, HDWalletError>)
        ensures
            r is Ok <==> i < HARDENED_KEY_START_INDEX,
            r matches Ok(k) ==> k == KeyIndex::Normal(i) && k.valid(),
            r matches Err(e) ==> e is KeyIndexOutOfRange,
    {
        if i < HARDENED_KEY_START_INDEX {
            Ok(KeyIndex::Normal(i))
        } else {
            Err(HDWalletError::KeyIndexOutOfRange)
        }
    }
}

/// Every index below 2^31 makes a normal index that passes the range check, and
/// every index from 2^31 on is refused.
pub proof fn lemma_normal_index_range(i: u32)
    ensures
        i < HARDENED_KEY_START_INDEX ==> KeyIndex::Normal(i).valid() && KeyIndex::Normal(i).raw() == i,
        i >= HARDENED_KEY_START_INDEX ==> !KeyIndex::Normal(i).valid(),
{
}

} // verus!
