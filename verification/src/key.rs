use vstd::prelude::*;

verus! {

/// The number of bytes in an account address.
pub const KEY_LEN: usize = 32;

/// An account address: 32 raw bytes.
#[derive(Clone, Copy, Debug, PartialEq, Eq)]
pub struct Pubkey {
    pub bytes: [u8; 32],
}

impl Pubkey {
    /// The address whose bytes are all zero.
    pub open spec fn spec_is_default(self) -> bool {
        forall|i: int| 0 <= i < 32 ==> #[trigger] self.bytes@[i] == 0u8
    }

    /// The all-zero address, which the default address of the runtime is.
    pub fn default_key() -> (k: Pubkey)
        ensures
            k.spec_is_default(),
    {
        let k = Pubkey { bytes: [0u8; 32] };
        proof {
            broadcast use vstd::array::group_array_axioms;
        }
        k
    }

    /// Whether every byte of the address is zero.
    pub fn is_default(&self) -> (r: bool)
        ensures
            r == self.spec_is_default(),
    {
        let mut i: usize = 0;
        while i < KEY_LEN
            invariant
                i <= KEY_LEN,
                forall|j: int| 0 <= j < i ==> #[trigger] self.bytes@[j] == 0u8,
            decreases KEY_LEN - i,
        {
            if self.bytes[i] != 0 {
                return false;
            }
            i = i + 1;
        }
        true
    }
}

} // verus!
