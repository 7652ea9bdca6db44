//! Flags of a mapping request.

use vstd::prelude::*;

verus! {

/// The flags handed to the device with a mapping request.
///
/// No flag has a meaning yet. The value is passed to the device as it is.
#[derive(Clone, Copy, Debug, Eq, PartialEq, Structural)]
pub struct MemoryMapFlags {
    bits: vks::vk::VkMemoryMapFlags,
}

impl MemoryMapFlags {
    /// The native bit pattern.
    pub closed spec fn spec_bits(&self) -> u32 {
        self.bits
    }

    /// The flags with no bit set.
    pub fn empty() -> (flags: MemoryMapFlags)
        ensures
            flags.spec_bits() == 0,
    {
        MemoryMapFlags { bits: 0 }
    }

    /// The flags with exactly the given bits.
    pub fn from_bits(bits: vks::vk::VkMemoryMapFlags) -> (flags: MemoryMapFlags)
        ensures
            flags.spec_bits() == bits,
    {
        MemoryMapFlags { bits }
    }

    /// Returns the native bit pattern.
    #[verifier::when_used_as_spec(spec_bits)]
    pub fn bits(&self) -> (bits: vks::vk::VkMemoryMapFlags)
        ensures
            bits == self.spec_bits(),
    {
        self.bits
    }

    /// Tells whether no bit is set.
    pub fn is_empty(&self) -> (empty: bool)
        ensures
            empty == (self.spec_bits() == 0),
    {
        self.bits == 0
    }
}

} // verus!
