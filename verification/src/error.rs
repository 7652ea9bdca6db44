//! What the device reports when an allocation or a mapping fails.

use vstd::prelude::*;

verus! {

/// The native code of a request that the driver carried out.
pub const SUCCESS: vks::vk::VkResult = 0;

/// The native code for exhausted host memory.
pub const OUT_OF_HOST_MEMORY: vks::vk::VkResult = -1;

/// The native code for exhausted device memory.
pub const OUT_OF_DEVICE_MEMORY: vks::vk::VkResult = -2;

/// The native code for a mapping that the device could not set up.
pub const MEMORY_MAP_FAILED: vks::vk::VkResult = -5;

/// The native code for an allocation beyond the device's allocation count.
pub const TOO_MANY_OBJECTS: vks::vk::VkResult = -10;

/// The reason why the device refused an allocation.
#[derive(Clone, Copy, Debug, Eq, PartialEq, Structural)]
pub enum AllocationError {
    /// The host has no memory left.
    OutOfHostMemory,
    /// The device has no memory left.
    OutOfDeviceMemory,
    /// The device holds as many allocations as it allows.
    TooManyObjects,
    /// Another cause, with the code that the driver gave.
    Other(vks::vk::VkResult),
}

impl AllocationError {
    /// The native code that the error carries.
    pub open spec fn spec_code(&self) -> i32 {
        match *self {
            AllocationError::OutOfHostMemory => OUT_OF_HOST_MEMORY,
            AllocationError::OutOfDeviceMemory => OUT_OF_DEVICE_MEMORY,
            AllocationError::TooManyObjects => TOO_MANY_OBJECTS,
            AllocationError::Other(code) => code,
        }
    }

    /// The error that stands for a native code.
    pub open spec fn spec_from_code(code: i32) -> AllocationError {
        if code == OUT_OF_HOST_MEMORY {
            AllocationError::OutOfHostMemory
        } else if code == OUT_OF_DEVICE_MEMORY {
            AllocationError::OutOfDeviceMemory
        } else if code == TOO_MANY_OBJECTS {
            AllocationError::TooManyObjects
        } else {
            AllocationError::Other(code)
        }
    }

    /// Whether the error is the one that `from_code` gives for its code.
    ///
    /// Only `Other` with a code that has a variant of its own is not.
    pub open spec fn is_canonical(&self) -> bool {
        *self == Self::spec_from_code(self.spec_code())
    }

    /// Classifies a native failure code.
    pub fn from_code(code: vks::vk::VkResult) -> (error: AllocationError)
        ensures
            error == Self::spec_from_code(code),
            error.spec_code() == code,
            error.is_canonical(),
    {
        if code == OUT_OF_HOST_MEMORY {
            AllocationError::OutOfHostMemory
        } else if code == OUT_OF_DEVICE_MEMORY {
            AllocationError::OutOfDeviceMemory
        } else if code == TOO_MANY_OBJECTS {
            AllocationError::TooManyObjects
        } else {
            AllocationError::Other(code)
        }
    }

    /// Returns the native code that the error carries.
    #[verifier::when_used_as_spec(spec_code)]
    pub fn code(&self) -> (code: vks::vk::VkResult)
        ensures
            code == self.spec_code(),
    {
        match self {
            AllocationError::OutOfHostMemory => OUT_OF_HOST_MEMORY,
            AllocationError::OutOfDeviceMemory => OUT_OF_DEVICE_MEMORY,
            AllocationError::TooManyObjects => TOO_MANY_OBJECTS,
            AllocationError::Other(code) => *code,
        }
    }

    /// Tells whether memory ran out, on the host or on the device.
    pub fn is_out_of_memory(&self) -> (out: bool)
        ensures
            out == (self.spec_code() == OUT_OF_HOST_MEMORY || self.spec_code()
                == OUT_OF_DEVICE_MEMORY),
    {
        let code = self.code();
        code == OUT_OF_HOST_MEMORY || code == OUT_OF_DEVICE_MEMORY
    }
}

/// The reason why the device refused a mapping.
#[derive(Clone, Copy, Debug, Eq, PartialEq, Structural)]
pub enum MapError {
    /// The host has no memory left.
    OutOfHostMemory,
    /// The device has no memory left.
    OutOfDeviceMemory,
    /// The device could not map the range.
    MemoryMapFailed,
    /// Another cause, with the code that the driver gave.
    Other(vks::vk::VkResult),
}

impl MapError {
    /// The native code that the error carries.
    pub open spec fn spec_code(&self) -> i32 {
        match *self {
            MapError::OutOfHostMemory => OUT_OF_HOST_MEMORY,
            MapError::OutOfDeviceMemory => OUT_OF_DEVICE_MEMORY,
            MapError::MemoryMapFailed => MEMORY_MAP_FAILED,
            MapError::Other(code) => code,
        }
    }

    /// The error that stands for a native code.
    pub open spec fn spec_from_code(code: i32) -> MapError {
        if code == OUT_OF_HOST_MEMORY {
            MapError::OutOfHostMemory
        } else if code == OUT_OF_DEVICE_MEMORY {
            MapError::OutOfDeviceMemory
        } else if code == MEMORY_MAP_FAILED {
            MapError::MemoryMapFailed
        } else {
            MapError::Other(code)
        }
    }

    /// Whether the error is the one that `from_code` gives for its code.
    ///
    /// Only `Other` with a code that has a variant of its own is not.
    pub open spec fn is_canonical(&self) -> bool {
        *self == Self::spec_from_code(self.spec_code())
    }

    /// Classifies a native failure code.
    pub fn from_code(code: vks::vk::VkResult) -> (error: MapError)
        ensures
            error == Self::spec_from_code(code),
            error.spec_code() == code,
            error.is_canonical(),
    {
        if code == OUT_OF_HOST_MEMORY {
            MapError::OutOfHostMemory
        } else if code == OUT_OF_DEVICE_MEMORY {
            MapError::OutOfDeviceMemory
        } else if code == MEMORY_MAP_FAILED {
            MapError::MemoryMapFailed
        } else {
            MapError::Other(code)
        }
    }

    /// Returns the native code that the error carries.
    #[verifier::when_used_as_spec(spec_code)]
    pub fn code(&self) -> (code: vks::vk::VkResult)
        ensures
            code == self.spec_code(),
    {
        match self {
            MapError::OutOfHostMemory => OUT_OF_HOST_MEMORY,
            MapError::OutOfDeviceMemory => OUT_OF_DEVICE_MEMORY,
            MapError::MemoryMapFailed => MEMORY_MAP_FAILED,
            MapError::Other(code) => *code,
        }
    }
}

/// A code names one allocation error: classifying the code of a canonical
/// error gives the error back, and two canonical errors with one code are one.
pub proof fn lemma_allocation_error_code_round_trip(a: AllocationError, b: AllocationError)
    requires
        a.is_canonical(),
        b.is_canonical(),
    ensures
        AllocationError::spec_from_code(a.spec_code()) == a,
        a.spec_code() == b.spec_code() <==> a == b,
{
}

/// A code names one mapping error: classifying the code of a canonical error
/// gives the error back, and two canonical errors with one code are one.
pub proof fn lemma_map_error_code_round_trip(a: MapError, b: MapError)
    requires
        a.is_canonical(),
        b.is_canonical(),
    ensures
        MapError::spec_from_code(a.spec_code()) == a,
        a.spec_code() == b.spec_code() <==> a == b,
{
}

} // verus!
