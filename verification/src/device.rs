//! The device, as far as memory blocks need it.

use vstd::prelude::*;
use std::sync::Arc;
use crate::error::{AllocationError, MapError, SUCCESS};
use crate::flags::MemoryMapFlags;
use crate::handle::DeviceMemoryHandle;

verus! {

/// The parameters of one allocation.
#[derive(Clone, Copy, Debug, Eq, PartialEq, Structural)]
pub struct MemoryAllocateInfo {
    allocation_size: vks::vk::VkDeviceSize,
    memory_type_index: u32,
}

impl MemoryAllocateInfo {
    /// The requested length in bytes.
    pub closed spec fn spec_allocation_size(&self) -> u64 {
        self.allocation_size
    }

    /// The index of the memory type to allocate from.
    pub closed spec fn spec_memory_type_index(&self) -> u32 {
        self.memory_type_index
    }

    /// The parameters that ask for `allocation_size` bytes of memory type
    /// `memory_type_index`.
    pub closed spec fn request(allocation_size: u64, memory_type_index: u32) -> MemoryAllocateInfo {
        MemoryAllocateInfo { allocation_size, memory_type_index }
    }

    /// A request holds the two parameters it was made of, and parameters are
    /// the request made of their two parts.
    pub proof fn lemma_request_by_parts(self, allocation_size: u64, memory_type_index: u32)
        ensures
            Self::request(allocation_size, memory_type_index).spec_allocation_size()
                == allocation_size,
            Self::request(allocation_size, memory_type_index).spec_memory_type_index()
                == memory_type_index,
            self == Self::request(self.spec_allocation_size(), self.spec_memory_type_index()),
    {
    }

    /// Two sets of parameters are the same when both parts agree.
    pub proof fn lemma_equal_by_parts(self, other: MemoryAllocateInfo)
        ensures
            self == other <==> (self.spec_allocation_size() == other.spec_allocation_size()
                && self.spec_memory_type_index() == other.spec_memory_type_index()),
    {
    }

    /// Returns the requested length in bytes.
    #[verifier::when_used_as_spec(spec_allocation_size)]
    pub fn allocation_size(&self) -> (size: vks::vk::VkDeviceSize)
        ensures
            size == self.spec_allocation_size(),
    {
        self.allocation_size
    }

    /// Returns the index of the memory type to allocate from.
    #[verifier::when_used_as_spec(spec_memory_type_index)]
    pub fn memory_type_index(&self) -> (index: u32)
        ensures
            index == self.spec_memory_type_index(),
    {
        self.memory_type_index
    }

    /// Sets the requested length in bytes and leaves the memory type.
    pub fn set_allocation_size(&mut self, allocation_size: vks::vk::VkDeviceSize)
        ensures
            final(self).spec_allocation_size() == allocation_size,
            final(self).spec_memory_type_index() == old(self).spec_memory_type_index(),
    {
        self.allocation_size = allocation_size;
    }

    /// Sets the memory type and leaves the requested length.
    pub fn set_memory_type_index(&mut self, memory_type_index: u32)
        ensures
            final(self).spec_memory_type_index() == memory_type_index,
            final(self).spec_allocation_size() == old(self).spec_allocation_size(),
    {
        self.memory_type_index = memory_type_index;
    }
}

impl Default for MemoryAllocateInfo {
    /// A request for zero bytes of memory type zero.
    fn default() -> (info: MemoryAllocateInfo)
        ensures
            info.spec_allocation_size() == 0,
            info.spec_memory_type_index() == 0,
    {
        MemoryAllocateInfo { allocation_size: 0, memory_type_index: 0 }
    }
}

/// The four operations on device memory that a memory block relies on.
///
/// What a device answers is its own affair: no method promises anything, and
/// what this library proves holds whatever a device does. Where a contract of
/// the library speaks of a device's answer, it says only that the answer came
/// from that method of that device, on those arguments.
pub trait Device {
    /// Allocates a region with the given parameters and names it.
    fn allocate_memory(&self, allocate_info: &MemoryAllocateInfo) -> Result<
        DeviceMemoryHandle,
        AllocationError,
    >;

    /// Gives a region back. A device that cannot do so keeps that to itself.
    fn free_memory(&self, memory: DeviceMemoryHandle);

    /// Maps `size_bytes` bytes of a region, from `offset_bytes` on, and
    /// returns the host address where they start.
    fn map_memory(
        &self,
        memory: DeviceMemoryHandle,
        offset_bytes: vks::vk::VkDeviceSize,
        size_bytes: vks::vk::VkDeviceSize,
        flags: MemoryMapFlags,
    ) -> Result<usize, MapError>;

    /// Ends the mapping of a region.
    fn unmap_memory(&self, memory: DeviceMemoryHandle);
}

/// The answer to an allocation request, from what the driver returned: the
/// handle it wrote where its code is `SUCCESS`, the error that stands for its
/// code where it is any other.
pub fn allocation_outcome(code: vks::vk::VkResult, memory: vks::vk::VkDeviceMemory) -> (outcome:
    Result<DeviceMemoryHandle, AllocationError>)
    ensures
        code == SUCCESS ==> (outcome matches Ok(handle) && handle.raw() == memory),
        code != SUCCESS ==> (outcome matches Err(error) && error
            == AllocationError::spec_from_code(code)),
{
    if code == SUCCESS {
        Ok(DeviceMemoryHandle::from_raw(memory))
    } else {
        Err(AllocationError::from_code(code))
    }
}

/// The answer to a mapping request, from what the driver returned: the
/// address it wrote where its code is `SUCCESS`, the error that stands for
/// its code where it is any other.
pub fn mapping_outcome(code: vks::vk::VkResult, address: usize) -> (outcome: Result<
    usize,
    MapError,
>)
    ensures
        code == SUCCESS ==> (outcome matches Ok(mapped) && mapped == address),
        code != SUCCESS ==> (outcome matches Err(error) && error == MapError::spec_from_code(
            code,
        )),
{
    if code == SUCCESS {
        Ok(address)
    } else {
        Err(MapError::from_code(code))
    }
}

/// A reference to a device is a device: each request goes to the device
/// behind it, unchanged. Blocks that borrow one device share it.
impl<'d, D: Device> Device for &'d D {
    /// The answer is one that the device behind the reference gave to this
    /// request.
    fn allocate_memory(&self, allocate_info: &MemoryAllocateInfo) -> (outcome: Result<
        DeviceMemoryHandle,
        AllocationError,
    >)
        ensures
            call_ensures(D::allocate_memory, (&**self, allocate_info), outcome),
    {
        (**self).allocate_memory(allocate_info)
    }

    /// The device behind was told to give this region back, and returned.
    fn free_memory(&self, memory: DeviceMemoryHandle)
        ensures
            call_ensures(D::free_memory, (&**self, memory), ()),
    {
        (**self).free_memory(memory)
    }

    /// The answer is one that the device behind gave to this request.
    fn map_memory(
        &self,
        memory: DeviceMemoryHandle,
        offset_bytes: vks::vk::VkDeviceSize,
        size_bytes: vks::vk::VkDeviceSize,
        flags: MemoryMapFlags,
    ) -> (outcome: Result<usize, MapError>)
        ensures
            call_ensures(
                D::map_memory,
                (&**self, memory, offset_bytes, size_bytes, flags),
                outcome,
            ),
    {
        (**self).map_memory(memory, offset_bytes, size_bytes, flags)
    }

    /// The device behind was told to end the mapping of this region, and
    /// returned.
    fn unmap_memory(&self, memory: DeviceMemoryHandle)
        ensures
            call_ensures(D::unmap_memory, (&**self, memory), ()),
    {
        (**self).unmap_memory(memory)
    }
}

/// A shared owner of a device is a device: each request goes to the device
/// behind it, unchanged. Blocks that hold such owners keep the device alive.
impl<D: Device> Device for Arc<D> {
    /// The answer is one that the shared device gave to this request.
    fn allocate_memory(&self, allocate_info: &MemoryAllocateInfo) -> (outcome: Result<
        DeviceMemoryHandle,
        AllocationError,
    >)
        ensures
            call_ensures(D::allocate_memory, (&**self, allocate_info), outcome),
    {
        (**self).allocate_memory(allocate_info)
    }

    /// The device behind was told to give this region back, and returned.
    fn free_memory(&self, memory: DeviceMemoryHandle)
        ensures
            call_ensures(D::free_memory, (&**self, memory), ()),
    {
        (**self).free_memory(memory)
    }

    /// The answer is one that the device behind gave to this request.
    fn map_memory(
        &self,
        memory: DeviceMemoryHandle,
        offset_bytes: vks::vk::VkDeviceSize,
        size_bytes: vks::vk::VkDeviceSize,
        flags: MemoryMapFlags,
    ) -> (outcome: Result<usize, MapError>)
        ensures
            call_ensures(
                D::map_memory,
                (&**self, memory, offset_bytes, size_bytes, flags),
                outcome,
            ),
    {
        (**self).map_memory(memory, offset_bytes, size_bytes, flags)
    }

    /// The device behind was told to end the mapping of this region, and
    /// returned.
    fn unmap_memory(&self, memory: DeviceMemoryHandle)
        ensures
            call_ensures(D::unmap_memory, (&**self, memory), ()),
    {
        (**self).unmap_memory(memory)
    }
}

} // verus!
