//! Memory blocks: allocation, shared ownership, mapping and release.

use vstd::prelude::*;
use vstd::layout::size_of;
use std::sync::Arc;
use crate::device::{Device, MemoryAllocateInfo};
use crate::error::{AllocationError, MapError};
use crate::flags::MemoryMapFlags;
use crate::handle::{DeviceMemoryHandle, Handle};
use crate::mapping::MemoryMapping;

verus! {

/// What the owners of one block share.
#[derive(Debug)]
struct Inner<D: Device> {
    handle: DeviceMemoryHandle,
    device: D,
    allocation_size: vks::vk::VkDeviceSize,
    memory_type_index: u32,
}

/// Gives up one owner of a block's shared state through `Arc::into_inner` of
/// std, and returns what that returns. std documents that the state comes
/// back, as it was, where this owner was the only one left, that `None` comes
/// back otherwise, and that of all the owners of one state exactly one gets
/// it. The contract claims the first of these and nothing of when it happens,
/// which depends on what other owners do.
#[verifier::external_body]
fn into_last<D: Device>(inner: Arc<Inner<D>>) -> (last: Option<Inner<D>>)
    ensures
        last matches Some(state) ==> state == *inner,
{
    Arc::into_inner(inner)
}

/// A region of device memory.
///
/// The value is one owner of the region, and `clone` makes another. An owner
/// is given up with `free`: the region is given back to the device by the
/// owner that is given up last, and not before. An owner that is dropped in
/// any other way gives back nothing. Each owner keeps the device, so the
/// device outlives the region.
#[derive(Debug)]
pub struct DeviceMemory<D: Device> {
    inner: Arc<Inner<D>>,
}

impl<D: Device> DeviceMemory<D> {
    /// The handle of the region.
    pub closed spec fn spec_handle(&self) -> DeviceMemoryHandle {
        self.inner.handle
    }

    /// The device that the region was allocated from.
    pub closed spec fn spec_device(&self) -> D {
        self.inner.device
    }

    /// The length of the region in bytes, as it was asked for.
    pub closed spec fn spec_allocation_size(&self) -> u64 {
        self.inner.allocation_size
    }

    /// The index of the memory type that the region was allocated from.
    pub closed spec fn spec_memory_type_index(&self) -> u32 {
        self.inner.memory_type_index
    }

    /// Whether `size_bytes` bytes from `offset_bytes` on lie inside the region.
    pub open spec fn spec_contains_range(&self, offset_bytes: u64, size_bytes: u64) -> bool {
        offset_bytes + size_bytes <= self.spec_allocation_size()
    }

    /// Whether `mapping` was made from this block.
    pub open spec fn spec_owns_mapping<'m, T>(&self, mapping: &MemoryMapping<'m, T>) -> bool {
        mapping.spec_mem_handle() == self.spec_handle()
    }

    /// Whether `res` is what comes of asking `device` for an allocation with
    /// the parameters `allocate_info`: the block made of a handle that the
    /// device answered this request with, or an error that it answered with.
    pub open spec fn allocated(
        device: D,
        allocate_info: MemoryAllocateInfo,
        res: Result<DeviceMemory<D>, AllocationError>,
    ) -> bool {
        match res {
            Ok(memory) => {
                &&& call_ensures(
                    D::allocate_memory,
                    (&device, &allocate_info),
                    Ok(memory.spec_handle()),
                )
                &&& memory.spec_device() == device
                &&& memory.spec_allocation_size() == allocate_info.spec_allocation_size()
                &&& memory.spec_memory_type_index() == allocate_info.spec_memory_type_index()
            },
            Err(error) => call_ensures(
                D::allocate_memory,
                (&device, &allocate_info),
                Err(error),
            ),
        }
    }

    /// Whether `outcome` is an answer that this block's device gave when it
    /// was asked to map `size_bytes` bytes of this block from `offset_bytes`
    /// on, with `flags`.
    pub open spec fn device_mapped(
        &self,
        offset_bytes: u64,
        size_bytes: u64,
        flags: MemoryMapFlags,
        outcome: Result<usize, MapError>,
    ) -> bool {
        call_ensures(
            D::map_memory,
            (&self.spec_device(), self.spec_handle(), offset_bytes, size_bytes, flags),
            outcome,
        )
    }

    /// Whether this block's device was told to end the mapping of this
    /// block's handle, and returned.
    pub open spec fn device_unmapped(&self) -> bool {
        call_ensures(D::unmap_memory, (&self.spec_device(), self.spec_handle()), ())
    }

    /// Whether `device` was told to give the region `handle` back, and
    /// returned.
    pub open spec fn device_freed(device: D, handle: DeviceMemoryHandle) -> bool {
        call_ensures(D::free_memory, (&device, handle), ())
    }

    /// A block is its handle, its device, its length and its memory type: two
    /// blocks that agree in the four are the same block.
    pub proof fn lemma_equal_by_parts(self, other: DeviceMemory<D>)
        ensures
            self == other <==> (self.spec_handle() == other.spec_handle() && self.spec_device()
                == other.spec_device() && self.spec_allocation_size()
                == other.spec_allocation_size() && self.spec_memory_type_index()
                == other.spec_memory_type_index()),
    {
    }

    /// A mapping belongs to one block: of two blocks, both own it exactly when
    /// they have one handle.
    pub proof fn lemma_mapping_has_one_origin<'m, E: Device, T>(
        self,
        other: DeviceMemory<E>,
        mapping: MemoryMapping<'m, T>,
    )
        requires
            self.spec_owns_mapping(&mapping),
        ensures
            other.spec_owns_mapping(&mapping) <==> other.spec_handle() == self.spec_handle(),
    {
    }

    /// Returns a new `DeviceMemoryBuilder`.
    pub fn builder() -> (builder: DeviceMemoryBuilder)
        ensures
            builder.spec_allocation_size() == 0,
            builder.spec_memory_type_index() == 0,
    {
        DeviceMemoryBuilder::new()
    }

    /// Allocates `allocation_size` bytes of the given memory type from
    /// `device`.
    ///
    /// The result is what comes of the device's answer to that request: the
    /// block made of the handle it gave, or the error it gave.
    pub fn new(device: D, allocation_size: vks::vk::VkDeviceSize, memory_type_index: u32) -> (res:
        Result<DeviceMemory<D>, AllocationError>)
        ensures
            Self::allocated(
                device,
                MemoryAllocateInfo::request(allocation_size, memory_type_index),
                res,
            ),
            res matches Ok(memory) ==> memory.spec_allocation_size() == allocation_size
                && memory.spec_memory_type_index() == memory_type_index,
    {
        let mut builder = DeviceMemoryBuilder::new();
        builder.allocation_size(allocation_size).memory_type_index(memory_type_index);
        proof {
            builder.spec_allocate_info().lemma_request_by_parts(
                allocation_size,
                memory_type_index,
            );
        }
        builder.build(device)
    }

    /// The block that comes of a device's answer to an allocation request.
    ///
    /// Where the device allocated, the block owns the region that the answer
    /// names, keeps the device, and records the request. Where the device
    /// refused, its error is returned and the device is let go.
    ///
    /// The block will hand the handle to the device's `free_memory` when its
    /// last owner is given up, so the answer has to be one that this device
    /// gave to this request, and that no other block was made of.
    pub fn from_allocation(
        device: D,
        allocate_info: &MemoryAllocateInfo,
        outcome: Result<DeviceMemoryHandle, AllocationError>,
    ) -> (res: Result<DeviceMemory<D>, AllocationError>)
        ensures
            match outcome {
                Ok(handle) => res matches Ok(memory) && memory.spec_handle() == handle
                    && memory.spec_device() == device && memory.spec_allocation_size()
                    == allocate_info.spec_allocation_size() && memory.spec_memory_type_index()
                    == allocate_info.spec_memory_type_index(),
                Err(error) => res matches Err(e) && e == error,
            },
            outcome matches Ok(handle) ==> (res matches Ok(memory)
                && (memory.spec_handle().spec_is_null() <==> handle.spec_is_null())),
    {
        match outcome {
            Ok(handle) => Ok(
                DeviceMemory {
                    inner: Arc::new(
                        Inner {
                            handle,
                            device,
                            allocation_size: allocate_info.allocation_size(),
                            memory_type_index: allocate_info.memory_type_index(),
                        },
                    ),
                },
            ),
            Err(error) => Err(error),
        }
    }

    /// Maps a range of this block and returns the host address where it
    /// starts.
    ///
    /// The device is asked once, for exactly this block, range and flags, and
    /// the result is its answer to that request. Use `unmap_ptr` to end the
    /// mapping.
    /// The range must lie inside the block, and the block must be of a memory
    /// type that the host can see.
    pub fn map_to_ptr(
        &self,
        offset_bytes: vks::vk::VkDeviceSize,
        size_bytes: vks::vk::VkDeviceSize,
        flags: MemoryMapFlags,
    ) -> (res: Result<usize, MapError>)
        requires
            self.spec_contains_range(offset_bytes, size_bytes),
        ensures
            self.device_mapped(offset_bytes, size_bytes, flags, res),
    {
        self.inner.device.map_memory(self.inner.handle, offset_bytes, size_bytes, flags)
    }

    /// Ends a mapping that `map_to_ptr` began: the block's device is told to
    /// end the mapping of the block's handle. Nothing is tested first; that a
    /// mapping is there to end is for the caller to know.
    pub fn unmap_ptr(&self)
        ensures
            self.device_unmapped(),
    {
        self.inner.device.unmap_memory(self.inner.handle);
    }

    /// The view that comes of a device's answer to a request to map
    /// `size_bytes` bytes of this block.
    ///
    /// Where the device mapped, the view starts at the address that the answer
    /// gives, holds as many elements of `T` as fit wholly into `size_bytes`
    /// bytes, and remembers this block. Where the device refused, its error is
    /// returned.
    pub fn mapping_of<'m, T>(
        &'m self,
        outcome: Result<usize, MapError>,
        size_bytes: vks::vk::VkDeviceSize,
    ) -> (res: Result<MemoryMapping<'m, T>, MapError>)
        requires
            size_of::<T>() > 0,
        ensures
            match outcome {
                Ok(address) => res matches Ok(mapping) && mapping.spec_address() == address
                    && mapping.covers(size_bytes) && self.spec_owns_mapping(&mapping),
                Err(error) => res matches Err(e) && e == error,
            },
            res matches Ok(mapping) ==> (size_bytes <= usize::MAX ==> mapping.spec_len() as nat
                == size_bytes as nat / size_of::<T>()),
    {
        match outcome {
            Ok(address) => Ok(MemoryMapping::new(address, size_bytes, self.inner.handle)),
            Err(error) => Err(error),
        }
    }

    /// Maps a range of this block and returns a view of it as elements of
    /// `T`.
    ///
    /// The view starts at the address that the device answered this request
    /// with, and an error is one that the device answered it with. The view
    /// holds `size_bytes / size_of::<T>()` elements, rounded down: bytes at
    /// the end that do not make up an element are out of its reach. A count
    /// of bytes beyond what the host can address is cut to its low bits
    /// first.
    /// Use `unmap` to end the mapping. The range must lie inside the block,
    /// `T` must have a size, and the block must be of a memory type that the
    /// host can see.
    pub fn map<'m, T>(
        &'m self,
        offset_bytes: vks::vk::VkDeviceSize,
        size_bytes: vks::vk::VkDeviceSize,
        flags: MemoryMapFlags,
    ) -> (res: Result<MemoryMapping<'m, T>, MapError>)
        requires
            self.spec_contains_range(offset_bytes, size_bytes),
            size_of::<T>() > 0,
        ensures
            res matches Ok(mapping) ==> (size_bytes <= usize::MAX ==> mapping.spec_len() as nat
                == size_bytes as nat / size_of::<T>()),
            match res {
                Ok(mapping) => {
                    &&& self.device_mapped(
                        offset_bytes,
                        size_bytes,
                        flags,
                        Ok(mapping.spec_address()),
                    )
                    &&& mapping.covers(size_bytes)
                    &&& self.spec_owns_mapping(&mapping)
                },
                Err(error) => self.device_mapped(offset_bytes, size_bytes, flags, Err(error)),
            },
    {
        let outcome = self.map_to_ptr(offset_bytes, size_bytes, flags);
        self.mapping_of(outcome, size_bytes)
    }

    /// Ends the mapping that `mapping` stands for: the block's device is told
    /// to end the mapping of the block's handle, and the view is used up.
    ///
    /// The mapping must come from this block: a mapping of another block is a
    /// mistake of the caller that this function does not accept.
    pub fn unmap<'m, T>(&self, mapping: MemoryMapping<'m, T>)
        requires
            self.spec_owns_mapping(&mapping),
        ensures
            self.device_unmapped(),
    {
        self.unmap_ptr();
    }

    /// Ends the mapping that `mapping` stands for if it comes from this
    /// block, and hands it back untouched, with the device left alone, if it
    /// does not.
    pub fn try_unmap<'m, T>(&self, mapping: MemoryMapping<'m, T>) -> (res: Result<
        (),
        MemoryMapping<'m, T>,
    >)
        ensures
            self.spec_owns_mapping(&mapping) ==> res is Ok,
            !self.spec_owns_mapping(&mapping) ==> res == Err::<(), MemoryMapping<'m, T>>(mapping),
            res is Ok ==> self.device_unmapped(),
    {
        if self.owns_mapping(&mapping) {
            self.unmap(mapping);
            Ok(())
        } else {
            Err(mapping)
        }
    }

    /// Gives up this owner of the block. Where it was the last one, the
    /// block's device and handle are returned, for the region to be given
    /// back; where other owners are left, nothing is returned.
    ///
    /// Which of the two it is depends on what the other owners have done by
    /// then. Of all the owners of one block, one is the last.
    pub fn release(self) -> (last: Option<(D, DeviceMemoryHandle)>)
        ensures
            last matches Some(pair) ==> pair.0 == self.spec_device() && pair.1
                == self.spec_handle(),
    {
        match into_last(self.inner) {
            Some(state) => {
                let Inner { handle, device, allocation_size: _, memory_type_index: _ } = state;
                Some((device, handle))
            },
            None => None,
        }
    }

    /// Gives back the region that the last owner of a block left behind:
    /// where `last` holds a device and a handle, that device is told to free
    /// that handle, and the result is `true`; where it holds nothing, nothing
    /// is done, and the result is `false`. The device is let go.
    pub fn free_released(last: Option<(D, DeviceMemoryHandle)>) -> (freed: bool)
        ensures
            freed == last is Some,
            last matches Some(pair) ==> Self::device_freed(pair.0, pair.1),
    {
        match last {
            Some((device, handle)) => {
                device.free_memory(handle);
                true
            },
            None => false,
        }
    }

    /// Gives up this owner of the block and, where it was the last one,
    /// tells the block's device to free the block's handle. Tells whether it
    /// did.
    pub fn free(self) -> (freed: bool)
        ensures
            freed ==> Self::device_freed(self.spec_device(), self.spec_handle()),
    {
        let last = self.release();
        Self::free_released(last)
    }

    /// Returns this block's handle.
    #[verifier::when_used_as_spec(spec_handle)]
    pub fn handle(&self) -> (handle: DeviceMemoryHandle)
        ensures
            handle == self.spec_handle(),
    {
        self.inner.handle
    }

    /// Returns a reference to the device that the block was allocated from.
    pub fn device(&self) -> (device: &D)
        ensures
            *device == self.spec_device(),
    {
        &self.inner.device
    }

    /// Returns the length of the block in bytes, as it was asked for.
    #[verifier::when_used_as_spec(spec_allocation_size)]
    pub fn allocation_size(&self) -> (size: vks::vk::VkDeviceSize)
        ensures
            size == self.spec_allocation_size(),
    {
        self.inner.allocation_size
    }

    /// Returns the index of the memory type that the block was allocated
    /// from.
    #[verifier::when_used_as_spec(spec_memory_type_index)]
    pub fn memory_type_index(&self) -> (index: u32)
        ensures
            index == self.spec_memory_type_index(),
    {
        self.inner.memory_type_index
    }

    /// Tells whether `size_bytes` bytes from `offset_bytes` on lie inside the
    /// block.
    #[verifier::when_used_as_spec(spec_contains_range)]
    pub fn contains_range(
        &self,
        offset_bytes: vks::vk::VkDeviceSize,
        size_bytes: vks::vk::VkDeviceSize,
    ) -> (inside: bool)
        ensures
            inside == self.spec_contains_range(offset_bytes, size_bytes),
    {
        offset_bytes <= self.inner.allocation_size && size_bytes <= self.inner.allocation_size
            - offset_bytes
    }

    /// Tells whether `mapping` was made from this block.
    #[verifier::when_used_as_spec(spec_owns_mapping)]
    pub fn owns_mapping<'m, T>(&self, mapping: &MemoryMapping<'m, T>) -> (owns: bool)
        ensures
            owns == self.spec_owns_mapping(mapping),
    {
        mapping.mem_handle() == self.inner.handle
    }
}

impl<D: Device> Clone for DeviceMemory<D> {
    /// Another owner of the same block.
    fn clone(&self) -> (other: DeviceMemory<D>)
        ensures
            other == *self,
    {
        DeviceMemory { inner: self.inner.clone() }
    }
}

impl<'h, D: Device> Handle for &'h DeviceMemory<D> {
    type Target = DeviceMemoryHandle;

    open spec fn handle_view(&self) -> DeviceMemoryHandle {
        self.spec_handle()
    }

    fn handle(&self) -> (target: DeviceMemoryHandle) {
        self.inner.handle
    }
}

/// A builder for `DeviceMemory`.
#[derive(Debug)]
pub struct DeviceMemoryBuilder {
    allocate_info: MemoryAllocateInfo,
}

impl Clone for DeviceMemoryBuilder {
    /// A builder that holds the same parameters.
    fn clone(&self) -> (other: DeviceMemoryBuilder)
        ensures
            other == *self,
    {
        DeviceMemoryBuilder { allocate_info: self.allocate_info }
    }
}

impl DeviceMemoryBuilder {
    /// The parameters that `build` will hand to the device.
    pub closed spec fn spec_allocate_info(&self) -> MemoryAllocateInfo {
        self.allocate_info
    }

    /// The length in bytes that `build` will ask for.
    pub open spec fn spec_allocation_size(&self) -> u64 {
        self.spec_allocate_info().spec_allocation_size()
    }

    /// The memory type that `build` will ask for.
    pub open spec fn spec_memory_type_index(&self) -> u32 {
        self.spec_allocate_info().spec_memory_type_index()
    }

    /// Returns a new builder, which asks for zero bytes of memory type zero
    /// until it is told otherwise.
    pub fn new() -> (builder: DeviceMemoryBuilder)
        ensures
            builder.spec_allocation_size() == 0,
            builder.spec_memory_type_index() == 0,
    {
        DeviceMemoryBuilder { allocate_info: MemoryAllocateInfo::default() }
    }

    /// Specifies the size of the allocation in bytes. Any size is taken: what
    /// a device allows is for the caller to know.
    pub fn allocation_size(&mut self, allocation_size: vks::vk::VkDeviceSize) -> (builder:
        &mut DeviceMemoryBuilder)
        ensures
            builder.spec_allocation_size() == allocation_size,
            builder.spec_memory_type_index() == old(self).spec_memory_type_index(),
            *final(self) == *final(builder),
    {
        self.allocate_info.set_allocation_size(allocation_size);
        self
    }

    /// Specifies the memory type index, which selects the properties of the
    /// memory to be allocated, as well as the heap the memory will come from.
    pub fn memory_type_index(&mut self, memory_type_index: u32) -> (builder:
        &mut DeviceMemoryBuilder)
        ensures
            builder.spec_memory_type_index() == memory_type_index,
            builder.spec_allocation_size() == old(self).spec_allocation_size(),
            *final(self) == *final(builder),
    {
        self.allocate_info.set_memory_type_index(memory_type_index);
        self
    }

    /// Returns the parameters that `build` will hand to the device.
    #[verifier::when_used_as_spec(spec_allocate_info)]
    pub fn allocate_info(&self) -> (info: MemoryAllocateInfo)
        ensures
            info == self.spec_allocate_info(),
    {
        self.allocate_info
    }

    /// Creates and returns a new `DeviceMemory`.
    ///
    /// The device is asked once, with the parameters that the builder holds.
    /// The result is what comes of its answer to that request: the block made
    /// of the handle it gave, or the error it gave.
    pub fn build<D: Device>(&self, device: D) -> (res: Result<DeviceMemory<D>, AllocationError>)
        ensures
            DeviceMemory::allocated(device, self.spec_allocate_info(), res),
    {
        let outcome = device.allocate_memory(&self.allocate_info);
        DeviceMemory::from_allocation(device, &self.allocate_info, outcome)
    }
}

} // verus!
