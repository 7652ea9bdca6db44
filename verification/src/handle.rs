//! Opaque identifiers of device memory allocations.

use vstd::prelude::*;

verus! {

/// The native value that no allocation has.
pub const NULL_HANDLE: vks::vk::VkDeviceMemory = 0;

/// The identifier of one native memory allocation.
///
/// A handle means something only to the device that issued it. It is compared
/// and passed on, never dereferenced.
#[derive(Clone, Copy, Debug, Eq, PartialEq, Structural)]
pub struct DeviceMemoryHandle(pub(crate) vks::vk::VkDeviceMemory);

impl DeviceMemoryHandle {
    /// The native value that this handle stands for.
    pub closed spec fn raw(self) -> u64 {
        self.0
    }

    /// Whether this is the reserved handle that names no allocation.
    pub open spec fn spec_is_null(&self) -> bool {
        self.raw() == NULL_HANDLE
    }

    /// Wraps a native value.
    pub fn from_raw(raw: vks::vk::VkDeviceMemory) -> (handle: DeviceMemoryHandle)
        ensures
            handle.raw() == raw,
    {
        DeviceMemoryHandle(raw)
    }

    /// The reserved handle that names no allocation.
    pub fn null() -> (handle: DeviceMemoryHandle)
        ensures
            handle.raw() == NULL_HANDLE,
            handle.spec_is_null(),
    {
        DeviceMemoryHandle(NULL_HANDLE)
    }

    /// Returns the native value.
    pub fn to_raw(&self) -> (raw: vks::vk::VkDeviceMemory)
        ensures
            raw == self.raw(),
    {
        self.0
    }

    /// Tells whether this is the reserved handle that names no allocation.
    #[verifier::when_used_as_spec(spec_is_null)]
    pub fn is_null(&self) -> (null: bool)
        ensures
            null == self.spec_is_null(),
    {
        self.0 == NULL_HANDLE
    }
}

/// Two handles are the same handle exactly when their native values agree.
pub proof fn lemma_handle_is_its_raw_value(a: DeviceMemoryHandle, b: DeviceMemoryHandle)
    ensures
        a == b <==> a.raw() == b.raw(),
{
}

/// Anything that stands for a native object and can name it.
///
/// Code written against this trait works alike on an owner of an object and
/// on a reference to one.
pub trait Handle {
    /// The kind of identifier that the value yields.
    type Target;

    /// The identifier that the value stands for.
    spec fn handle_view(&self) -> Self::Target;

    /// Returns the identifier that the value stands for.
    fn handle(&self) -> (target: Self::Target)
        ensures
            target == self.handle_view(),
    ;
}

impl Handle for DeviceMemoryHandle {
    type Target = DeviceMemoryHandle;

    open spec fn handle_view(&self) -> DeviceMemoryHandle {
        *self
    }

    fn handle(&self) -> (target: DeviceMemoryHandle) {
        *self
    }
}

} // verus!
