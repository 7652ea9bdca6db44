//! Lifecycle and host mapping of device-allocated memory blocks.
//!
//! A [`DeviceMemoryBuilder`] collects the parameters of an allocation and asks
//! a [`Device`] for it. The resulting [`DeviceMemory`] is a shared owner of the
//! allocated region: the region is handed back to the device when the last
//! owner is given up. While a block lives, parts of it can be mapped into host
//! address space; a [`MemoryMapping`] records such a mapping and the block it
//! came from, and is given back to that block to unmap.

pub mod device;
pub mod device_memory;
pub mod error;
pub mod flags;
pub mod handle;
pub mod mapping;

pub use device::{allocation_outcome, mapping_outcome, Device, MemoryAllocateInfo};
pub use device_memory::{DeviceMemory, DeviceMemoryBuilder};
pub use error::{AllocationError, MapError};
pub use flags::MemoryMapFlags;
pub use handle::{DeviceMemoryHandle, Handle};
pub use mapping::MemoryMapping;
