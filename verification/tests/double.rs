// A device that keeps a record of every request and answers from a script.

use device_memory::{
    AllocationError, Device, DeviceMemory, DeviceMemoryBuilder, DeviceMemoryHandle, Handle,
    MapError, MemoryAllocateInfo, MemoryMapFlags, MemoryMapping,
};
use std::sync::{Arc, Mutex};

const HOST_BASE: usize = 0x10_0000;

#[derive(Default)]
struct Record {
    allocations: Vec<(u64, u32)>,
    frees: Vec<u64>,
    maps: Vec<(u64, u64, u64, u32)>,
    unmaps: Vec<u64>,
    handles_given: u64,
    refuse_allocation: Option<AllocationError>,
    refuse_zero_size: bool,
    refuse_map: Option<MapError>,
    bytes: Vec<u8>,
}

#[derive(Default)]
struct ScriptedDevice {
    record: Mutex<Record>,
}

impl ScriptedDevice {
    fn new() -> ScriptedDevice {
        ScriptedDevice::default()
    }

    fn refusing_allocation(error: AllocationError) -> ScriptedDevice {
        let device = ScriptedDevice::new();
        device.record.lock().unwrap().refuse_allocation = Some(error);
        device
    }

    fn refusing_zero_size() -> ScriptedDevice {
        let device = ScriptedDevice::new();
        device.record.lock().unwrap().refuse_zero_size = true;
        device
    }

    fn refuse_map(&self, error: MapError) {
        self.record.lock().unwrap().refuse_map = Some(error);
    }

    fn allocations(&self) -> Vec<(u64, u32)> {
        self.record.lock().unwrap().allocations.clone()
    }

    fn frees(&self) -> Vec<u64> {
        self.record.lock().unwrap().frees.clone()
    }

    fn maps(&self) -> Vec<(u64, u64, u64, u32)> {
        self.record.lock().unwrap().maps.clone()
    }

    fn unmaps(&self) -> Vec<u64> {
        self.record.lock().unwrap().unmaps.clone()
    }

    // Host memory is played by a byte vector; an address is HOST_BASE plus an
    // offset into it.
    fn write_u32s(&self, address: usize, values: &[u32]) {
        let mut record = self.record.lock().unwrap();
        let mut at = address - HOST_BASE;
        for value in values {
            record.bytes[at..at + 4].copy_from_slice(&value.to_le_bytes());
            at += 4;
        }
    }

    fn read_u32s(&self, address: usize, count: usize) -> Vec<u32> {
        let record = self.record.lock().unwrap();
        let mut at = address - HOST_BASE;
        let mut values = Vec::new();
        for _ in 0..count {
            let mut word = [0u8; 4];
            word.copy_from_slice(&record.bytes[at..at + 4]);
            values.push(u32::from_le_bytes(word));
            at += 4;
        }
        values
    }

    fn bytes(&self) -> Vec<u8> {
        self.record.lock().unwrap().bytes.clone()
    }
}

impl Device for ScriptedDevice {
    fn allocate_memory(
        &self,
        allocate_info: &MemoryAllocateInfo,
    ) -> Result<DeviceMemoryHandle, AllocationError> {
        let mut record = self.record.lock().unwrap();
        record
            .allocations
            .push((allocate_info.allocation_size(), allocate_info.memory_type_index()));
        if let Some(error) = record.refuse_allocation {
            return Err(error);
        }
        if record.refuse_zero_size && allocate_info.allocation_size() == 0 {
            return Err(AllocationError::Other(-1000011001));
        }
        record.handles_given += 1;
        record.bytes = vec![0u8; allocate_info.allocation_size() as usize];
        Ok(DeviceMemoryHandle::from_raw(0x4000 + record.handles_given))
    }

    fn free_memory(&self, memory: DeviceMemoryHandle) {
        self.record.lock().unwrap().frees.push(memory.to_raw());
    }

    fn map_memory(
        &self,
        memory: DeviceMemoryHandle,
        offset_bytes: u64,
        size_bytes: u64,
        flags: MemoryMapFlags,
    ) -> Result<usize, MapError> {
        let mut record = self.record.lock().unwrap();
        record.maps.push((memory.to_raw(), offset_bytes, size_bytes, flags.bits()));
        match record.refuse_map {
            Some(error) => Err(error),
            None => Ok(HOST_BASE + offset_bytes as usize),
        }
    }

    fn unmap_memory(&self, memory: DeviceMemoryHandle) {
        self.record.lock().unwrap().unmaps.push(memory.to_raw());
    }
}

fn block(device: &Arc<ScriptedDevice>, size: u64, index: u32) -> DeviceMemory<Arc<ScriptedDevice>> {
    DeviceMemory::new(device.clone(), size, index).unwrap()
}

fn raw_of<H: Handle<Target = DeviceMemoryHandle>>(value: H) -> u64 {
    value.handle().to_raw()
}

fn is_send_and_sync<T: Send + Sync>() -> bool {
    true
}

#[test]
fn builder_starts_with_a_request_for_zero_bytes_of_type_zero() {
    let builder = DeviceMemoryBuilder::new();
    assert_eq!(builder.allocate_info().allocation_size(), 0);
    assert_eq!(builder.allocate_info().memory_type_index(), 0);
    let other = DeviceMemory::<ScriptedDevice>::builder();
    assert_eq!(other.allocate_info(), builder.allocate_info());
    assert_eq!(MemoryAllocateInfo::default(), builder.allocate_info());
}

#[test]
fn builder_setters_change_one_parameter_each() {
    let mut builder = DeviceMemoryBuilder::new();
    builder.allocation_size(4096);
    assert_eq!(builder.allocate_info().allocation_size(), 4096);
    assert_eq!(builder.allocate_info().memory_type_index(), 0);
    builder.memory_type_index(7);
    assert_eq!(builder.allocate_info().allocation_size(), 4096);
    assert_eq!(builder.allocate_info().memory_type_index(), 7);
    builder.allocation_size(u64::MAX).memory_type_index(u32::MAX);
    assert_eq!(builder.allocate_info().allocation_size(), u64::MAX);
    assert_eq!(builder.allocate_info().memory_type_index(), u32::MAX);
    let copy = builder.clone();
    assert_eq!(copy.allocate_info(), builder.allocate_info());
}

#[test]
fn allocate_info_setters_change_one_parameter_each() {
    let mut info = MemoryAllocateInfo::default();
    info.set_allocation_size(12);
    assert_eq!((info.allocation_size(), info.memory_type_index()), (12, 0));
    info.set_memory_type_index(3);
    assert_eq!((info.allocation_size(), info.memory_type_index()), (12, 3));
}

#[test]
fn build_asks_the_device_once_with_the_builders_parameters() {
    let device = Arc::new(ScriptedDevice::new());
    let mut builder = DeviceMemoryBuilder::new();
    builder.allocation_size(256).memory_type_index(2);
    let memory = builder.build(device.clone()).unwrap();
    assert_eq!(device.allocations(), vec![(256, 2)]);
    assert_eq!(memory.allocation_size(), 256);
    assert_eq!(memory.memory_type_index(), 2);
    assert_eq!(memory.handle().to_raw(), 0x4001);
    assert!(!memory.handle().is_null());
    assert!(Arc::ptr_eq(memory.device(), &device));
}

#[test]
fn build_twice_gives_two_blocks() {
    let device = Arc::new(ScriptedDevice::new());
    let mut builder = DeviceMemoryBuilder::new();
    builder.allocation_size(16).memory_type_index(1);
    let first = builder.build(device.clone()).unwrap();
    let second = builder.build(device.clone()).unwrap();
    assert_eq!(device.allocations(), vec![(16, 1), (16, 1)]);
    assert_ne!(first.handle(), second.handle());
}

#[test]
fn new_is_the_builder_with_both_parameters_set() {
    let device = Arc::new(ScriptedDevice::new());
    let memory = DeviceMemory::new(device.clone(), 1024, 5).unwrap();
    assert_eq!(device.allocations(), vec![(1024, 5)]);
    assert_eq!(memory.allocation_size(), 1024);
    assert_eq!(memory.memory_type_index(), 5);
}

#[test]
fn build_returns_the_devices_refusal() {
    for error in [
        AllocationError::OutOfHostMemory,
        AllocationError::OutOfDeviceMemory,
        AllocationError::TooManyObjects,
        AllocationError::Other(-3),
    ] {
        let device = ScriptedDevice::refusing_allocation(error);
        let mut builder = DeviceMemoryBuilder::new();
        builder.allocation_size(64);
        let outcome = builder.build(&device);
        assert_eq!(outcome.err(), Some(error));
        assert_eq!(device.allocations(), vec![(64, 0)]);
        assert_eq!(device.frees(), Vec::<u64>::new());
    }
}

#[test]
fn unconfigured_builder_sends_a_zero_byte_request_and_the_device_decides() {
    let lenient = Arc::new(ScriptedDevice::new());
    let memory = DeviceMemoryBuilder::new().build(lenient.clone()).unwrap();
    assert_eq!(lenient.allocations(), vec![(0, 0)]);
    assert_eq!(memory.allocation_size(), 0);
    assert!(!memory.handle().is_null());

    let strict = ScriptedDevice::refusing_zero_size();
    let outcome = DeviceMemoryBuilder::new().build(&strict);
    assert_eq!(outcome.err(), Some(AllocationError::Other(-1000011001)));
    assert_eq!(strict.allocations(), vec![(0, 0)]);
}

#[test]
fn from_allocation_follows_the_outcome() {
    let device = Arc::new(ScriptedDevice::new());
    let mut info = MemoryAllocateInfo::default();
    info.set_allocation_size(48);
    info.set_memory_type_index(9);
    let handle = DeviceMemoryHandle::from_raw(77);
    let memory = DeviceMemory::from_allocation(device.clone(), &info, Ok(handle)).unwrap();
    assert_eq!(memory.handle(), handle);
    assert_eq!(memory.allocation_size(), 48);
    assert_eq!(memory.memory_type_index(), 9);
    assert_eq!(device.allocations(), Vec::<(u64, u32)>::new());

    let refused = DeviceMemory::from_allocation(
        device.clone(),
        &info,
        Err(AllocationError::TooManyObjects),
    );
    assert_eq!(refused.err(), Some(AllocationError::TooManyObjects));
    assert!(memory.free());
    assert_eq!(device.frees(), vec![77]);
}

#[test]
fn region_is_freed_once_when_the_last_of_many_owners_goes() {
    for owners in 1..6usize {
        let device = Arc::new(ScriptedDevice::new());
        let first = block(&device, 32, 0);
        let raw = first.handle().to_raw();
        let mut others = Vec::new();
        for _ in 1..owners {
            others.push(first.clone());
        }
        for other in &others {
            assert_eq!(other.handle(), first.handle());
            assert_eq!(other.allocation_size(), 32);
        }
        others.push(first);
        while others.len() > 1 {
            let owner = others.pop().unwrap();
            assert!(!owner.free());
            assert_eq!(device.frees(), Vec::<u64>::new());
        }
        let last = others.pop().unwrap();
        assert!(last.free());
        assert_eq!(device.frees(), vec![raw]);
        assert_eq!(device.allocations().len(), 1);
    }
}

#[test]
fn giving_up_a_clone_first_keeps_the_region() {
    let device = Arc::new(ScriptedDevice::new());
    let first = block(&device, 8, 0);
    let second = first.clone();
    assert!(!second.free());
    assert_eq!(device.frees(), Vec::<u64>::new());
    let view = first.map::<u8>(0, 8, MemoryMapFlags::empty()).unwrap();
    assert_eq!(view.len(), 8);
    first.unmap(view);
    assert!(first.free());
    assert_eq!(device.frees(), vec![0x4001]);
}

#[test]
fn release_hands_device_and_handle_to_the_last_owner_only() {
    let device = Arc::new(ScriptedDevice::new());
    let first = block(&device, 8, 0);
    let second = first.clone();
    let third = second.clone();
    assert!(second.release().is_none());
    assert!(first.release().is_none());
    let (kept, handle) = third.release().unwrap();
    assert!(Arc::ptr_eq(&kept, &device));
    assert_eq!(handle.to_raw(), 0x4001);
    assert_eq!(device.frees(), Vec::<u64>::new());
    assert!(DeviceMemory::free_released(Some((kept, handle))));
    assert_eq!(device.frees(), vec![0x4001]);
}

#[test]
fn free_released_frees_what_it_is_given_and_nothing_else() {
    let device = Arc::new(ScriptedDevice::new());
    assert!(!DeviceMemory::<Arc<ScriptedDevice>>::free_released(None));
    assert_eq!(device.frees(), Vec::<u64>::new());
    let handle = DeviceMemoryHandle::from_raw(0x99);
    assert!(DeviceMemory::free_released(Some((device.clone(), handle))));
    assert_eq!(device.frees(), vec![0x99]);
}

#[test]
fn an_owner_that_is_only_dropped_frees_nothing() {
    let device = Arc::new(ScriptedDevice::new());
    let first = block(&device, 8, 0);
    let second = first.clone();
    drop(first);
    assert_eq!(device.frees(), Vec::<u64>::new());
    assert!(second.free());
    assert_eq!(device.frees(), vec![0x4001]);

    let lone = block(&device, 8, 0);
    drop(lone);
    assert_eq!(device.frees(), vec![0x4001]);
}

#[test]
fn blocks_can_be_shared_between_threads() {
    assert!(is_send_and_sync::<DeviceMemory<Arc<ScriptedDevice>>>());
    assert!(is_send_and_sync::<DeviceMemoryHandle>());
    assert!(is_send_and_sync::<DeviceMemoryBuilder>());
}

#[test]
fn block_keeps_its_device_alive() {
    let device = Arc::new(ScriptedDevice::new());
    let memory = block(&device, 8, 0);
    assert_eq!(Arc::strong_count(&device), 2);
    let other = memory.clone();
    assert_eq!(Arc::strong_count(&device), 2);
    assert!(!memory.free());
    assert_eq!(Arc::strong_count(&device), 2);
    assert!(other.free());
    assert_eq!(Arc::strong_count(&device), 1);
    assert_eq!(device.frees(), vec![0x4001]);
}

#[test]
fn map_of_seven_bytes_as_words_has_one_element() {
    let device = Arc::new(ScriptedDevice::new());
    let memory = block(&device, 64, 0);
    let view: MemoryMapping<u32> = memory.map(0, 7, MemoryMapFlags::empty()).unwrap();
    assert_eq!(view.len(), 1);
    assert!(!view.is_empty());
    assert_eq!(view.address(), HOST_BASE);
    assert_eq!(view.mem_handle(), memory.handle());
    memory.unmap(view);
}

#[test]
fn map_length_is_the_byte_count_divided_by_the_element_size_rounded_down() {
    let device = Arc::new(ScriptedDevice::new());
    let memory = block(&device, 64, 0);
    for size in 0..=64u64 {
        let bytes = memory.map::<u8>(0, size, MemoryMapFlags::empty()).unwrap();
        assert_eq!(bytes.len() as u64, size);
        memory.unmap(bytes);
        let halves = memory.map::<u16>(0, size, MemoryMapFlags::empty()).unwrap();
        assert_eq!(halves.len() as u64, size / 2);
        memory.unmap(halves);
        let words = memory.map::<u32>(0, size, MemoryMapFlags::empty()).unwrap();
        assert_eq!(words.len() as u64, size / 4);
        assert_eq!(words.is_empty(), size < 4);
        memory.unmap(words);
        let longs = memory.map::<u64>(0, size, MemoryMapFlags::empty()).unwrap();
        assert_eq!(longs.len() as u64, size / 8);
        memory.unmap(longs);
        let triples = memory.map::<[u8; 3]>(0, size, MemoryMapFlags::empty()).unwrap();
        assert_eq!(triples.len() as u64, size / 3);
        memory.unmap(triples);
    }
}

#[test]
fn map_hands_handle_range_and_flags_to_the_device() {
    let device = Arc::new(ScriptedDevice::new());
    let memory = block(&device, 64, 0);
    let raw = memory.handle().to_raw();
    let view = memory.map::<u32>(16, 32, MemoryMapFlags::from_bits(5)).unwrap();
    assert_eq!(device.maps(), vec![(raw, 16, 32, 5)]);
    assert_eq!(view.address(), HOST_BASE + 16);
    assert_eq!(view.len(), 8);
    memory.unmap(view);
    assert_eq!(device.unmaps(), vec![raw]);
}

#[test]
fn map_returns_the_devices_refusal() {
    for error in [
        MapError::OutOfHostMemory,
        MapError::OutOfDeviceMemory,
        MapError::MemoryMapFailed,
        MapError::Other(-4),
    ] {
        let device = Arc::new(ScriptedDevice::new());
        let memory = block(&device, 64, 0);
        device.refuse_map(error);
        assert_eq!(memory.map::<u32>(0, 64, MemoryMapFlags::empty()).err(), Some(error));
        assert_eq!(memory.map_to_ptr(0, 64, MemoryMapFlags::empty()), Err(error));
        assert_eq!(device.maps().len(), 2);
        assert_eq!(device.unmaps(), Vec::<u64>::new());
    }
}

#[test]
fn mapping_of_follows_the_outcome() {
    let device = Arc::new(ScriptedDevice::new());
    let memory = block(&device, 64, 0);
    let view = memory.mapping_of::<u32>(Ok(0x9000), 7).unwrap();
    assert_eq!(view.address(), 0x9000);
    assert_eq!(view.len(), 1);
    assert_eq!(view.mem_handle(), memory.handle());
    assert!(memory.owns_mapping(&view));
    let refused = memory.mapping_of::<u32>(Err(MapError::MemoryMapFailed), 7);
    assert_eq!(refused.err(), Some(MapError::MemoryMapFailed));
    assert_eq!(device.maps(), Vec::<(u64, u64, u64, u32)>::new());
}

#[test]
fn map_to_ptr_and_unmap_ptr_pass_the_request_on() {
    let device = Arc::new(ScriptedDevice::new());
    let memory = block(&device, 64, 0);
    let raw = memory.handle().to_raw();
    let address = memory.map_to_ptr(24, 8, MemoryMapFlags::empty()).unwrap();
    assert_eq!(address, HOST_BASE + 24);
    assert_eq!(device.maps(), vec![(raw, 24, 8, 0)]);
    memory.unmap_ptr();
    assert_eq!(device.unmaps(), vec![raw]);
}

#[test]
fn unmap_takes_only_views_of_its_own_block() {
    let device = Arc::new(ScriptedDevice::new());
    let a = block(&device, 64, 0);
    let b = block(&device, 64, 0);
    assert_ne!(a.handle(), b.handle());
    let view = a.map::<u32>(0, 16, MemoryMapFlags::empty()).unwrap();
    assert!(a.owns_mapping(&view));
    assert!(!b.owns_mapping(&view));

    let returned = match b.try_unmap(view) {
        Ok(()) => panic!("a block unmapped the view of another"),
        Err(view) => view,
    };
    assert_eq!(device.unmaps(), Vec::<u64>::new());
    assert_eq!(returned.mem_handle(), a.handle());
    assert_eq!(returned.len(), 4);
    assert_eq!(returned.address(), HOST_BASE);

    assert!(a.try_unmap(returned).is_ok());
    assert_eq!(device.unmaps(), vec![a.handle().to_raw()]);
}

#[test]
fn a_clone_may_unmap_what_its_twin_mapped() {
    let device = Arc::new(ScriptedDevice::new());
    let a = block(&device, 64, 0);
    let twin = a.clone();
    let view = a.map::<u32>(0, 16, MemoryMapFlags::empty()).unwrap();
    assert!(twin.owns_mapping(&view));
    assert!(twin.try_unmap(view).is_ok());
    assert_eq!(device.unmaps(), vec![a.handle().to_raw()]);
}

#[test]
fn written_pattern_is_read_back_after_unmap_and_remap() {
    let device = Arc::new(ScriptedDevice::new());
    let memory = block(&device, 64, 0);
    let pattern = vec![0xdead_beefu32, 0x0123_4567, 0x89ab_cdef, 0xffff_0000];

    let view = memory.map::<u32>(8, 16, MemoryMapFlags::empty()).unwrap();
    assert_eq!(view.len(), pattern.len());
    device.write_u32s(view.address(), &pattern[..view.len()]);
    memory.unmap(view);

    let again = memory.map::<u32>(8, 16, MemoryMapFlags::empty()).unwrap();
    assert_eq!(device.read_u32s(again.address(), again.len()), pattern);
    memory.unmap(again);

    let bytes = device.bytes();
    assert_eq!(&bytes[..8], &[0u8; 8]);
    assert_eq!(&bytes[8..12], &0xdead_beefu32.to_le_bytes());
    assert_eq!(&bytes[24..], &[0u8; 40]);
    assert_eq!(device.unmaps().len(), 2);
}

#[test]
fn contains_range_is_offset_plus_size_within_the_block() {
    let device = Arc::new(ScriptedDevice::new());
    let memory = block(&device, 64, 0);
    assert!(memory.contains_range(0, 0));
    assert!(memory.contains_range(0, 64));
    assert!(memory.contains_range(64, 0));
    assert!(memory.contains_range(63, 1));
    assert!(!memory.contains_range(0, 65));
    assert!(!memory.contains_range(64, 1));
    assert!(!memory.contains_range(65, 0));
    assert!(!memory.contains_range(1, u64::MAX));
    assert!(!memory.contains_range(u64::MAX, 1));
    assert!(!memory.contains_range(u64::MAX, u64::MAX));
}

#[test]
fn owner_and_reference_yield_the_same_handle() {
    let device = Arc::new(ScriptedDevice::new());
    let memory = block(&device, 64, 0);
    let handle = memory.handle();
    assert_eq!(raw_of(handle), 0x4001);
    assert_eq!(raw_of(&memory), 0x4001);
    assert_eq!(raw_of(&memory.clone()), raw_of(memory.handle()));
}

#[test]
fn a_borrowed_device_serves_several_blocks() {
    let device = ScriptedDevice::new();
    {
        let a = DeviceMemory::new(&device, 8, 0).unwrap();
        let b = DeviceMemory::new(&device, 16, 1).unwrap();
        assert_eq!(device.allocations(), vec![(8, 0), (16, 1)]);
        assert!(a.free());
        assert_eq!(device.frees(), vec![0x4001]);
        assert!(b.free());
    }
    assert_eq!(device.frees(), vec![0x4001, 0x4002]);
}
