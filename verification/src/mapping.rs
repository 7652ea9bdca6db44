//! Views of mapped memory.

use vstd::prelude::*;
use vstd::layout::size_of;
use std::marker::PhantomData;
use crate::handle::DeviceMemoryHandle;

verus! {

/// How many whole elements of `element_size` bytes lie in `size_bytes` bytes.
pub open spec fn element_count(size_bytes: nat, element_size: nat) -> nat
    recommends
        element_size > 0,
{
    size_bytes / element_size
}

/// A byte count as the host counts it: the count itself where it fits a host
/// address, and its low bits where it does not.
pub open spec fn host_size(size_bytes: u64) -> usize {
    size_bytes as usize
}

/// The element count is the one number of elements that fits into the bytes
/// while one more does not: what is left over is less than one element.
pub proof fn lemma_element_count_is_floor(size_bytes: nat, element_size: nat, count: nat)
    requires
        element_size > 0,
    ensures
        element_count(size_bytes, element_size) * element_size <= size_bytes,
        size_bytes < (element_count(size_bytes, element_size) + 1) * element_size,
        (count * element_size <= size_bytes < (count + 1) * element_size) ==> count
            == element_count(size_bytes, element_size),
{
    let q = element_count(size_bytes, element_size);
    assert(q * element_size <= size_bytes && size_bytes < (q + 1) * element_size) by {
        vstd::arithmetic::div_mod::lemma_fundamental_div_mod(
            size_bytes as int,
            element_size as int,
        );
        vstd::arithmetic::div_mod::lemma_mod_bound(size_bytes as int, element_size as int);
        assert((q + 1) * element_size == q * element_size + element_size) by (nonlinear_arith);
        assert(element_size * q == q * element_size) by (nonlinear_arith);
    }
    if count * element_size <= size_bytes < (count + 1) * element_size {
        assert(count == q) by (nonlinear_arith)
            requires
                element_size > 0,
                count * element_size <= size_bytes,
                size_bytes < (count + 1) * element_size,
                q * element_size <= size_bytes,
                size_bytes < (q + 1) * element_size,
        ;
    }
}

/// A mapped range of a memory block, seen as elements of type `T`.
///
/// A mapping is made by the block's `map` and ends with the block's `unmap`.
/// It borrows the block and cannot outlive it.
///
/// The number of elements is the number of bytes mapped, as the host counts
/// them, divided by the size of an element and rounded down. Every mapping is
/// made so and stays so.
pub struct MemoryMapping<'m, T> {
    address: usize,
    len: usize,
    mem_handle: DeviceMemoryHandle,
    size_bytes: Ghost<u64>,
    _p: PhantomData<&'m T>,
}

impl<'m, T> MemoryMapping<'m, T> {
    /// The host address where the mapped range starts.
    pub closed spec fn spec_address(&self) -> usize {
        self.address
    }

    /// The number of elements in the view.
    pub closed spec fn spec_len(&self) -> usize {
        self.len
    }

    /// The handle of the block that the range belongs to.
    pub closed spec fn spec_mem_handle(&self) -> DeviceMemoryHandle {
        self.mem_handle
    }

    /// The number of bytes that were mapped.
    pub closed spec fn spec_size_bytes(&self) -> u64 {
        self.size_bytes@
    }

    /// Whether the view holds as many elements as fit wholly into the bytes
    /// that were mapped.
    pub open spec fn well_formed(&self) -> bool {
        self.spec_len() as nat == element_count(
            host_size(self.spec_size_bytes()) as nat,
            size_of::<T>(),
        )
    }

    #[verifier::type_invariant]
    closed spec fn holds_whole_elements(&self) -> bool {
        self.well_formed()
    }

    /// Whether the view is one of a range of `size_bytes` bytes, with the
    /// elements of that range.
    pub open spec fn covers(&self, size_bytes: u64) -> bool {
        self.spec_size_bytes() == size_bytes && self.well_formed()
    }

    /// A view of a range that the host can address holds the number of bytes
    /// divided by the size of an element, rounded down: it stays inside the
    /// range, and leaves less than one element of it out of reach.
    pub proof fn lemma_view_length_is_floor(&self, size_bytes: u64)
        requires
            size_of::<T>() > 0,
            size_bytes <= usize::MAX,
            self.covers(size_bytes),
        ensures
            self.spec_len() as nat == size_bytes as nat / size_of::<T>(),
            self.spec_len() * size_of::<T>() <= size_bytes,
            size_bytes - self.spec_len() * size_of::<T>() < size_of::<T>(),
    {
        lemma_element_count_is_floor(size_bytes as nat, size_of::<T>(), 0);
        assert((self.spec_len() + 1) * size_of::<T>() == self.spec_len() * size_of::<T>()
            + size_of::<T>()) by (nonlinear_arith);
    }

    /// Two views that cover one range hold the same number of elements.
    pub proof fn lemma_same_range_same_len(&self, other: &MemoryMapping<'m, T>, size_bytes: u64)
        requires
            self.covers(size_bytes),
            other.covers(size_bytes),
        ensures
            self.spec_len() == other.spec_len(),
    {
    }

    /// A view of `size_bytes` bytes at `address` that belong to `mem_handle`.
    pub(crate) fn new(address: usize, size_bytes: u64, mem_handle: DeviceMemoryHandle) -> (mapping:
        MemoryMapping<'m, T>)
        requires
            size_of::<T>() > 0,
        ensures
            mapping.spec_address() == address,
            mapping.covers(size_bytes),
            mapping.spec_mem_handle() == mem_handle,
    {
        let len = (#[verifier::truncate] (size_bytes as usize)) / core::mem::size_of::<T>();
        MemoryMapping { address, len, mem_handle, size_bytes: Ghost(size_bytes), _p: PhantomData }
    }

    /// Returns the host address where the mapped range starts.
    #[verifier::when_used_as_spec(spec_address)]
    pub fn address(&self) -> (address: usize)
        ensures
            address == self.spec_address(),
    {
        self.address
    }

    /// Returns the number of elements in the view.
    #[verifier::when_used_as_spec(spec_len)]
    pub fn len(&self) -> (len: usize)
        ensures
            len == self.spec_len(),
            self.well_formed(),
    {
        proof {
            use_type_invariant(self);
        }
        self.len
    }

    /// Tells whether the view holds no element.
    pub fn is_empty(&self) -> (empty: bool)
        ensures
            empty == (self.spec_len() == 0),
            self.well_formed(),
    {
        proof {
            use_type_invariant(self);
        }
        self.len == 0
    }

    /// Returns the handle of the block that the range belongs to.
    #[verifier::when_used_as_spec(spec_mem_handle)]
    pub fn mem_handle(&self) -> (handle: DeviceMemoryHandle)
        ensures
            handle == self.spec_mem_handle(),
    {
        self.mem_handle
    }
}

} // verus!
