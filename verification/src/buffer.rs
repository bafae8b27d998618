//! The GPU buffer model: alignment and size arithmetic, the mapped state,
//! and the per-instance addressing used for uniform buffer arrays.  The
//! driver-side allocation, mapping and copying are performed by the
//! application layer at the offsets and sizes computed here.

use vstd::prelude::*;

verus! {

/// What a buffer is used for; decides logging and teardown on the driver
/// side.
#[derive(Clone, Copy, Debug, PartialEq, Eq, Structural)]
pub enum BufferType {
    Staging,
    Vertex,
    Index,
    Uniform,
}

/// The inputs to `get_alignment` are sane: the minimum offset alignment is
/// zero or a power of two (as the Vulkan limits guarantee), and rounding
/// up cannot overflow.
pub open spec fn spec_alignment_args_ok(instance_size: u64, min_offset_alignment: u64) -> bool {
    &&& min_offset_alignment == 0 || min_offset_alignment & ((min_offset_alignment - 1) as u64)
        == 0u64
    &&& instance_size + min_offset_alignment <= u64::MAX
}

/// One instance's size rounded up to the device's minimum offset
/// alignment: the unique multiple of `min_offset_alignment` in
/// `[instance_size, instance_size + min_offset_alignment)`, or the size
/// itself when no alignment is required.
#[verifier::rlimit(100)]
pub fn get_alignment(instance_size: u64, min_offset_alignment: u64) -> (r: u64)
    requires
        spec_alignment_args_ok(instance_size, min_offset_alignment),
    ensures
        min_offset_alignment == 0 ==> r == instance_size,
        min_offset_alignment > 0 ==> {
            &&& r % min_offset_alignment == 0
            &&& instance_size <= r < instance_size + min_offset_alignment
        },
{
    if min_offset_alignment > 0 {
        let sum = instance_size + min_offset_alignment - 1;
        let masked = sum & !(min_offset_alignment - 1);
        proof {
            let m = min_offset_alignment;
            let x = instance_size;
            assert(masked >= x && masked < x + m) by (bit_vector)
                requires
                    m > 0,
                    m & ((m - 1) as u64) == 0u64,
                    sum == x + m - 1,
                    masked == sum & !((m - 1) as u64),
            ;
            assert(masked == masked & !((m - 1) as u64)) by (bit_vector)
                requires
                    masked == sum & !((m - 1) as u64),
            ;
            assert(masked % m == 0) by (bit_vector)
                requires
                    m > 0,
                    m & ((m - 1) as u64) == 0u64,
                    masked == masked & !((m - 1) as u64),
            ;
        }
        masked
    } else {
        instance_size
    }
}

/// The buffer model: the sizes and counts a buffer was created with and
/// whether its memory is currently mapped into host address space.  The
/// driver handles (buffer, memory) are owned by the application layer.
pub struct LveBuffer {
    /// Total allocation size: `alignment_size * instance_count`.
    pub buffer_size: u64,
    /// How many instances the buffer holds.
    pub instance_count: u32,
    /// The size of one instance's data.
    pub instance_size: u64,
    /// One instance's slot size: `instance_size` rounded up to the minimum
    /// offset alignment.
    pub alignment_size: u64,
    /// Whether the memory is mapped; writes require a mapped buffer.
    pub mapped: bool,
    pub usage_flags: u32,
    pub memory_property_flags: u32,
    pub buffer_type: BufferType,
}

impl LveBuffer {
    /// Well-formedness: each instance fits in its slot and the buffer holds
    /// exactly `instance_count` slots.
    pub open spec fn wf(&self) -> bool {
        &&& self.instance_size <= self.alignment_size
        &&& self.buffer_size == self.alignment_size * self.instance_count
    }

    /// A new, unmapped buffer for `instance_count` instances of
    /// `instance_size` bytes, each slot aligned to `min_offset_alignment`
    /// (1 for vertex and index buffers, the device's uniform alignment for
    /// uniform buffers).  The caller allocates `buffer_size` bytes of
    /// driver memory for it.
    pub fn new(
        instance_size: u64,
        instance_count: u32,
        usage_flags: u32,
        memory_property_flags: u32,
        min_offset_alignment: u64,
        buffer_type: BufferType,
    ) -> (r: LveBuffer)
        requires
            spec_alignment_args_ok(instance_size, min_offset_alignment),
            (instance_size + min_offset_alignment) * instance_count <= u64::MAX,
        ensures
            r.wf(),
            !r.mapped,
            r.instance_size == instance_size,
            r.instance_count == instance_count,
            r.usage_flags == usage_flags,
            r.memory_property_flags == memory_property_flags,
            r.buffer_type == buffer_type,
            min_offset_alignment == 0 ==> r.alignment_size == instance_size,
            min_offset_alignment > 0 ==> {
                &&& r.alignment_size % min_offset_alignment == 0
                &&& instance_size <= r.alignment_size < instance_size + min_offset_alignment
            },
            r.buffer_size == r.alignment_size * instance_count,
    {
        let alignment_size = get_alignment(instance_size, min_offset_alignment);
        proof {
            assert(alignment_size * instance_count <= (instance_size + min_offset_alignment)
                * instance_count) by (nonlinear_arith)
                requires
                    alignment_size <= instance_size + min_offset_alignment,
                    instance_count >= 0,
            ;
        }
        let buffer_size = alignment_size * (instance_count as u64);
        LveBuffer {
            buffer_size,
            instance_count,
            instance_size,
            alignment_size,
            mapped: false,
            usage_flags,
            memory_property_flags,
            buffer_type,
        }
    }

    /// Map the buffer's memory into host address space.
    pub fn map(&mut self)
        ensures
            *final(self) == (LveBuffer { mapped: true, ..*old(self) }),
    {
        self.mapped = true;
    }

    /// Unmap the buffer's memory; a no-op when it is not mapped.
    pub fn unmap(&mut self)
        ensures
            *final(self) == (LveBuffer { mapped: false, ..*old(self) }),
    {
        self.mapped = false;
    }

    /// The byte offset of instance `index`: `index * alignment_size`.  The
    /// instance's data always fits inside the buffer.
    pub fn index_offset(&self, index: u64) -> (r: u64)
        requires
            self.wf(),
            index < self.instance_count,
        ensures
            r == index * self.alignment_size,
            r + self.instance_size <= self.buffer_size,
            r + self.alignment_size <= self.buffer_size,
    {
        proof {
            assert((index + 1) * self.alignment_size <= self.instance_count as u64
                * self.alignment_size) by (nonlinear_arith)
                requires
                    index + 1 <= self.instance_count,
                    self.alignment_size >= 0,
            ;
            assert((index + 1) * self.alignment_size == index * self.alignment_size
                + self.alignment_size) by (nonlinear_arith);
            assert(self.alignment_size * self.instance_count == self.instance_count as u64
                * self.alignment_size) by (nonlinear_arith);
        }
        index * self.alignment_size
    }

    /// Where to copy `instance_size` bytes for instance `index`: the
    /// buffer must be mapped, and the returned offset is `index *
    /// alignment_size`, in bounds.
    pub fn write_to_index(&self, index: u64) -> (r: u64)
        requires
            self.wf(),
            self.mapped,
            index < self.instance_count,
        ensures
            r == index * self.alignment_size,
            r + self.instance_size <= self.buffer_size,
    {
        self.index_offset(index)
    }

    /// The memory range to flush for instance `index`: offset `index *
    /// alignment_size`, size `alignment_size`, in bounds.
    pub fn flush_index(&self, index: u64) -> (r: (u64, u64))
        requires
            self.wf(),
            index < self.instance_count,
        ensures
            r.0 == index * self.alignment_size,
            r.1 == self.alignment_size,
            r.0 + r.1 <= self.buffer_size,
    {
        (self.index_offset(index), self.alignment_size)
    }

    /// The memory range to invalidate for instance `index`: the same range
    /// `flush_index` returns.
    pub fn invalidate_index(&self, index: u64) -> (r: (u64, u64))
        requires
            self.wf(),
            index < self.instance_count,
        ensures
            r.0 == index * self.alignment_size,
            r.1 == self.alignment_size,
            r.0 + r.1 <= self.buffer_size,
    {
        (self.index_offset(index), self.alignment_size)
    }

    /// The descriptor range for instance `index`: offset `index *
    /// alignment_size`, size `alignment_size`, in bounds.
    pub fn descriptor_info_for_index(&self, index: u64) -> (r: (u64, u64))
        requires
            self.wf(),
            index < self.instance_count,
        ensures
            r.0 == index * self.alignment_size,
            r.1 == self.alignment_size,
            r.0 + r.1 <= self.buffer_size,
    {
        (self.index_offset(index), self.alignment_size)
    }
}

} // verus!
