//! The resource builder's plans: what the two buffers and the fixed binding
//! layout must look like.  Both buffers hold exactly one 32-bit scalar; the
//! device-local one is the kernel's write target and the copy source, the
//! host-visible one is the copy destination and the only mappable memory.

use vstd::prelude::*;

verus! {

/// Size in bytes of the one value the kernel writes: a 32-bit unsigned
/// integer.
pub const RESULT_SIZE: u64 = 4;

/// How a buffer is to be allocated: its size and the capabilities it needs.
pub struct BufferPlan {
    /// Size of the allocation in bytes.
    pub size: u64,
    /// The kernel may write it as a storage buffer.
    pub storage: bool,
    /// A copy command may read from it.
    pub copy_src: bool,
    /// The host may map it for reading.
    pub map_read: bool,
    /// A copy command may write into it.
    pub copy_dst: bool,
    /// Whether the buffer starts life mapped.
    pub mapped_at_creation: bool,
}

/// The device-local buffer: the kernel's write target and the copy source,
/// exactly one scalar wide, never host-mappable, born unmapped.
pub open spec fn device_buffer_ok(p: BufferPlan) -> bool {
    &&& p.size == RESULT_SIZE
    &&& p.storage
    &&& p.copy_src
    &&& !p.map_read
    &&& !p.copy_dst
    &&& !p.mapped_at_creation
}

/// The host-visible buffer: the copy destination and the only mappable
/// memory, exactly one scalar wide, never a kernel target, born unmapped.
pub open spec fn host_buffer_ok(p: BufferPlan) -> bool {
    &&& p.size == RESULT_SIZE
    &&& !p.storage
    &&& !p.copy_src
    &&& p.map_read
    &&& p.copy_dst
    &&& !p.mapped_at_creation
}

/// Plan for the device-local storage buffer the kernel writes.
pub fn device_buffer_plan() -> (p: BufferPlan)
    ensures
        device_buffer_ok(p),
{
    BufferPlan {
        size: RESULT_SIZE,
        storage: true,
        copy_src: true,
        map_read: false,
        copy_dst: false,
        mapped_at_creation: false,
    }
}

/// Plan for the host-visible readback buffer the run maps and decodes.
pub fn host_buffer_plan() -> (p: BufferPlan)
    ensures
        host_buffer_ok(p),
{
    BufferPlan {
        size: RESULT_SIZE,
        storage: false,
        copy_src: false,
        map_read: true,
        copy_dst: true,
        mapped_at_creation: false,
    }
}

/// The fixed binding layout: the storage buffer sits at one known slot of one
/// known bind group, and the kernel has one externally defined entry point.
pub struct BindingPlan {
    /// Index of the bind group the dispatch binds.
    pub group: u32,
    /// Slot within that group holding the storage buffer.
    pub slot: u32,
    /// Name of the kernel's entry point.
    pub entry_point: String,
}

/// The one binding the pipeline uses: group 0, slot 0, entry point `main`.
pub open spec fn binding_ok(p: BindingPlan) -> bool {
    &&& p.group == 0
    &&& p.slot == 0
    &&& p.entry_point@ == "main"@
}

/// Plan for the single-slot binding layout derived from the kernel.
pub fn binding_plan() -> (p: BindingPlan)
    ensures
        binding_ok(p),
{
    BindingPlan { group: 0, slot: 0, entry_point: "main".to_owned() }
}

} // verus!
