//! How the buffers of the engine are created and filled.
//!
//! Data that changes with every frame lives in memory the host can write to
//! directly. Data that is written once lives in memory local to the device and
//! is filled by way of a staging buffer.

use crate::codes::{
    memory_device_local, memory_device_local_bit, memory_host_coherent, memory_host_coherent_bit,
    memory_host_visible, memory_host_visible_bit, usage_index_buffer, usage_index_buffer_bit,
    usage_transfer_dst, usage_transfer_dst_bit, usage_transfer_src, usage_transfer_src_bit,
    usage_uniform_buffer, usage_uniform_buffer_bit, usage_vertex_buffer, usage_vertex_buffer_bit,
};
use vstd::prelude::*;

verus! {

/// What a buffer is for.
#[derive(Clone, Copy, PartialEq, Eq, Structural, Debug)]
pub enum BufferRole {
    Vertex,
    Index,
    Uniform,
    Staging,
}

/// How data gets into a buffer.
#[derive(Clone, Copy, PartialEq, Eq, Structural, Debug)]
pub enum UploadStrategy {
    /// The host maps the memory and writes to it.
    MapDirectly,
    /// The host writes to a staging buffer; a one-shot command buffer copies
    /// it over and is waited for; the staging buffer is freed.
    StageAndCopy,
}

/// What a buffer is created with: its uses and the properties of its memory,
/// as bit sets, and the way it is filled.
#[derive(Clone, Copy, PartialEq, Eq, Structural, Debug)]
pub struct BufferPlan {
    pub usage: u32,
    pub memory_properties: u32,
    pub strategy: UploadStrategy,
}

/// The way a buffer is filled, given the properties of its memory: directly
/// where the host can see the memory, else by way of a staging buffer.
pub open spec fn strategy_for(memory_properties: u32) -> UploadStrategy {
    if memory_properties & memory_host_visible_bit() != 0 {
        UploadStrategy::MapDirectly
    } else {
        UploadStrategy::StageAndCopy
    }
}

/// What a buffer of each role is created with.
pub open spec fn planned_buffer(role: BufferRole) -> BufferPlan {
    match role {
        BufferRole::Vertex => BufferPlan {
            usage: 0x82,
            memory_properties: 0x1,
            strategy: UploadStrategy::StageAndCopy,
        },
        BufferRole::Index => BufferPlan {
            usage: 0x42,
            memory_properties: 0x1,
            strategy: UploadStrategy::StageAndCopy,
        },
        BufferRole::Uniform => BufferPlan {
            usage: 0x10,
            memory_properties: 0x6,
            strategy: UploadStrategy::MapDirectly,
        },
        BufferRole::Staging => BufferPlan {
            usage: 0x1,
            memory_properties: 0x6,
            strategy: UploadStrategy::MapDirectly,
        },
    }
}

/// The memory type at position `at` can back a buffer: the buffer accepts it
/// (its bit is set in `type_bits`) and it has every required property.
pub open spec fn memory_type_fits(
    type_bits: u32,
    required: u32,
    memory_types: Seq<u32>,
    at: int,
) -> bool {
    &&& 0 <= at < memory_types.len()
    &&& at < 32
    &&& type_bits & (1u32 << (at as u32)) != 0
    &&& memory_types[at] & required == required
}

/// Decides how a buffer is filled from the properties of its memory.
pub fn choose_strategy(memory_properties: u32) -> (strategy: UploadStrategy)
    ensures
        strategy == strategy_for(memory_properties),
{
    if (memory_properties & memory_host_visible()) != 0 {
        UploadStrategy::MapDirectly
    } else {
        UploadStrategy::StageAndCopy
    }
}

/// Plans the buffer of a role: vertex and index data go to device-local memory
/// by way of a staging buffer; uniform data and staging buffers are written
/// by the host.
pub fn plan_buffer(role: BufferRole) -> (plan: BufferPlan)
    ensures
        plan == planned_buffer(role),
        plan.strategy == strategy_for(plan.memory_properties),
{
    let transfer_src = usage_transfer_src();
    let transfer_dst = usage_transfer_dst();
    let uniform = usage_uniform_buffer();
    let index = usage_index_buffer();
    let vertex = usage_vertex_buffer();
    let device_local = memory_device_local();
    let host_visible = memory_host_visible();
    let host_coherent = memory_host_coherent();
    let host = host_visible | host_coherent;
    let (usage, memory_properties) = match role {
        BufferRole::Vertex => (transfer_dst | vertex, device_local),
        BufferRole::Index => (transfer_dst | index, device_local),
        BufferRole::Uniform => (uniform, host),
        BufferRole::Staging => (transfer_src, host),
    };
    assert(host == 0x6 && host & 0x2 != 0 && 0x1u32 & 0x2 == 0 && 0x2u32 | 0x80 == 0x82 && 0x2u32
        | 0x40 == 0x42) by (bit_vector)
        requires
            host == 0x2u32 | 0x4u32,
    ;
    BufferPlan { usage, memory_properties, strategy: choose_strategy(memory_properties) }
}

/// Finds the first memory type that can back a buffer: one the buffer accepts
/// and that has every required property. `None` where there is none.
pub fn find_memory_type(type_bits: u32, required: u32, memory_types: &Vec<u32>) -> (found: Option<
    u32,
>)
    ensures
        found matches Some(at) ==> memory_type_fits(type_bits, required, memory_types@, at as int)
            && forall|j: int| 0 <= j < at ==> !memory_type_fits(type_bits, required, memory_types@, j),
        found is None ==> forall|j: int| !memory_type_fits(type_bits, required, memory_types@, j),
{
    let mut i: u32 = 0;
    while i < 32 && (i as usize) < memory_types.len()
        invariant
            i <= 32,
            i <= memory_types@.len(),
            forall|j: int| 0 <= j < i ==> !memory_type_fits(type_bits, required, memory_types@, j),
        decreases 32 - i,
    {
        if (type_bits & (1u32 << i)) != 0 && (memory_types[i as usize] & required) == required {
            return Some(i);
        }
        i = i + 1;
    }
    None
}

} // verus!
