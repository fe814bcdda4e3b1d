//! Choice of a memory type for a resource allocation.
use vstd::prelude::*;
use crate::flags::{contains, has_bits};

verus! {

/// The largest number of memory types that a device reports.
pub const MAX_MEMORY_TYPES: usize = 32;

/// What a resource asks of its memory: one bit per memory type it may live in.
#[derive(Clone, Copy, Debug, PartialEq, Eq)]
pub struct MemoryRequirements {
    pub size: u64,
    pub memory_type_bits: u32,
}

/// The memory types of a device, each given by its property flags.
#[derive(Clone, Debug)]
pub struct MemoryProperties {
    pub memory_type_flags: Vec<u32>,
}

/// Bit `i` of `type_bits` is set.
pub open spec fn type_allowed(type_bits: u32, i: int) -> bool {
    type_bits & (1u32 << (i as u32)) != 0
}

/// Memory type `i` may back the resource and has every flag asked for.
pub open spec fn memory_type_suitable(req: MemoryRequirements, types: Seq<u32>, flags: u32, i: int) -> bool {
    &&& type_allowed(req.memory_type_bits, i)
    &&& has_bits(types[i], flags)
}

/// Finds the first memory type that the requirements allow and whose
/// properties include all of `flags`.
pub fn find_memorytype_index(
    memory_req: &MemoryRequirements,
    memory_prop: &MemoryProperties,
    flags: u32,
) -> (r: Option<u32>)
    requires
        memory_prop.memory_type_flags@.len() <= MAX_MEMORY_TYPES,
    ensures
        r matches Some(i) ==> {
            &&& i < memory_prop.memory_type_flags@.len()
            &&& memory_type_suitable(*memory_req, memory_prop.memory_type_flags@, flags, i as int)
            &&& forall|j: int| 0 <= j < i ==> !memory_type_suitable(*memory_req, memory_prop.memory_type_flags@, flags, j)
        },
        r is None ==> forall|j: int| 0 <= j < memory_prop.memory_type_flags@.len()
            ==> !memory_type_suitable(*memory_req, memory_prop.memory_type_flags@, flags, j),
{
    let types = &memory_prop.memory_type_flags;
    let mut i: usize = 0;
    while i < types.len()
        invariant
            types@ == memory_prop.memory_type_flags@,
            types@.len() <= MAX_MEMORY_TYPES,
            i <= types@.len(),
            forall|j: int| 0 <= j < i ==> !memory_type_suitable(*memory_req, types@, flags, j),
        decreases types@.len() - i,
    {
        let bit: u32 = 1u32 << (i as u32);
        if memory_req.memory_type_bits & bit != 0 && contains(types[i], flags) {
            return Some(i as u32);
        }
        i += 1;
    }
    None
}

} // verus!
