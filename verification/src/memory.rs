use vstd::prelude::*;

verus! {

/// Number of memory types a device can report at most.
pub const MAX_MEMORY_TYPES: u32 = 32;

/// Whether memory type `index`, with property flags `property_flags`, is allowed
/// by the resource (bit `index` of `memory_type_bits`) and has every property of
/// `flags`.
pub open spec fn memory_type_suits(memory_type_bits: u32, property_flags: u32, flags: u32, index: u32) -> bool {
    &&& (1u32 << index) & memory_type_bits != 0
    &&& property_flags & flags == flags
}

/// The first of the device's `memory_type_count` memory types (with property
/// flags `property_flags`) that the resource allows and that has every
/// property of `flags`, or `None` when there is none.
pub fn find_memory_type_index(
    memory_type_bits: u32,
    property_flags: &Vec<u32>,
    memory_type_count: u32,
    flags: u32,
) -> (r: Option<u32>)
    requires
        memory_type_count <= MAX_MEMORY_TYPES,
        memory_type_count <= property_flags.len(),
    ensures
        match r {
            Some(i) => {
                &&& i < memory_type_count
                &&& memory_type_suits(memory_type_bits, property_flags@[i as int], flags, i)
                &&& forall|j: u32| j < i ==> !#[trigger] memory_type_suits(memory_type_bits, property_flags@[j as int], flags, j)
            },
            None => forall|j: u32| j < memory_type_count ==> !#[trigger] memory_type_suits(
                memory_type_bits,
                property_flags@[j as int],
                flags,
                j,
            ),
        },
{
    let mut index: u32 = 0;
    while index < memory_type_count
        invariant
            index <= memory_type_count,
            memory_type_count <= MAX_MEMORY_TYPES,
            memory_type_count <= property_flags.len(),
            forall|j: u32| j < index ==> !#[trigger] memory_type_suits(memory_type_bits, property_flags@[j as int], flags, j),
        decreases memory_type_count - index,
    {
        let props = property_flags[index as usize];
        if (1u32 << index) & memory_type_bits != 0 && props & flags == flags {
            return Some(index);
        }
        index = index + 1;
    }
    None
}

} // verus!
