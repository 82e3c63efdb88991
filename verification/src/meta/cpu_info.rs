use vstd::prelude::*;

use crate::bit::bit_of;
use crate::bit::bit_of_range;
use crate::bit::spec_field_u32;

verus! {

// Cache topology read out of the CCSIDR_EL1 cache size identification
// register, one level and type at a time, and the MMU state out of
// SCTLR_EL1. Reading the registers themselves takes privileged instructions;
// this module holds the decoding, which is pure arithmetic on their values.

#[derive(Clone, Copy, Debug, PartialEq, Eq, Structural)]
pub enum CacheType {
    Data,
    Instruction,
    Unified,
}

#[derive(Clone, Copy, Debug, PartialEq, Eq, Structural)]
pub enum CacheLevel {
    L1,
    L2,
    L3,
}

/// One cache's decoded geometry and capabilities.
pub struct CacheInfo {
    pub exists: bool,
    pub level: CacheLevel,
    pub cache_type: CacheType,
    pub line_size_bytes: u32,
    pub associativity: u32,
    pub num_sets: u32,
    pub total_size_bytes: u32,
    pub write_alloc_supported: bool,
    pub read_alloc_supported: bool,
    pub write_back_supported: bool,
    pub write_through_supported: bool,
}

/// The line size a CCSIDR_EL1 value declares: two to the power of its low
/// three bits, words of sixteen bytes upward.
pub open spec fn spec_line_size(ccsidr: u32) -> u32 {
    1u32 << ((spec_field_u32(ccsidr, 2, 0) + 4) as u32)
}

/// The associativity a CCSIDR_EL1 value declares.
pub open spec fn spec_associativity(ccsidr: u32) -> u32 {
    (spec_field_u32(ccsidr, 12, 3) + 1) as u32
}

/// The set count a CCSIDR_EL1 value declares.
pub open spec fn spec_num_sets(ccsidr: u32) -> u32 {
    (spec_field_u32(ccsidr, 27, 13) + 1) as u32
}

/// Decodes one cache's CCSIDR_EL1 value: a zero register means the cache
/// does not exist; the geometry fields are position-coded, and the total
/// size is their product.
pub fn read_cache_info(cache_level: CacheLevel, cache_type: CacheType, ccsidr_el1: u32) -> (r:
    CacheInfo)
    ensures
        r.exists == (ccsidr_el1 != 0),
        r.level == cache_level,
        r.cache_type == cache_type,
        r.line_size_bytes == spec_line_size(ccsidr_el1),
        r.associativity == spec_associativity(ccsidr_el1),
        r.num_sets == spec_num_sets(ccsidr_el1),
        r.total_size_bytes == (((spec_line_size(ccsidr_el1) as u64 * spec_associativity(
            ccsidr_el1,
        ) as u64 * spec_num_sets(ccsidr_el1) as u64) as u64) & 0xFFFF_FFFFu64) as u32,
        r.write_alloc_supported == ((ccsidr_el1 >> 28u32) & 1 == 1),
        r.read_alloc_supported == ((ccsidr_el1 >> 29u32) & 1 == 1),
        r.write_back_supported == ((ccsidr_el1 >> 30u32) & 1 == 1),
        r.write_through_supported == ((ccsidr_el1 >> 31u32) & 1 == 1),
{
    let line_exp: u32 = bit_of_range::<2, 0>(ccsidr_el1);
    proof {
        assert(spec_field_u32(ccsidr_el1, 2, 0) < 8 && spec_field_u32(ccsidr_el1, 12, 3) < 1024
            && spec_field_u32(ccsidr_el1, 27, 13) < 32768) by (bit_vector);
    }
    proof {
        assert(1u32 << ((spec_field_u32(ccsidr_el1, 2, 0) + 4) as u32) <= 2048) by (bit_vector);
    }
    let line_size_bytes: u32 = 1u32 << (line_exp + 4);
    let associativity: u32 = bit_of_range::<12, 3>(ccsidr_el1) + 1;
    let num_sets: u32 = bit_of_range::<27, 13>(ccsidr_el1) + 1;
    proof {
        assert(line_size_bytes as int * associativity as int <= 0x20_0000 && line_size_bytes
            as int * associativity as int * num_sets as int
            <= 0x100_0000_0000) by (nonlinear_arith)
            requires
                0 <= line_size_bytes <= 2048,
                0 <= associativity <= 1024,
                0 <= num_sets <= 32768,
        ;
    }
    let total: u64 = line_size_bytes as u64 * associativity as u64 * num_sets as u64;
    let total_size_bytes: u32 = #[verifier::truncate] ((total & 0xFFFF_FFFF) as u32);
    proof {
        assert((total & 0xFFFF_FFFF) < 0x1_0000_0000) by (bit_vector);
    }
    proof {
        assert((ccsidr_el1 >> 28u32) & 1 == 0 || (ccsidr_el1 >> 28u32) & 1 == 1) by (bit_vector);
        assert((ccsidr_el1 >> 29u32) & 1 == 0 || (ccsidr_el1 >> 29u32) & 1 == 1) by (bit_vector);
        assert((ccsidr_el1 >> 30u32) & 1 == 0 || (ccsidr_el1 >> 30u32) & 1 == 1) by (bit_vector);
        assert((ccsidr_el1 >> 31u32) & 1 == 0 || (ccsidr_el1 >> 31u32) & 1 == 1) by (bit_vector);
    }
    CacheInfo {
        exists: ccsidr_el1 != 0,
        level: cache_level,
        cache_type,
        line_size_bytes,
        associativity,
        num_sets,
        total_size_bytes,
        write_alloc_supported: bit_of::<28>(ccsidr_el1) != 0,
        read_alloc_supported: bit_of::<29>(ccsidr_el1) != 0,
        write_back_supported: bit_of::<30>(ccsidr_el1) != 0,
        write_through_supported: bit_of::<31>(ccsidr_el1) != 0,
    }
}

/// The memory model: the surveyed caches and the stage 1 MMU state.
pub struct MemoryModel {
    pub cache: Vec<CacheInfo>,
    pub mmu_enabled: bool,
}

/// Assembles the memory model from the four cache surveys this board takes
/// -- L1 data, L1 instruction, unified L2 and L3 -- and the system control
/// register, whose bit 0 is the stage 1 MMU enable.
pub fn get_memory_model(
    ccsidr_l1_data: u32,
    ccsidr_l1_instr: u32,
    ccsidr_l2: u32,
    ccsidr_l3: u32,
    sctrl_el1: u32,
) -> (r: MemoryModel)
    ensures
        r.cache@.len() == 4,
        r.cache@[0] == read_cache_info_spec(CacheLevel::L1, CacheType::Data, ccsidr_l1_data),
        r.cache@[1] == read_cache_info_spec(CacheLevel::L1, CacheType::Instruction, ccsidr_l1_instr),
        r.cache@[2] == read_cache_info_spec(CacheLevel::L2, CacheType::Unified, ccsidr_l2),
        r.cache@[3] == read_cache_info_spec(CacheLevel::L3, CacheType::Unified, ccsidr_l3),
        r.mmu_enabled == ((sctrl_el1 >> 0u32) & 1 == 1),
{
    let mut cache: Vec<CacheInfo> = Vec::new();
    cache.push(read_cache_info(CacheLevel::L1, CacheType::Data, ccsidr_l1_data));
    cache.push(read_cache_info(CacheLevel::L1, CacheType::Instruction, ccsidr_l1_instr));
    cache.push(read_cache_info(CacheLevel::L2, CacheType::Unified, ccsidr_l2));
    cache.push(read_cache_info(CacheLevel::L3, CacheType::Unified, ccsidr_l3));
    let mmu_enabled: bool = bit_of::<0>(sctrl_el1) != 0;
    proof {
        assert((sctrl_el1 >> 0u32) & 1 == 0 || (sctrl_el1 >> 0u32) & 1 == 1) by (bit_vector);
    }
    MemoryModel { cache, mmu_enabled }
}

/// The cache survey [`read_cache_info`] yields, as a value.
pub open spec fn read_cache_info_spec(
    cache_level: CacheLevel,
    cache_type: CacheType,
    ccsidr: u32,
) -> CacheInfo {
    CacheInfo {
        exists: ccsidr != 0,
        level: cache_level,
        cache_type,
        line_size_bytes: spec_line_size(ccsidr),
        associativity: spec_associativity(ccsidr),
        num_sets: spec_num_sets(ccsidr),
        total_size_bytes: (((spec_line_size(ccsidr) as u64 * spec_associativity(ccsidr) as u64
            * spec_num_sets(ccsidr) as u64) as u64) & 0xFFFF_FFFFu64) as u32,
        write_alloc_supported: (ccsidr >> 28u32) & 1 == 1,
        read_alloc_supported: (ccsidr >> 29u32) & 1 == 1,
        write_back_supported: (ccsidr >> 30u32) & 1 == 1,
        write_through_supported: (ccsidr >> 31u32) & 1 == 1,
    }
}

} // verus!
