//! The leaves that the rewrites know, and the bit fields in them.
//!
//! A field is given by the index of its most significant bit (`_MSB`) and of
//! its least significant bit (`_LSB`), a flag by the index of its bit.

use vstd::prelude::*;

verus! {

/// Basic feature information.
pub const LEAF_FEATURE_INFO: u32 = 0x1;

/// In `ebx` of the feature information: size of a cache line flush, in
/// units of 8 bytes.
pub const FEATURE_INFO_CLFLUSH_SIZE_MSB: u32 = 15;

pub const FEATURE_INFO_CLFLUSH_SIZE_LSB: u32 = 8;

/// In `ebx` of the feature information: number of logical processor ids
/// that the package can address.
pub const FEATURE_INFO_CPU_COUNT_MSB: u32 = 23;

pub const FEATURE_INFO_CPU_COUNT_LSB: u32 = 16;

/// In `ebx` of the feature information: the APIC id of the processor.
pub const FEATURE_INFO_APICID_MSB: u32 = 31;

pub const FEATURE_INFO_APICID_LSB: u32 = 24;

/// The cache line flush size that every guest is shown: 64 bytes.
pub const CLFLUSH_CACHELINE: u32 = 8;

/// In `ecx` of the feature information: the processor counts its
/// performance and debug capabilities in an MSR.
pub const FEATURE_INFO_PDCM: u32 = 15;

/// In `ecx` of the feature information: the local APIC has a TSC deadline
/// timer.
pub const FEATURE_INFO_TSC_DEADLINE_TIMER: u32 = 24;

/// In `ecx` of the feature information: the code runs under a hypervisor.
pub const FEATURE_INFO_HYPERVISOR: u32 = 31;

/// In `edx` of the feature information: the package holds more than one
/// logical processor.
pub const FEATURE_INFO_HTT: u32 = 28;

/// Deterministic cache parameters of Intel processors.
pub const LEAF_DETERMINISTIC_CACHE: u32 = 0x4;

/// Cache topology of AMD processors, laid out as the deterministic cache
/// parameters are.
pub const LEAF_EXTENDED_CACHE_TOPOLOGY: u32 = 0x8000_001d;

/// In `eax` of a cache leaf: the level of the cache.
pub const CACHE_LEVEL_MSB: u32 = 7;

pub const CACHE_LEVEL_LSB: u32 = 5;

/// In `eax` of a cache leaf: number of logical processors that share the
/// cache, less one.
pub const CACHE_MAX_CPUS_PER_CORE_MSB: u32 = 25;

pub const CACHE_MAX_CPUS_PER_CORE_LSB: u32 = 14;

/// In `eax` of the deterministic cache parameters: number of cores in the
/// package, less one.
pub const CACHE_MAX_CORES_PER_PACKAGE_MSB: u32 = 31;

pub const CACHE_MAX_CORES_PER_PACKAGE_LSB: u32 = 26;

/// Thermal and power management.
pub const LEAF_POWER_MANAGEMENT: u32 = 0x6;

/// In `eax` of the power management leaf: turbo boost is available.
pub const POWER_MANAGEMENT_TURBO_BOOST: u32 = 1;

/// In `ecx` of the power management leaf: the energy performance bias can be
/// set.
pub const POWER_MANAGEMENT_EPB: u32 = 3;

/// Structured extended feature flags.
pub const LEAF_STRUCTURED_EXTENDED: u32 = 0x7;

/// In `edx` of the structured extended feature flags, sub-leaf 0: the
/// processor has the architectural capabilities MSR.
pub const STRUCTURED_EXTENDED_ARCH_CAPABILITIES: u32 = 29;

/// Architectural performance monitoring.
pub const LEAF_PERF_MON: u32 = 0xa;

/// Extended topology enumeration.
pub const LEAF_EXTENDED_TOPOLOGY: u32 = 0xb;

/// In `eax` of the extended topology: bits to shift the x2APIC id right by
/// to get the id of the next level.
pub const EXTENDED_TOPOLOGY_APICID_MSB: u32 = 4;

pub const EXTENDED_TOPOLOGY_APICID_LSB: u32 = 0;

/// In `ebx` of the extended topology: number of logical processors at this
/// level.
pub const EXTENDED_TOPOLOGY_NUM_LOGICAL_PROCESSORS_MSB: u32 = 15;

pub const EXTENDED_TOPOLOGY_NUM_LOGICAL_PROCESSORS_LSB: u32 = 0;

/// In `ecx` of the extended topology: the number of the level.
pub const EXTENDED_TOPOLOGY_LEVEL_NUMBER_MSB: u32 = 7;

pub const EXTENDED_TOPOLOGY_LEVEL_NUMBER_LSB: u32 = 0;

/// In `ecx` of the extended topology: the type of the level.
pub const EXTENDED_TOPOLOGY_LEVEL_TYPE_MSB: u32 = 15;

pub const EXTENDED_TOPOLOGY_LEVEL_TYPE_LSB: u32 = 8;

/// Type of the level of the logical processors of one core.
pub const LEVEL_TYPE_THREAD: u32 = 1;

/// Type of the level of the cores of one package.
pub const LEVEL_TYPE_CORE: u32 = 2;

/// Shift that takes an x2APIC id to the id of its package. A package holds
/// all the logical processors of a guest, whose ids fit seven bits.
pub const CORE_LEVEL_APICID_SHIFT: u32 = 7;

/// Largest extended function that the processor answers.
pub const LEAF_LARGEST_EXTENDED_FN: u32 = 0x8000_0000;

/// The largest extended function that an AMD guest is shown.
pub const LARGEST_EXTENDED_FN: u32 = 0x8000_001f;

/// Extended feature information.
pub const LEAF_EXTENDED_FEATURE_INFO: u32 = 0x8000_0001;

/// In `ecx` of the extended feature information: the topology leaves of AMD
/// are there.
pub const EXTENDED_FEATURE_INFO_TOPOEXT: u32 = 22;

/// Sizes and counts of an AMD processor.
pub const LEAF_AMD_FEATURES: u32 = 0x8000_0008;

/// In `ecx` of the AMD sizes: number of threads in the package, less one.
pub const AMD_FEATURES_NUM_THREADS_MSB: u32 = 7;

pub const AMD_FEATURES_NUM_THREADS_LSB: u32 = 0;

/// In `ecx` of the AMD sizes: number of bits of an APIC id that tell the
/// threads of a package apart.
pub const AMD_FEATURES_THREAD_ID_SIZE_MSB: u32 = 15;

pub const AMD_FEATURES_THREAD_ID_SIZE_LSB: u32 = 12;

/// The thread id size that an AMD guest is shown: room for 128 threads.
pub const THREAD_ID_MAX_SIZE: u32 = 7;

/// Extended APIC id of AMD processors.
pub const LEAF_EXTENDED_APIC_ID: u32 = 0x8000_001e;

/// In `ebx` of the extended APIC id: the id of the core.
pub const EXTENDED_APIC_ID_CORE_ID_MSB: u32 = 7;

pub const EXTENDED_APIC_ID_CORE_ID_LSB: u32 = 0;

/// In `ebx` of the extended APIC id: number of threads of the core, less
/// one.
pub const EXTENDED_APIC_ID_THREADS_PER_CORE_MSB: u32 = 15;

pub const EXTENDED_APIC_ID_THREADS_PER_CORE_LSB: u32 = 8;

} // verus!
