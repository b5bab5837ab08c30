//! The leaf rewrites that do not differ by vendor.

use vstd::prelude::*;
use crate::bit_helper::field_max;
use crate::bit_helper::field_of;
use crate::bit_helper::is_field;
use crate::bit_helper::read_bits_in_range;
use crate::bit_helper::with_bit;
use crate::bit_helper::with_field;
use crate::bit_helper::write_bit;
use crate::bit_helper::write_bits_in_range;
use crate::brand_string::Reg;
use crate::cpu_leaf::CACHE_LEVEL_LSB;
use crate::cpu_leaf::CACHE_LEVEL_MSB;
use crate::cpu_leaf::CACHE_MAX_CPUS_PER_CORE_LSB;
use crate::cpu_leaf::CACHE_MAX_CPUS_PER_CORE_MSB;
use crate::cpu_leaf::CLFLUSH_CACHELINE;
use crate::cpu_leaf::CORE_LEVEL_APICID_SHIFT;
use crate::cpu_leaf::FEATURE_INFO_APICID_LSB;
use crate::cpu_leaf::FEATURE_INFO_APICID_MSB;
use crate::cpu_leaf::FEATURE_INFO_CLFLUSH_SIZE_LSB;
use crate::cpu_leaf::FEATURE_INFO_CLFLUSH_SIZE_MSB;
use crate::cpu_leaf::FEATURE_INFO_CPU_COUNT_LSB;
use crate::cpu_leaf::FEATURE_INFO_CPU_COUNT_MSB;
use crate::cpu_leaf::FEATURE_INFO_HTT;
use crate::cpu_leaf::FEATURE_INFO_HYPERVISOR;
use crate::cpu_leaf::FEATURE_INFO_TSC_DEADLINE_TIMER;
use crate::cpu_leaf::LEVEL_TYPE_CORE;
use crate::cpu_leaf::LEVEL_TYPE_THREAD;
use crate::common::get_cpuid;
use crate::common::CpuidRegisters;
use crate::kvm::other_functions;
use crate::kvm::CpuId;
use crate::kvm::CpuidEntry;
use crate::kvm::FamError;
use crate::kvm::MAX_CPUID_ENTRIES;
use crate::transformer::Error;
use crate::transformer::VmSpec;

verus! {

/// What a write of `value` to the bits `lsb..=msb` of `reg` gives.
pub open spec fn spec_write_field(reg: u32, msb: u32, lsb: u32, value: u32) -> Result<u32, Error> {
    if is_field(msb, lsb) && value <= field_max(msb, lsb) {
        Ok(with_field(reg, msb, lsb, value))
    } else {
        Err(Error::InternalError(crate::common::Error::InvalidParameters))
    }
}

/// Writes `value` to the bits `lsb..=msb` of `reg`; what the bit helper
/// refuses is an internal error.
pub fn write_field(reg: u32, msb: u32, lsb: u32, value: u32) -> (r: Result<u32, Error>)
    ensures
        r == spec_write_field(reg, msb, lsb, value),
{
    match write_bits_in_range(reg, msb, lsb, value) {
        Ok(written) => Ok(written),
        Err(e) => Err(Error::from(e)),
    }
}

/// Sets or clears bit `pos` of `reg`; what the bit helper refuses is an
/// internal error.
pub fn write_flag(reg: u32, pos: u32, value: bool) -> (r: Result<u32, Error>)
    ensures
        r == if pos < 32 {
            Ok::<u32, Error>(with_bit(reg, pos, value))
        } else {
            Err::<u32, Error>(Error::InternalError(crate::common::Error::InvalidParameters))
        },
{
    match write_bit(reg, pos, value) {
        Ok(written) => Ok(written),
        Err(e) => Err(Error::from(e)),
    }
}

/// The largest values of the fields that the rewrites write.
pub proof fn lemma_field_sizes()
    ensures
        field_max(31, 24) == 0xff,
        field_max(23, 16) == 0xff,
        field_max(15, 8) == 0xff,
        field_max(7, 0) == 0xff,
        field_max(15, 0) == 0xffff,
        field_max(4, 0) == 0x1f,
        field_max(25, 14) == 0xfff,
        field_max(31, 26) == 0x3f,
        field_max(15, 12) == 0xf,
{
    assert(field_max(31, 24) == 0xff && field_max(23, 16) == 0xff && field_max(15, 8) == 0xff
        && field_max(7, 0) == 0xff && field_max(15, 0) == 0xffff && field_max(4, 0) == 0x1f
        && field_max(25, 14) == 0xfff && field_max(31, 26) == 0x3f && field_max(15, 12) == 0xf)
        by (bit_vector);
}

/// The smallest power of two that is no less than `n`.
pub open spec fn spec_next_power_of_two(n: u8) -> int {
    if n <= 1 {
        1
    } else if n <= 2 {
        2
    } else if n <= 4 {
        4
    } else if n <= 8 {
        8
    } else if n <= 16 {
        16
    } else if n <= 32 {
        32
    } else if n <= 64 {
        64
    } else if n <= 128 {
        128
    } else {
        256
    }
}

/// `p` is a power of two that a byte holds.
pub open spec fn is_power_of_two(p: u8) -> bool {
    p == 1 || p == 2 || p == 4 || p == 8 || p == 16 || p == 32 || p == 64 || p == 128
}

/// The number of logical processor ids that a package of `cpu_count` logical
/// CPUs addresses: the smallest power of two that is no less than the count.
/// For more than 128 CPUs no byte holds it.
pub fn get_max_addressable_lprocessors(cpu_count: u8) -> (r: Result<u8, Error>)
    ensures
        r == if cpu_count <= 128 {
            Ok::<u8, Error>(spec_next_power_of_two(cpu_count) as u8)
        } else {
            Err::<u8, Error>(Error::VcpuCountOverflow)
        },
{
    let mut p: u8 = 1;
    while p < cpu_count
        invariant
            is_power_of_two(p),
            p == 1 || p / 2 < cpu_count,
        decreases 255 - p,
    {
        if p == 128 {
            return Err(Error::VcpuCountOverflow);
        }
        p = p * 2;
    }
    Ok(p)
}

/// The feature information shown to the guest: in `ebx` the APIC id is the
/// index of the vCPU, the cache line flush size is 64 bytes and the package
/// addresses as many logical processors as the guest has vCPUs, rounded up
/// to a power of two; in `ecx` the TSC deadline timer and the hypervisor are
/// announced; in `edx` the guest is told whether it has more than one
/// logical processor. With more than 128 vCPUs the count has no place.
pub open spec fn spec_update_feature_info_entry(entry: CpuidEntry, vm_spec: &VmSpec) -> Result<
    CpuidEntry,
    Error,
> {
    if vm_spec.cpu_count() > 128 {
        Err(Error::VcpuCountOverflow)
    } else {
        Ok(
            CpuidEntry {
                ebx: with_field(
                    with_field(
                        with_field(
                            entry.ebx,
                            FEATURE_INFO_APICID_MSB,
                            FEATURE_INFO_APICID_LSB,
                            vm_spec.cpu_index() as u32,
                        ),
                        FEATURE_INFO_CLFLUSH_SIZE_MSB,
                        FEATURE_INFO_CLFLUSH_SIZE_LSB,
                        CLFLUSH_CACHELINE,
                    ),
                    FEATURE_INFO_CPU_COUNT_MSB,
                    FEATURE_INFO_CPU_COUNT_LSB,
                    spec_next_power_of_two(vm_spec.cpu_count()) as u32,
                ),
                ecx: with_bit(
                    with_bit(entry.ecx, FEATURE_INFO_TSC_DEADLINE_TIMER, true),
                    FEATURE_INFO_HYPERVISOR,
                    true,
                ),
                edx: with_bit(entry.edx, FEATURE_INFO_HTT, vm_spec.cpu_count() > 1),
                ..entry
            },
        )
    }
}

/// Rewrites the feature information (leaf 0x1).
pub fn update_feature_info_entry(entry: CpuidEntry, vm_spec: &VmSpec) -> (r: Result<CpuidEntry, Error>)
    ensures
        r == spec_update_feature_info_entry(entry, vm_spec),
{
    proof {
        lemma_field_sizes();
    }
    let max_addr_cpu = get_max_addressable_lprocessors(vm_spec.cpu_count())?;
    let mut entry = entry;
    entry.ecx = write_flag(entry.ecx, FEATURE_INFO_TSC_DEADLINE_TIMER, true)?;
    entry.ecx = write_flag(entry.ecx, FEATURE_INFO_HYPERVISOR, true)?;
    entry.ebx = write_field(
        entry.ebx,
        FEATURE_INFO_APICID_MSB,
        FEATURE_INFO_APICID_LSB,
        vm_spec.cpu_index() as u32,
    )?;
    entry.ebx = write_field(
        entry.ebx,
        FEATURE_INFO_CLFLUSH_SIZE_MSB,
        FEATURE_INFO_CLFLUSH_SIZE_LSB,
        CLFLUSH_CACHELINE,
    )?;
    entry.ebx = write_field(
        entry.ebx,
        FEATURE_INFO_CPU_COUNT_MSB,
        FEATURE_INFO_CPU_COUNT_LSB,
        max_addr_cpu as u32,
    )?;
    entry.edx = write_flag(entry.edx, FEATURE_INFO_HTT, vm_spec.cpu_count() > 1)?;
    Ok(entry)
}

/// A brand string leaf shown to the guest: its four registers spell the
/// part of the guest's brand string that belongs to the leaf. An entry of
/// another leaf gets four zeroes.
pub open spec fn spec_update_brand_string_entry(entry: CpuidEntry, vm_spec: &VmSpec) -> CpuidEntry {
    CpuidEntry {
        eax: vm_spec.brand_string().spec_reg_for_leaf(entry.function, Reg::Eax),
        ebx: vm_spec.brand_string().spec_reg_for_leaf(entry.function, Reg::Ebx),
        ecx: vm_spec.brand_string().spec_reg_for_leaf(entry.function, Reg::Ecx),
        edx: vm_spec.brand_string().spec_reg_for_leaf(entry.function, Reg::Edx),
        ..entry
    }
}

/// Rewrites a brand string leaf (0x80000002 to 0x80000004). It never fails.
pub fn update_brand_string_entry(entry: CpuidEntry, vm_spec: &VmSpec) -> (r: Result<CpuidEntry, Error>)
    ensures
        r == Ok::<CpuidEntry, Error>(spec_update_brand_string_entry(entry, vm_spec)),
{
    let brand_string = vm_spec.brand_string();
    let mut entry = entry;
    entry.eax = brand_string.get_reg_for_leaf(entry.function, Reg::Eax);
    entry.ebx = brand_string.get_reg_for_leaf(entry.function, Reg::Ebx);
    entry.ecx = brand_string.get_reg_for_leaf(entry.function, Reg::Ecx);
    entry.edx = brand_string.get_reg_for_leaf(entry.function, Reg::Edx);
    Ok(entry)
}

/// A cache leaf shown to the guest. The caches of level 1 and 2 belong to a
/// core and are shared by its logical CPUs; the cache of level 3 is shared
/// by all the logical CPUs of the guest, of which there has to be one.
/// The leaf of any other level stays as it is.
pub open spec fn spec_update_cache_parameters_entry(entry: CpuidEntry, vm_spec: &VmSpec) -> Result<
    CpuidEntry,
    Error,
> {
    let level = field_of(entry.eax, CACHE_LEVEL_MSB, CACHE_LEVEL_LSB);
    if level == 1 || level == 2 {
        Ok(
            CpuidEntry {
                eax: with_field(
                    entry.eax,
                    CACHE_MAX_CPUS_PER_CORE_MSB,
                    CACHE_MAX_CPUS_PER_CORE_LSB,
                    (vm_spec.spec_cpus_per_core() - 1) as u32,
                ),
                ..entry
            },
        )
    } else if level == 3 {
        if vm_spec.cpu_count() == 0 {
            Err(Error::InternalError(crate::common::Error::InvalidParameters))
        } else {
            Ok(
                CpuidEntry {
                    eax: with_field(
                        entry.eax,
                        CACHE_MAX_CPUS_PER_CORE_MSB,
                        CACHE_MAX_CPUS_PER_CORE_LSB,
                        (vm_spec.cpu_count() - 1) as u32,
                    ),
                    ..entry
                },
            )
        }
    } else {
        Ok(entry)
    }
}

/// Rewrites a cache leaf: one that is laid out as the deterministic cache
/// parameters are.
pub fn update_cache_parameters_entry(entry: CpuidEntry, vm_spec: &VmSpec) -> (r: Result<
    CpuidEntry,
    Error,
>)
    ensures
        r == spec_update_cache_parameters_entry(entry, vm_spec),
{
    proof {
        lemma_field_sizes();
    }
    let level = match read_bits_in_range(entry.eax, CACHE_LEVEL_MSB, CACHE_LEVEL_LSB) {
        Ok(level) => level,
        Err(e) => {
            return Err(Error::from(e));
        },
    };
    let mut entry = entry;
    if level == 1 || level == 2 {
        entry.eax = write_field(
            entry.eax,
            CACHE_MAX_CPUS_PER_CORE_MSB,
            CACHE_MAX_CPUS_PER_CORE_LSB,
            (vm_spec.cpus_per_core() - 1) as u32,
        )?;
    } else if level == 3 {
        if vm_spec.cpu_count() == 0 {
            return Err(Error::InternalError(crate::common::Error::InvalidParameters));
        }
        entry.eax = write_field(
            entry.eax,
            CACHE_MAX_CPUS_PER_CORE_MSB,
            CACHE_MAX_CPUS_PER_CORE_LSB,
            (vm_spec.cpu_count() - 1) as u32,
        )?;
    }
    Ok(entry)
}

/// A level of the extended topology shown to the guest. `edx` is the x2APIC
/// id of the vCPU, its index. Level 0 is that of the logical CPUs of a core:
/// `eax` holds the bits that tell them apart, `ebx` their number. Level 1 is
/// that of the cores of the package: `eax` holds the shift to the package
/// id, `ebx` the number of vCPUs. A higher level does not exist and has only
/// its number in `ecx`.
pub open spec fn spec_update_extended_topology_entry(entry: CpuidEntry, vm_spec: &VmSpec) -> CpuidEntry {
    if entry.index == 0 {
        CpuidEntry {
            eax: vm_spec.cpu_bits() as u32,
            ebx: vm_spec.spec_cpus_per_core() as u32,
            ecx: (LEVEL_TYPE_THREAD * 256) as u32,
            edx: vm_spec.cpu_index() as u32,
            ..entry
        }
    } else if entry.index == 1 {
        CpuidEntry {
            eax: CORE_LEVEL_APICID_SHIFT,
            ebx: vm_spec.cpu_count() as u32,
            ecx: (LEVEL_TYPE_CORE * 256 + 1) as u32,
            edx: vm_spec.cpu_index() as u32,
            ..entry
        }
    } else {
        CpuidEntry { eax: 0, ebx: 0, ecx: entry.index, edx: vm_spec.cpu_index() as u32, ..entry }
    }
}

/// Rewrites a level of the extended topology (leaf 0xb). It never fails.
pub fn update_extended_topology_entry(entry: CpuidEntry, vm_spec: &VmSpec) -> (r: Result<
    CpuidEntry,
    Error,
>)
    ensures
        r == Ok::<CpuidEntry, Error>(spec_update_extended_topology_entry(entry, vm_spec)),
{
    let mut entry = entry;
    entry.eax = 0;
    entry.ebx = 0;
    entry.ecx = 0;
    entry.edx = vm_spec.cpu_index() as u32;
    if entry.index == 0 {
        entry.eax = vm_spec.cpu_bits() as u32;
        entry.ebx = vm_spec.cpus_per_core() as u32;
        entry.ecx = LEVEL_TYPE_THREAD * 256;
    } else if entry.index == 1 {
        entry.eax = CORE_LEVEL_APICID_SHIFT;
        entry.ebx = vm_spec.cpu_count() as u32;
        entry.ecx = LEVEL_TYPE_CORE * 256 + 1;
    } else {
        entry.ecx = entry.index;
    }
    Ok(entry)
}

/// The entry that shows the guest what the host answers for `function` and
/// `index`.
pub open spec fn spec_host_entry(function: u32, index: u32, leaf: CpuidRegisters) -> CpuidEntry {
    CpuidEntry {
        function,
        index,
        flags: 0,
        eax: leaf.eax,
        ebx: leaf.ebx,
        ecx: leaf.ecx,
        edx: leaf.edx,
        padding: [0u32, 0u32, 0u32],
    }
}

/// The entries that show the guest the answers `leaves` of the host for
/// `function`, the answer for index 0 first.
pub open spec fn spec_host_entries(function: u32, leaves: Seq<CpuidRegisters>) -> Seq<CpuidEntry> {
    Seq::new(leaves.len(), |i: int| spec_host_entry(function, i as u32, leaves[i]))
}

/// The table `before` with the answers `leaves` of the host in place of its
/// own entries of `function`: those are gone, and the host's stand at the
/// end.
pub open spec fn spec_with_host_function(
    before: Seq<CpuidEntry>,
    function: u32,
    leaves: Seq<CpuidRegisters>,
) -> Seq<CpuidEntry> {
    before.filter(other_functions(function)) + spec_host_entries(function, leaves)
}

/// `after` and `r` are what [`use_host_cpuid_function`] leaves of `before`
/// where the host has answered `leaves`: the table holds the answers in
/// place of its own entries of `function`; no answer is blank; without
/// `use_count` there is one answer at most; and an error is that of a table
/// that is full.
pub open spec fn host_function_used(
    before: Seq<CpuidEntry>,
    function: u32,
    use_count: bool,
    leaves: Seq<CpuidRegisters>,
    after: Seq<CpuidEntry>,
    r: Result<(), Error>,
) -> bool {
    &&& after == spec_with_host_function(before, function, leaves)
    &&& !use_count ==> leaves.len() <= 1
    &&& forall|i: int| 0 <= i < leaves.len() ==> !(#[trigger] leaves[i]).is_blank()
    &&& r matches Err(e) ==> e == Error::Fam(FamError::SizeLimitExceeded) && after.len()
        == MAX_CPUID_ENTRIES
}

/// Appends the entry that shows the guest what the host answers for
/// `function` and `index`. A full table cannot take it.
pub fn append_host_leaf(cpuid: &mut CpuId, function: u32, index: u32, leaf: CpuidRegisters) -> (r: Result<
    (),
    Error,
>)
    ensures
        r is Ok <==> old(cpuid)@.len() < MAX_CPUID_ENTRIES,
        r matches Err(e) ==> e == Error::Fam(FamError::SizeLimitExceeded),
        final(cpuid)@ == if r is Ok {
            old(cpuid)@.push(spec_host_entry(function, index, leaf))
        } else {
            old(cpuid)@
        },
{
    let entry = CpuidEntry {
        function,
        index,
        flags: 0,
        eax: leaf.eax,
        ebx: leaf.ebx,
        ecx: leaf.ecx,
        edx: leaf.edx,
        padding: [0u32, 0u32, 0u32],
    };
    match cpuid.push(entry) {
        Ok(()) => Ok(()),
        Err(e) => Err(Error::Fam(e)),
    }
}

/// Replaces the entries of `function` with what the host answers for it.
///
/// The host is asked for index 0, 1, and so on, until it has no answer; each
/// answer is appended. Without `use_count` only index 0 is asked for. What
/// the host answers is the host's matter: the contract holds for whatever
/// answers came, and [`append_host_leaf`] says what is done with each.
pub fn use_host_cpuid_function(cpuid: &mut CpuId, function: u32, use_count: bool) -> (r: Result<
    (),
    Error,
>)
    ensures
        exists|leaves: Seq<CpuidRegisters>| #[trigger]
            host_function_used(old(cpuid)@, function, use_count, leaves, final(cpuid)@, r),
{
    cpuid.remove_function(function);
    let kept = cpuid.len();
    let ghost base = cpuid@;
    let ghost mut leaves: Seq<CpuidRegisters> = Seq::empty();
    let mut count: u32 = 0;
    assert(base + spec_host_entries(function, leaves) =~= base);
    while !(count > 0 && !use_count)
        invariant
            base == old(cpuid)@.filter(other_functions(function)),
            cpuid@ == base + spec_host_entries(function, leaves),
            count == leaves.len(),
            cpuid@.len() == kept + count,
            cpuid@.len() <= MAX_CPUID_ENTRIES,
            !use_count ==> leaves.len() <= 1,
            forall|i: int| 0 <= i < leaves.len() ==> !(#[trigger] leaves[i]).is_blank(),
        decreases MAX_CPUID_ENTRIES - cpuid@.len(),
    {
        let leaf = match get_cpuid(function, count) {
            Ok(leaf) => leaf,
            Err(_) => {
                break ;
            },
        };
        match append_host_leaf(cpuid, function, count, leaf) {
            Ok(()) => {},
            Err(e) => {
                assert(host_function_used(old(cpuid)@, function, use_count, leaves, cpuid@, Err(e)));
                return Err(e);
            },
        }
        proof {
            assert(base + spec_host_entries(function, leaves.push(leaf)) =~= (base + spec_host_entries(
                function,
                leaves,
            )).push(spec_host_entry(function, count, leaf)));
            leaves = leaves.push(leaf);
        }
        count += 1;
    }
    assert(host_function_used(old(cpuid)@, function, use_count, leaves, cpuid@, Ok(())));
    Ok(())
}

} // verus!
