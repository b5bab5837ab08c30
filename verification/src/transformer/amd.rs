//! The leaf rewrites for an AMD guest.

use vstd::prelude::*;
use crate::bit_helper::with_bit;
use crate::bit_helper::with_field;
use crate::brand_string::BRAND_STRING_FIRST_LEAF;
use crate::brand_string::BRAND_STRING_LAST_LEAF;
use crate::common::same_vendor;
use crate::common::CpuidRegisters;
use crate::common::VENDOR_ID_AMD;
use crate::cpu_leaf::AMD_FEATURES_NUM_THREADS_LSB;
use crate::cpu_leaf::AMD_FEATURES_NUM_THREADS_MSB;
use crate::cpu_leaf::AMD_FEATURES_THREAD_ID_SIZE_LSB;
use crate::cpu_leaf::AMD_FEATURES_THREAD_ID_SIZE_MSB;
use crate::cpu_leaf::EXTENDED_APIC_ID_CORE_ID_LSB;
use crate::cpu_leaf::EXTENDED_APIC_ID_CORE_ID_MSB;
use crate::cpu_leaf::EXTENDED_APIC_ID_THREADS_PER_CORE_LSB;
use crate::cpu_leaf::EXTENDED_APIC_ID_THREADS_PER_CORE_MSB;
use crate::cpu_leaf::EXTENDED_FEATURE_INFO_TOPOEXT;
use crate::cpu_leaf::LARGEST_EXTENDED_FN;
use crate::cpu_leaf::LEAF_AMD_FEATURES;
use crate::cpu_leaf::LEAF_EXTENDED_APIC_ID;
use crate::cpu_leaf::LEAF_EXTENDED_CACHE_TOPOLOGY;
use crate::cpu_leaf::LEAF_EXTENDED_FEATURE_INFO;
use crate::cpu_leaf::LEAF_EXTENDED_TOPOLOGY;
use crate::cpu_leaf::LEAF_FEATURE_INFO;
use crate::cpu_leaf::LEAF_LARGEST_EXTENDED_FN;
use crate::cpu_leaf::LEAF_STRUCTURED_EXTENDED;
use crate::cpu_leaf::STRUCTURED_EXTENDED_ARCH_CAPABILITIES;
use crate::cpu_leaf::THREAD_ID_MAX_SIZE;
use crate::kvm::other_functions;
use crate::kvm::CpuId;
use crate::kvm::CpuidEntry;
use crate::kvm::FamError;
use crate::kvm::MAX_CPUID_ENTRIES;
use crate::transformer::common::host_function_used;
use crate::transformer::common::lemma_field_sizes;
use crate::transformer::common::spec_update_brand_string_entry;
use crate::transformer::common::spec_update_cache_parameters_entry;
use crate::transformer::common::spec_update_feature_info_entry;
use crate::transformer::common::spec_with_host_function;
use crate::transformer::common::update_brand_string_entry;
use crate::transformer::common::update_cache_parameters_entry;
use crate::transformer::common::update_feature_info_entry;
use crate::transformer::common::use_host_cpuid_function;
use crate::transformer::common::write_field;
use crate::transformer::common::write_flag;
use crate::transformer::lemma_pass_of_functions;
use crate::transformer::pass_entries;
use crate::transformer::pass_result;
use crate::transformer::process_with;
use crate::transformer::CpuidTransformer;
use crate::transformer::EntryTransformerFn;
use crate::transformer::Error;
use crate::transformer::VmSpec;

verus! {

/// The structured extended features shown to an AMD guest: those of the
/// host, in sub-leaf 0 without the architectural capabilities MSR.
pub open spec fn spec_update_structured_extended_entry(entry: CpuidEntry) -> CpuidEntry {
    if entry.index == 0 {
        CpuidEntry { edx: with_bit(entry.edx, STRUCTURED_EXTENDED_ARCH_CAPABILITIES, false), ..entry }
    } else {
        entry
    }
}

/// Rewrites the structured extended features (leaf 0x7). It never fails.
pub fn update_structured_extended_entry(entry: CpuidEntry, vm_spec: &VmSpec) -> (r: Result<
    CpuidEntry,
    Error,
>)
    ensures
        r == Ok::<CpuidEntry, Error>(spec_update_structured_extended_entry(entry)),
{
    let mut entry = entry;
    if entry.index == 0 {
        entry.edx = write_flag(entry.edx, STRUCTURED_EXTENDED_ARCH_CAPABILITIES, false)?;
    }
    Ok(entry)
}

/// The largest extended function shown to an AMD guest: 0x8000001f.
pub open spec fn spec_update_largest_extended_fn_entry(entry: CpuidEntry) -> CpuidEntry {
    CpuidEntry { eax: LARGEST_EXTENDED_FN, ..entry }
}

/// Rewrites the largest extended function (leaf 0x80000000). It never fails.
pub fn update_largest_extended_fn_entry(entry: CpuidEntry, vm_spec: &VmSpec) -> (r: Result<
    CpuidEntry,
    Error,
>)
    ensures
        r == Ok::<CpuidEntry, Error>(spec_update_largest_extended_fn_entry(entry)),
{
    let mut entry = entry;
    entry.eax = LARGEST_EXTENDED_FN;
    Ok(entry)
}

/// The extended feature information shown to an AMD guest: that of the
/// host, with the topology leaves announced.
pub open spec fn spec_update_extended_feature_info_entry(entry: CpuidEntry) -> CpuidEntry {
    CpuidEntry { ecx: with_bit(entry.ecx, EXTENDED_FEATURE_INFO_TOPOEXT, true), ..entry }
}

/// Rewrites the extended feature information (leaf 0x80000001). It never
/// fails.
pub fn update_extended_feature_info_entry(entry: CpuidEntry, vm_spec: &VmSpec) -> (r: Result<
    CpuidEntry,
    Error,
>)
    ensures
        r == Ok::<CpuidEntry, Error>(spec_update_extended_feature_info_entry(entry)),
{
    let mut entry = entry;
    entry.ecx = write_flag(entry.ecx, EXTENDED_FEATURE_INFO_TOPOEXT, true)?;
    Ok(entry)
}

/// The sizes shown to an AMD guest: in `ecx` the package has as many
/// threads as the guest has vCPUs, told apart by seven bits. The guest has
/// to have a vCPU.
pub open spec fn spec_update_amd_features_entry(entry: CpuidEntry, vm_spec: &VmSpec) -> Result<
    CpuidEntry,
    Error,
> {
    if vm_spec.cpu_count() == 0 {
        Err(Error::InternalError(crate::common::Error::InvalidParameters))
    } else {
        Ok(
            CpuidEntry {
                ecx: with_field(
                    with_field(
                        entry.ecx,
                        AMD_FEATURES_THREAD_ID_SIZE_MSB,
                        AMD_FEATURES_THREAD_ID_SIZE_LSB,
                        THREAD_ID_MAX_SIZE,
                    ),
                    AMD_FEATURES_NUM_THREADS_MSB,
                    AMD_FEATURES_NUM_THREADS_LSB,
                    (vm_spec.cpu_count() - 1) as u32,
                ),
                ..entry
            },
        )
    }
}

/// Rewrites the sizes of an AMD processor (leaf 0x80000008).
pub fn update_amd_features_entry(entry: CpuidEntry, vm_spec: &VmSpec) -> (r: Result<CpuidEntry, Error>)
    ensures
        r == spec_update_amd_features_entry(entry, vm_spec),
{
    proof {
        lemma_field_sizes();
    }
    if vm_spec.cpu_count() == 0 {
        return Err(Error::InternalError(crate::common::Error::InvalidParameters));
    }
    let mut entry = entry;
    entry.ecx = write_field(
        entry.ecx,
        AMD_FEATURES_THREAD_ID_SIZE_MSB,
        AMD_FEATURES_THREAD_ID_SIZE_LSB,
        THREAD_ID_MAX_SIZE,
    )?;
    entry.ecx = write_field(
        entry.ecx,
        AMD_FEATURES_NUM_THREADS_MSB,
        AMD_FEATURES_NUM_THREADS_LSB,
        (vm_spec.cpu_count() - 1) as u32,
    )?;
    Ok(entry)
}

/// The id of the core of a vCPU: with two logical CPUs to a core, two vCPUs
/// in a row share a core; else every vCPU is a core.
pub open spec fn spec_core_id(vm_spec: &VmSpec) -> u8 {
    if vm_spec.cpu_bits() == 1 {
        vm_spec.cpu_index() / 2
    } else {
        vm_spec.cpu_index()
    }
}

/// The extended APIC id shown to an AMD guest: `eax` is the index of the
/// vCPU, `ebx` holds the id of its core and the number of threads of a core
/// less one, and `ecx` and `edx`, the place of the node, are zero.
pub open spec fn spec_update_extended_apic_id_entry(entry: CpuidEntry, vm_spec: &VmSpec) -> CpuidEntry {
    CpuidEntry {
        eax: vm_spec.cpu_index() as u32,
        ebx: with_field(
            with_field(
                entry.ebx,
                EXTENDED_APIC_ID_CORE_ID_MSB,
                EXTENDED_APIC_ID_CORE_ID_LSB,
                spec_core_id(vm_spec) as u32,
            ),
            EXTENDED_APIC_ID_THREADS_PER_CORE_MSB,
            EXTENDED_APIC_ID_THREADS_PER_CORE_LSB,
            (vm_spec.spec_cpus_per_core() - 1) as u32,
        ),
        ecx: 0,
        edx: 0,
        ..entry
    }
}

/// Rewrites the extended APIC id (leaf 0x8000001e). It never fails.
pub fn update_extended_apic_id_entry(entry: CpuidEntry, vm_spec: &VmSpec) -> (r: Result<
    CpuidEntry,
    Error,
>)
    ensures
        r == Ok::<CpuidEntry, Error>(spec_update_extended_apic_id_entry(entry, vm_spec)),
{
    proof {
        lemma_field_sizes();
    }
    let core_id = if vm_spec.cpu_bits() == 1 {
        vm_spec.cpu_index() / 2
    } else {
        vm_spec.cpu_index()
    };
    let mut entry = entry;
    entry.eax = vm_spec.cpu_index() as u32;
    entry.ebx = write_field(
        entry.ebx,
        EXTENDED_APIC_ID_CORE_ID_MSB,
        EXTENDED_APIC_ID_CORE_ID_LSB,
        core_id as u32,
    )?;
    entry.ebx = write_field(
        entry.ebx,
        EXTENDED_APIC_ID_THREADS_PER_CORE_MSB,
        EXTENDED_APIC_ID_THREADS_PER_CORE_LSB,
        (vm_spec.cpus_per_core() - 1) as u32,
    )?;
    entry.ecx = 0;
    entry.edx = 0;
    Ok(entry)
}

/// The rewrites that the AMD transformer registers.
#[derive(Clone, Copy, Debug, PartialEq, Eq)]
pub enum AmdEntryFn {
    /// [`update_feature_info_entry`]
    FeatureInfo,
    /// [`update_structured_extended_entry`]
    StructuredExtended,
    /// [`update_largest_extended_fn_entry`]
    LargestExtendedFn,
    /// [`update_extended_feature_info_entry`]
    ExtendedFeatureInfo,
    /// [`update_amd_features_entry`]
    AmdFeatures,
    /// [`update_cache_parameters_entry`]
    ExtendedCacheTopology,
    /// [`update_extended_apic_id_entry`]
    ExtendedApicId,
    /// [`update_brand_string_entry`]
    BrandString,
}

impl AmdEntryFn {
    /// What the rewrite makes of `entry` for the guest that `vm_spec`
    /// describes.
    pub open spec fn spec_call(&self, entry: CpuidEntry, vm_spec: &VmSpec) -> Result<CpuidEntry, Error> {
        match self {
            AmdEntryFn::FeatureInfo => spec_update_feature_info_entry(entry, vm_spec),
            AmdEntryFn::StructuredExtended => Ok(spec_update_structured_extended_entry(entry)),
            AmdEntryFn::LargestExtendedFn => Ok(spec_update_largest_extended_fn_entry(entry)),
            AmdEntryFn::ExtendedFeatureInfo => Ok(spec_update_extended_feature_info_entry(entry)),
            AmdEntryFn::AmdFeatures => spec_update_amd_features_entry(entry, vm_spec),
            AmdEntryFn::ExtendedCacheTopology => spec_update_cache_parameters_entry(entry, vm_spec),
            AmdEntryFn::ExtendedApicId => Ok(spec_update_extended_apic_id_entry(entry, vm_spec)),
            AmdEntryFn::BrandString => Ok(spec_update_brand_string_entry(entry, vm_spec)),
        }
    }

    /// Applies the rewrite to `entry`.
    pub fn apply(&self, entry: CpuidEntry, vm_spec: &VmSpec) -> (r: Result<CpuidEntry, Error>)
        ensures
            r == self.spec_call(entry, vm_spec),
    {
        match self {
            AmdEntryFn::FeatureInfo => update_feature_info_entry(entry, vm_spec),
            AmdEntryFn::StructuredExtended => update_structured_extended_entry(entry, vm_spec),
            AmdEntryFn::LargestExtendedFn => update_largest_extended_fn_entry(entry, vm_spec),
            AmdEntryFn::ExtendedFeatureInfo => update_extended_feature_info_entry(entry, vm_spec),
            AmdEntryFn::AmdFeatures => update_amd_features_entry(entry, vm_spec),
            AmdEntryFn::ExtendedCacheTopology => update_cache_parameters_entry(entry, vm_spec),
            AmdEntryFn::ExtendedApicId => update_extended_apic_id_entry(entry, vm_spec),
            AmdEntryFn::BrandString => update_brand_string_entry(entry, vm_spec),
        }
    }
}

impl EntryTransformerFn for AmdEntryFn {
    fn call(&self, entry: CpuidEntry, vm_spec: &VmSpec) -> (r: Result<CpuidEntry, Error>)
        ensures
            r == self.spec_call(entry, vm_spec),
    {
        self.apply(entry, vm_spec)
    }
}

/// The rewrite that the AMD transformer registers for a function.
pub open spec fn spec_entry_transformer_fn(function: u32) -> Option<AmdEntryFn> {
    if function == LEAF_FEATURE_INFO {
        Some(AmdEntryFn::FeatureInfo)
    } else if function == LEAF_STRUCTURED_EXTENDED {
        Some(AmdEntryFn::StructuredExtended)
    } else if function == LEAF_LARGEST_EXTENDED_FN {
        Some(AmdEntryFn::LargestExtendedFn)
    } else if function == LEAF_EXTENDED_FEATURE_INFO {
        Some(AmdEntryFn::ExtendedFeatureInfo)
    } else if function == LEAF_AMD_FEATURES {
        Some(AmdEntryFn::AmdFeatures)
    } else if function == LEAF_EXTENDED_CACHE_TOPOLOGY {
        Some(AmdEntryFn::ExtendedCacheTopology)
    } else if function == LEAF_EXTENDED_APIC_ID {
        Some(AmdEntryFn::ExtendedApicId)
    } else if BRAND_STRING_FIRST_LEAF <= function <= BRAND_STRING_LAST_LEAF {
        Some(AmdEntryFn::BrandString)
    } else {
        None
    }
}

/// What a visit of the AMD transformer makes of an entry: the entry itself
/// where no rewrite is registered for its function, else what the rewrite
/// makes of it.
pub open spec fn spec_visit(entry: CpuidEntry, vm_spec: &VmSpec) -> Result<CpuidEntry, Error> {
    match spec_entry_transformer_fn(entry.function) {
        None => Ok(entry),
        Some(f) => f.spec_call(entry, vm_spec),
    }
}

/// The visits of the AMD transformer for the guest that `vm_spec` describes.
pub open spec fn spec_visits(vm_spec: &VmSpec) -> spec_fn(CpuidEntry) -> Result<CpuidEntry, Error> {
    |entry: CpuidEntry| spec_visit(entry, vm_spec)
}

/// The table `before` without the extended topology, which no AMD processor
/// has, and with the answers `apic_id` of the host in place of its own
/// entries of the extended APIC id.
pub open spec fn spec_with_apic_id(before: Seq<CpuidEntry>, apic_id: Seq<CpuidRegisters>) -> Seq<
    CpuidEntry,
> {
    spec_with_host_function(
        before.filter(other_functions(LEAF_EXTENDED_TOPOLOGY)),
        LEAF_EXTENDED_APIC_ID,
        apic_id,
    )
}

/// The table that the AMD transformer makes its pass over:
/// [`spec_with_apic_id`], with the answers `cache` of the host in place of
/// its own entries of the cache topology.
pub open spec fn spec_prepared(
    before: Seq<CpuidEntry>,
    apic_id: Seq<CpuidRegisters>,
    cache: Seq<CpuidRegisters>,
) -> Seq<CpuidEntry> {
    spec_with_host_function(spec_with_apic_id(before, apic_id), LEAF_EXTENDED_CACHE_TOPOLOGY, cache)
}

/// `after` and `r` are what the AMD transformer leaves of `before` where the
/// host has answered `apic_id` for the extended APIC id and `cache` for the
/// cache topology. The host gives one answer at most for the first, and no
/// blank answer. Either the table became full while the answers for the
/// extended APIC id were put in, or while those for the cache topology
/// were, and the transformer stopped there with the error of the table; or
/// it made its pass over the prepared table.
pub open spec fn amd_processed(
    before: Seq<CpuidEntry>,
    vm_spec: &VmSpec,
    apic_id: Seq<CpuidRegisters>,
    cache: Seq<CpuidRegisters>,
    after: Seq<CpuidEntry>,
    r: Result<(), Error>,
) -> bool {
    let prepared = spec_prepared(before, apic_id, cache);
    &&& apic_id.len() <= 1
    &&& forall|i: int| 0 <= i < apic_id.len() ==> !(#[trigger] apic_id[i]).is_blank()
    &&& forall|i: int| 0 <= i < cache.len() ==> !(#[trigger] cache[i]).is_blank()
    &&& {
        ||| {
            &&& r == Err::<(), Error>(Error::Fam(FamError::SizeLimitExceeded))
            &&& after == spec_with_apic_id(before, apic_id)
            &&& after.len() == MAX_CPUID_ENTRIES
        }
        ||| {
            &&& r == Err::<(), Error>(Error::Fam(FamError::SizeLimitExceeded))
            &&& after == prepared
            &&& after.len() == MAX_CPUID_ENTRIES
        }
        ||| {
            &&& r == pass_result(spec_visits(vm_spec), prepared)
            &&& after == pass_entries(spec_visits(vm_spec), prepared)
        }
    }
}

/// Transformer of the leaves of an AMD host.
pub struct AmdCpuidTransformer {}

/// The table of the AMD transformer: the rewrite registered for the function
/// of `entry`, if there is one.
pub fn registered_fn(t: &AmdCpuidTransformer, entry: &CpuidEntry) -> (r: Option<AmdEntryFn>)
    ensures
        r == spec_entry_transformer_fn(entry.function),
{
    let function = entry.function;
    if function == LEAF_FEATURE_INFO {
        Some(AmdEntryFn::FeatureInfo)
    } else if function == LEAF_STRUCTURED_EXTENDED {
        Some(AmdEntryFn::StructuredExtended)
    } else if function == LEAF_LARGEST_EXTENDED_FN {
        Some(AmdEntryFn::LargestExtendedFn)
    } else if function == LEAF_EXTENDED_FEATURE_INFO {
        Some(AmdEntryFn::ExtendedFeatureInfo)
    } else if function == LEAF_AMD_FEATURES {
        Some(AmdEntryFn::AmdFeatures)
    } else if function == LEAF_EXTENDED_CACHE_TOPOLOGY {
        Some(AmdEntryFn::ExtendedCacheTopology)
    } else if function == LEAF_EXTENDED_APIC_ID {
        Some(AmdEntryFn::ExtendedApicId)
    } else if BRAND_STRING_FIRST_LEAF <= function && function <= BRAND_STRING_LAST_LEAF {
        Some(AmdEntryFn::BrandString)
    } else {
        None
    }
}

impl CpuidTransformer for AmdCpuidTransformer {
    type EntryFn = AmdEntryFn;

    /// Rewrites the leaves of an AMD host for the guest. On a host of
    /// another vendor the transformer refuses to work and touches nothing.
    ///
    /// On an AMD host the table is first prepared: the extended topology is
    /// taken out, and the entries of the extended APIC id and of the cache
    /// topology are replaced with what the host answers, which puts them in
    /// where the table had none. Then the pass is made. What the host
    /// answers is the host's matter; [`amd_processed`] says what is made of
    /// each answer.
    fn process_cpuid(&self, cpuid: &mut CpuId, vm_spec: &VmSpec) -> (r: Result<(), Error>)
        ensures
            vm_spec.cpu_vendor_id()@ != VENDOR_ID_AMD@ ==> r == Err::<(), Error>(Error::InvalidVendor)
                && final(cpuid)@ == old(cpuid)@,
            vm_spec.cpu_vendor_id()@ == VENDOR_ID_AMD@ ==> exists|
                apic_id: Seq<CpuidRegisters>,
                cache: Seq<CpuidRegisters>,
            | #[trigger] amd_processed(old(cpuid)@, vm_spec, apic_id, cache, final(cpuid)@, r),
    {
        if !same_vendor(vm_spec.cpu_vendor_id(), &VENDOR_ID_AMD) {
            return Err(Error::InvalidVendor);
        }
        cpuid.remove_function(LEAF_EXTENDED_TOPOLOGY);
        let ghost without_topology = cpuid@;
        let apic_id_used = use_host_cpuid_function(cpuid, LEAF_EXTENDED_APIC_ID, false);
        let ghost apic_id = choose|leaves: Seq<CpuidRegisters>| #[trigger]
            host_function_used(
                without_topology,
                LEAF_EXTENDED_APIC_ID,
                false,
                leaves,
                cpuid@,
                apic_id_used,
            );
        if let Err(e) = apic_id_used {
            proof {
                let cache = Seq::<CpuidRegisters>::empty();
                assert(amd_processed(old(cpuid)@, vm_spec, apic_id, cache, cpuid@, Err(e)));
            }
            return Err(e);
        }
        let ghost with_apic_id = cpuid@;
        let cache_used = use_host_cpuid_function(cpuid, LEAF_EXTENDED_CACHE_TOPOLOGY, true);
        let ghost cache = choose|leaves: Seq<CpuidRegisters>| #[trigger]
            host_function_used(
                with_apic_id,
                LEAF_EXTENDED_CACHE_TOPOLOGY,
                true,
                leaves,
                cpuid@,
                cache_used,
            );
        if let Err(e) = cache_used {
            proof {
                assert(amd_processed(old(cpuid)@, vm_spec, apic_id, cache, cpuid@, Err(e)));
            }
            return Err(e);
        }
        let ghost prepared = cpuid@;
        let r = process_with(registered_fn, AmdEntryFn::apply, self, cpuid, vm_spec);
        proof {
            lemma_pass_of_functions(
                registered_fn,
                AmdEntryFn::apply,
                self,
                vm_spec,
                spec_visits(vm_spec),
                prepared,
                cpuid@,
                r,
            );
            assert(amd_processed(old(cpuid)@, vm_spec, apic_id, cache, cpuid@, r));
        }
        r
    }

    fn entry_transformer_fn(&self, entry: &CpuidEntry) -> (r: Option<AmdEntryFn>)
        ensures
            r == spec_entry_transformer_fn(entry.function),
    {
        registered_fn(self, entry)
    }
}

} // verus!
