//! The leaf rewrites for an Intel guest.

use vstd::prelude::*;
use crate::bit_helper::with_bit;
use crate::common::same_vendor;
use crate::common::VENDOR_ID_INTEL;
use crate::cpu_leaf::CACHE_MAX_CORES_PER_PACKAGE_LSB;
use crate::cpu_leaf::CACHE_MAX_CORES_PER_PACKAGE_MSB;
use crate::cpu_leaf::FEATURE_INFO_PDCM;
use crate::cpu_leaf::LEAF_DETERMINISTIC_CACHE;
use crate::cpu_leaf::LEAF_EXTENDED_TOPOLOGY;
use crate::cpu_leaf::LEAF_FEATURE_INFO;
use crate::cpu_leaf::LEAF_PERF_MON;
use crate::cpu_leaf::LEAF_POWER_MANAGEMENT;
use crate::cpu_leaf::POWER_MANAGEMENT_EPB;
use crate::cpu_leaf::POWER_MANAGEMENT_TURBO_BOOST;
use crate::brand_string::BRAND_STRING_FIRST_LEAF;
use crate::brand_string::BRAND_STRING_LAST_LEAF;
use crate::kvm::CpuId;
use crate::kvm::CpuidEntry;
use crate::transformer::common::lemma_field_sizes;
use crate::transformer::common::spec_update_brand_string_entry;
use crate::transformer::common::spec_update_cache_parameters_entry;
use crate::transformer::common::spec_update_extended_topology_entry;
use crate::transformer::common::spec_write_field;
use crate::transformer::common::update_brand_string_entry;
use crate::transformer::common::update_cache_parameters_entry;
use crate::transformer::common::update_extended_topology_entry;
use crate::transformer::common::write_field;
use crate::transformer::common::write_flag;
use crate::transformer::lemma_pass_of_functions;
use crate::transformer::process_with;
use crate::transformer::pass_entries;
use crate::transformer::pass_result;
use crate::transformer::CpuidTransformer;
use crate::transformer::EntryTransformerFn;
use crate::transformer::Error;
use crate::transformer::VmSpec;

verus! {

/// The feature information shown to an Intel guest: that of any guest,
/// without the MSR of performance and debug capabilities.
pub open spec fn spec_update_feature_info_entry(entry: CpuidEntry, vm_spec: &VmSpec) -> Result<
    CpuidEntry,
    Error,
> {
    match crate::transformer::common::spec_update_feature_info_entry(entry, vm_spec) {
        Ok(common) => Ok(CpuidEntry { ecx: with_bit(common.ecx, FEATURE_INFO_PDCM, false), ..common }),
        Err(e) => Err(e),
    }
}

/// Rewrites the feature information (leaf 0x1) for an Intel guest.
pub fn update_feature_info_entry(entry: CpuidEntry, vm_spec: &VmSpec) -> (r: Result<CpuidEntry, Error>)
    ensures
        r == spec_update_feature_info_entry(entry, vm_spec),
{
    let mut entry = crate::transformer::common::update_feature_info_entry(entry, vm_spec)?;
    entry.ecx = write_flag(entry.ecx, FEATURE_INFO_PDCM, false)?;
    Ok(entry)
}

/// The deterministic cache parameters shown to an Intel guest: those of a
/// cache leaf of any guest, with all the cores of the guest in one package.
/// The guest has to have a core, and no more than 64 of them.
pub open spec fn spec_update_deterministic_cache_entry(entry: CpuidEntry, vm_spec: &VmSpec) -> Result<
    CpuidEntry,
    Error,
> {
    match spec_update_cache_parameters_entry(entry, vm_spec) {
        Ok(common) => {
            let cores = (vm_spec.cpu_count() as nat) / vm_spec.spec_cpus_per_core();
            if cores == 0 {
                Err(Error::InternalError(crate::common::Error::InvalidParameters))
            } else {
                match spec_write_field(
                    common.eax,
                    CACHE_MAX_CORES_PER_PACKAGE_MSB,
                    CACHE_MAX_CORES_PER_PACKAGE_LSB,
                    (cores - 1) as u32,
                ) {
                    Ok(eax) => Ok(CpuidEntry { eax, ..common }),
                    Err(e) => Err(e),
                }
            }
        },
        Err(e) => Err(e),
    }
}

/// Rewrites the deterministic cache parameters (leaf 0x4).
pub fn update_deterministic_cache_entry(entry: CpuidEntry, vm_spec: &VmSpec) -> (r: Result<
    CpuidEntry,
    Error,
>)
    ensures
        r == spec_update_deterministic_cache_entry(entry, vm_spec),
{
    let mut entry = update_cache_parameters_entry(entry, vm_spec)?;
    let cores = vm_spec.cpu_count() / vm_spec.cpus_per_core();
    if cores == 0 {
        return Err(Error::InternalError(crate::common::Error::InvalidParameters));
    }
    entry.eax = write_field(
        entry.eax,
        CACHE_MAX_CORES_PER_PACKAGE_MSB,
        CACHE_MAX_CORES_PER_PACKAGE_LSB,
        (cores - 1) as u32,
    )?;
    Ok(entry)
}

/// The power management shown to an Intel guest: that of the host, without
/// turbo boost and without the energy performance bias.
pub open spec fn spec_update_power_management_entry(entry: CpuidEntry) -> CpuidEntry {
    CpuidEntry {
        eax: with_bit(entry.eax, POWER_MANAGEMENT_TURBO_BOOST, false),
        ecx: with_bit(entry.ecx, POWER_MANAGEMENT_EPB, false),
        ..entry
    }
}

/// Rewrites the power management (leaf 0x6). It never fails.
pub fn update_power_management_entry(entry: CpuidEntry, vm_spec: &VmSpec) -> (r: Result<
    CpuidEntry,
    Error,
>)
    ensures
        r == Ok::<CpuidEntry, Error>(spec_update_power_management_entry(entry)),
{
    let mut entry = entry;
    entry.eax = write_flag(entry.eax, POWER_MANAGEMENT_TURBO_BOOST, false)?;
    entry.ecx = write_flag(entry.ecx, POWER_MANAGEMENT_EPB, false)?;
    Ok(entry)
}

/// The performance monitoring shown to an Intel guest: none.
pub open spec fn spec_update_perf_mon_entry(entry: CpuidEntry) -> CpuidEntry {
    CpuidEntry { eax: 0, ebx: 0, ecx: 0, edx: 0, ..entry }
}

/// Rewrites the performance monitoring (leaf 0xa). It never fails.
pub fn update_perf_mon_entry(entry: CpuidEntry, vm_spec: &VmSpec) -> (r: Result<CpuidEntry, Error>)
    ensures
        r == Ok::<CpuidEntry, Error>(spec_update_perf_mon_entry(entry)),
{
    let mut entry = entry;
    entry.eax = 0;
    entry.ebx = 0;
    entry.ecx = 0;
    entry.edx = 0;
    Ok(entry)
}

/// The rewrites that the Intel transformer registers.
#[derive(Clone, Copy, Debug, PartialEq, Eq)]
pub enum IntelEntryFn {
    /// [`update_feature_info_entry`]
    FeatureInfo,
    /// [`update_deterministic_cache_entry`]
    DeterministicCache,
    /// [`update_power_management_entry`]
    PowerManagement,
    /// [`update_perf_mon_entry`]
    PerfMon,
    /// [`update_extended_topology_entry`]
    ExtendedTopology,
    /// [`update_brand_string_entry`]
    BrandString,
}

impl IntelEntryFn {
    /// What the rewrite makes of `entry` for the guest that `vm_spec`
    /// describes.
    pub open spec fn spec_call(&self, entry: CpuidEntry, vm_spec: &VmSpec) -> Result<CpuidEntry, Error> {
        match self {
            IntelEntryFn::FeatureInfo => spec_update_feature_info_entry(entry, vm_spec),
            IntelEntryFn::DeterministicCache => spec_update_deterministic_cache_entry(entry, vm_spec),
            IntelEntryFn::PowerManagement => Ok(spec_update_power_management_entry(entry)),
            IntelEntryFn::PerfMon => Ok(spec_update_perf_mon_entry(entry)),
            IntelEntryFn::ExtendedTopology => Ok(spec_update_extended_topology_entry(entry, vm_spec)),
            IntelEntryFn::BrandString => Ok(spec_update_brand_string_entry(entry, vm_spec)),
        }
    }
}

impl IntelEntryFn {
    /// Applies the rewrite to `entry`.
    pub fn apply(&self, entry: CpuidEntry, vm_spec: &VmSpec) -> (r: Result<CpuidEntry, Error>)
        ensures
            r == self.spec_call(entry, vm_spec),
    {
        match self {
            IntelEntryFn::FeatureInfo => update_feature_info_entry(entry, vm_spec),
            IntelEntryFn::DeterministicCache => update_deterministic_cache_entry(entry, vm_spec),
            IntelEntryFn::PowerManagement => update_power_management_entry(entry, vm_spec),
            IntelEntryFn::PerfMon => update_perf_mon_entry(entry, vm_spec),
            IntelEntryFn::ExtendedTopology => update_extended_topology_entry(entry, vm_spec),
            IntelEntryFn::BrandString => update_brand_string_entry(entry, vm_spec),
        }
    }
}

impl EntryTransformerFn for IntelEntryFn {
    fn call(&self, entry: CpuidEntry, vm_spec: &VmSpec) -> (r: Result<CpuidEntry, Error>)
        ensures
            r == self.spec_call(entry, vm_spec),
    {
        self.apply(entry, vm_spec)
    }
}

/// The rewrite that the Intel transformer registers for a function.
pub open spec fn spec_entry_transformer_fn(function: u32) -> Option<IntelEntryFn> {
    if function == LEAF_FEATURE_INFO {
        Some(IntelEntryFn::FeatureInfo)
    } else if function == LEAF_DETERMINISTIC_CACHE {
        Some(IntelEntryFn::DeterministicCache)
    } else if function == LEAF_POWER_MANAGEMENT {
        Some(IntelEntryFn::PowerManagement)
    } else if function == LEAF_PERF_MON {
        Some(IntelEntryFn::PerfMon)
    } else if function == LEAF_EXTENDED_TOPOLOGY {
        Some(IntelEntryFn::ExtendedTopology)
    } else if BRAND_STRING_FIRST_LEAF <= function <= BRAND_STRING_LAST_LEAF {
        Some(IntelEntryFn::BrandString)
    } else {
        None
    }
}

/// What a visit of the Intel transformer makes of an entry: the entry itself
/// where no rewrite is registered for its function, else what the rewrite
/// makes of it.
pub open spec fn spec_visit(entry: CpuidEntry, vm_spec: &VmSpec) -> Result<CpuidEntry, Error> {
    match spec_entry_transformer_fn(entry.function) {
        None => Ok(entry),
        Some(f) => f.spec_call(entry, vm_spec),
    }
}

/// The visits of the Intel transformer for the guest that `vm_spec`
/// describes.
pub open spec fn spec_visits(vm_spec: &VmSpec) -> spec_fn(CpuidEntry) -> Result<CpuidEntry, Error> {
    |entry: CpuidEntry| spec_visit(entry, vm_spec)
}

/// Transformer of the leaves of an Intel host.
pub struct IntelCpuidTransformer {}

/// The table of the Intel transformer: the rewrite registered for the
/// function of `entry`, if there is one.
pub fn registered_fn(t: &IntelCpuidTransformer, entry: &CpuidEntry) -> (r: Option<IntelEntryFn>)
    ensures
        r == spec_entry_transformer_fn(entry.function),
{
    let function = entry.function;
    if function == LEAF_FEATURE_INFO {
        Some(IntelEntryFn::FeatureInfo)
    } else if function == LEAF_DETERMINISTIC_CACHE {
        Some(IntelEntryFn::DeterministicCache)
    } else if function == LEAF_POWER_MANAGEMENT {
        Some(IntelEntryFn::PowerManagement)
    } else if function == LEAF_PERF_MON {
        Some(IntelEntryFn::PerfMon)
    } else if function == LEAF_EXTENDED_TOPOLOGY {
        Some(IntelEntryFn::ExtendedTopology)
    } else if BRAND_STRING_FIRST_LEAF <= function && function <= BRAND_STRING_LAST_LEAF {
        Some(IntelEntryFn::BrandString)
    } else {
        None
    }
}

impl CpuidTransformer for IntelCpuidTransformer {
    type EntryFn = IntelEntryFn;

    /// Rewrites the leaves of an Intel host for the guest. On a host of
    /// another vendor the transformer refuses to work and touches nothing.
    /// On an Intel host the pass is a function of the table and the
    /// descriptor: it stops at the first entry whose rewrite fails, with the
    /// error of that rewrite.
    fn process_cpuid(&self, cpuid: &mut CpuId, vm_spec: &VmSpec) -> (r: Result<(), Error>)
        ensures
            vm_spec.cpu_vendor_id()@ != VENDOR_ID_INTEL@ ==> r == Err::<(), Error>(Error::InvalidVendor)
                && final(cpuid)@ == old(cpuid)@,
            vm_spec.cpu_vendor_id()@ == VENDOR_ID_INTEL@ ==> r == pass_result(
                spec_visits(vm_spec),
                old(cpuid)@,
            ) && final(cpuid)@ == pass_entries(spec_visits(vm_spec), old(cpuid)@),
    {
        if !same_vendor(vm_spec.cpu_vendor_id(), &VENDOR_ID_INTEL) {
            return Err(Error::InvalidVendor);
        }
        let r = process_with(registered_fn, IntelEntryFn::apply, self, cpuid, vm_spec);
        proof {
            lemma_pass_of_functions(
                registered_fn,
                IntelEntryFn::apply,
                self,
                vm_spec,
                spec_visits(vm_spec),
                old(cpuid)@,
                cpuid@,
                r,
            );
        }
        r
    }

    fn entry_transformer_fn(&self, entry: &CpuidEntry) -> (r: Option<IntelEntryFn>)
        ensures
            r == spec_entry_transformer_fn(entry.function),
    {
        registered_fn(self, entry)
    }
}

} // verus!
