use cpuid::common::{VENDOR_ID_AMD, VENDOR_ID_INTEL};
use cpuid::kvm::{CpuId, CpuidEntry};
use cpuid::transformer::intel::{
    registered_fn, update_deterministic_cache_entry, update_feature_info_entry,
    update_perf_mon_entry, update_power_management_entry, IntelCpuidTransformer, IntelEntryFn,
};
use cpuid::transformer::{CpuidTransformer, EntryTransformerFn, Error, VmSpec};

fn entry(function: u32, index: u32, eax: u32, ebx: u32, ecx: u32, edx: u32) -> CpuidEntry {
    CpuidEntry { function, index, flags: 1, eax, ebx, ecx, edx, padding: [7, 8, 9] }
}

const INTERNAL: Error = Error::InternalError(cpuid::common::Error::InvalidParameters);

#[test]
fn test_intel_update_feature_info_entry() {
    let vm_spec = VmSpec::with_vendor_id(VENDOR_ID_INTEL, 3, 5, true);
    let before = entry(1, 0, 0, 0x1234_5678, 0xffff_ffff, 0);
    assert_eq!(
        update_feature_info_entry(before, &vm_spec),
        Ok(CpuidEntry { ebx: 0x0308_0878, ecx: 0xffff_7fff, edx: 0x1000_0000, ..before })
    );

    let vm_spec = VmSpec::with_vendor_id(VENDOR_ID_INTEL, 3, 129, true);
    assert_eq!(update_feature_info_entry(before, &vm_spec), Err(Error::VcpuCountOverflow));
}

#[test]
fn test_intel_update_deterministic_cache_entry() {
    let vm_spec = VmSpec::with_vendor_id(VENDOR_ID_INTEL, 0, 4, true);
    let before = entry(4, 0, 0x20, 1, 2, 3);
    assert_eq!(
        update_deterministic_cache_entry(before, &vm_spec),
        Ok(CpuidEntry { eax: 0x0400_4020, ..before })
    );

    let vm_spec = VmSpec::with_vendor_id(VENDOR_ID_INTEL, 0, 64, false);
    let before = entry(4, 2, 0xffff_ff5f, 1, 2, 3);
    assert_eq!(
        update_deterministic_cache_entry(before, &vm_spec),
        Ok(CpuidEntry { eax: 0xfc00_3f5f, ..before })
    );

    let before = entry(4, 2, 0xffff_ffff, 1, 2, 3);
    assert_eq!(update_deterministic_cache_entry(before, &vm_spec), Ok(before));

    let vm_spec = VmSpec::with_vendor_id(VENDOR_ID_INTEL, 0, 1, false);
    let before = entry(4, 2, 0xffff_ff7f, 1, 2, 3);
    assert_eq!(
        update_deterministic_cache_entry(before, &vm_spec),
        Ok(CpuidEntry { eax: 0x0000_3f7f, ..before })
    );
}

#[test]
fn test_intel_update_deterministic_cache_entry_out_of_range() {
    let before = entry(4, 0, 0x20, 1, 2, 3);
    let vm_spec = VmSpec::with_vendor_id(VENDOR_ID_INTEL, 0, 65, false);
    assert_eq!(update_deterministic_cache_entry(before, &vm_spec), Err(INTERNAL));
    let vm_spec = VmSpec::with_vendor_id(VENDOR_ID_INTEL, 0, 200, false);
    assert_eq!(update_deterministic_cache_entry(before, &vm_spec), Err(INTERNAL));
    let vm_spec = VmSpec::with_vendor_id(VENDOR_ID_INTEL, 0, 0, false);
    assert_eq!(update_deterministic_cache_entry(before, &vm_spec), Err(INTERNAL));

    let vm_spec = VmSpec::with_vendor_id(VENDOR_ID_INTEL, 0, 128, true);
    assert_eq!(
        update_deterministic_cache_entry(before, &vm_spec),
        Ok(CpuidEntry { eax: 0xfc00_4020, ..before })
    );
    let vm_spec = VmSpec::with_vendor_id(VENDOR_ID_INTEL, 0, 130, true);
    assert_eq!(update_deterministic_cache_entry(before, &vm_spec), Err(INTERNAL));
}

#[test]
fn test_intel_update_power_management_entry() {
    let vm_spec = VmSpec::with_vendor_id(VENDOR_ID_INTEL, 0, 1, false);
    let before = entry(6, 0, 0xffff_ffff, 0xffff_ffff, 0xffff_ffff, 0xffff_ffff);
    assert_eq!(
        update_power_management_entry(before, &vm_spec),
        Ok(CpuidEntry { eax: 0xffff_fffd, ecx: 0xffff_fff7, ..before })
    );
    let before = entry(6, 0, 0, 0, 0, 0);
    assert_eq!(update_power_management_entry(before, &vm_spec), Ok(before));
}

#[test]
fn test_intel_update_perf_mon_entry() {
    let vm_spec = VmSpec::with_vendor_id(VENDOR_ID_INTEL, 0, 1, false);
    let before = entry(0xa, 0, 1, 2, 3, 4);
    assert_eq!(
        update_perf_mon_entry(before, &vm_spec),
        Ok(CpuidEntry { eax: 0, ebx: 0, ecx: 0, edx: 0, ..before })
    );
}

#[test]
fn test_intel_registered_functions() {
    let t = IntelCpuidTransformer {};
    let lookup = |function: u32| t.entry_transformer_fn(&entry(function, 0, 0, 0, 0, 0));
    assert_eq!(lookup(0x1), Some(IntelEntryFn::FeatureInfo));
    assert_eq!(lookup(0x4), Some(IntelEntryFn::DeterministicCache));
    assert_eq!(lookup(0x6), Some(IntelEntryFn::PowerManagement));
    assert_eq!(lookup(0xa), Some(IntelEntryFn::PerfMon));
    assert_eq!(lookup(0xb), Some(IntelEntryFn::ExtendedTopology));
    assert_eq!(lookup(0x8000_0002), Some(IntelEntryFn::BrandString));
    assert_eq!(lookup(0x8000_0003), Some(IntelEntryFn::BrandString));
    assert_eq!(lookup(0x8000_0004), Some(IntelEntryFn::BrandString));
    for function in [0u32, 2, 3, 5, 7, 0xd, 0x8000_0000, 0x8000_0001, 0x8000_0005, 0x8000_001d] {
        assert_eq!(lookup(function), None);
        assert_eq!(registered_fn(&t, &entry(function, 0, 0, 0, 0, 0)), None);
    }
}

#[test]
fn test_intel_entry_fn_calls_its_rewrite() {
    let vm_spec = VmSpec::with_vendor_id(VENDOR_ID_INTEL, 1, 2, true);
    let before = entry(0xb, 0, 9, 9, 9, 9);
    assert_eq!(
        IntelEntryFn::ExtendedTopology.call(before, &vm_spec),
        Ok(CpuidEntry { eax: 1, ebx: 2, ecx: 0x100, edx: 1, ..before })
    );
    assert_eq!(
        IntelEntryFn::PerfMon.apply(before, &vm_spec),
        Ok(CpuidEntry { eax: 0, ebx: 0, ecx: 0, edx: 0, ..before })
    );
    assert_eq!(
        IntelEntryFn::PowerManagement.call(before, &vm_spec),
        Ok(CpuidEntry { eax: 9, ecx: 1, ..before })
    );
    assert_eq!(
        IntelEntryFn::FeatureInfo.call(before, &vm_spec),
        Ok(CpuidEntry { ebx: 0x0102_0809, ecx: 0x8100_0009, edx: 0x1000_0009, ..before })
    );
    assert_eq!(
        IntelEntryFn::DeterministicCache.call(entry(4, 0, 0x60, 0, 0, 0), &vm_spec),
        Ok(entry(4, 0, 0x4060, 0, 0, 0))
    );
    assert_eq!(
        IntelEntryFn::BrandString.call(entry(0x8000_0002, 0, 0, 0, 0, 0), &vm_spec),
        Ok(entry(
            0x8000_0002,
            0,
            u32::from_le_bytes(*b"Inte"),
            u32::from_le_bytes(*b"l(R)"),
            u32::from_le_bytes(*b" Xeo"),
            u32::from_le_bytes(*b"n(R)")
        ))
    );
}

#[test]
fn test_intel_process_cpuid() {
    let vm_spec = VmSpec::with_vendor_id(VENDOR_ID_INTEL, 1, 2, true);
    let before = vec![
        entry(0x0, 0, 0x16, 0x756e_6547, 0x6c65_746e, 0x4965_6e69),
        entry(0x1, 0, 0, 0, 0xffff_ffff, 0),
        entry(0x4, 0, 0x20, 1, 2, 3),
        entry(0x6, 0, 0xf, 0, 0xf, 0),
        entry(0xa, 0, 1, 2, 3, 4),
        entry(0xb, 0, 9, 9, 9, 9),
        entry(0xb, 1, 9, 9, 9, 9),
        entry(0x8000_0004, 0, 1, 2, 3, 4),
        entry(0x1234, 0, 1, 2, 3, 4),
    ];
    let mut cpuid = CpuId::from_entries(&before).unwrap();

    assert_eq!(IntelCpuidTransformer {}.process_cpuid(&mut cpuid, &vm_spec), Ok(()));

    let after = cpuid.entries();
    assert_eq!(after.len(), before.len());
    assert_eq!(after[0], before[0]);
    assert_eq!(
        after[1],
        CpuidEntry { ebx: 0x0102_0800, ecx: 0xffff_7fff, edx: 0x1000_0000, ..before[1] }
    );
    assert_eq!(after[2], CpuidEntry { eax: 0x0000_4020, ..before[2] });
    assert_eq!(after[3], CpuidEntry { eax: 0xd, ecx: 0x7, ..before[3] });
    assert_eq!(after[4], CpuidEntry { eax: 0, ebx: 0, ecx: 0, edx: 0, ..before[4] });
    assert_eq!(after[5], CpuidEntry { eax: 1, ebx: 2, ecx: 0x100, edx: 1, ..before[5] });
    assert_eq!(after[6], CpuidEntry { eax: 7, ebx: 2, ecx: 0x201, edx: 1, ..before[6] });
    assert_eq!(after[7], CpuidEntry { eax: 0, ebx: 0, ecx: 0, edx: 0, ..before[7] });
    assert_eq!(after[8], before[8]);
}

#[test]
fn test_intel_process_cpuid_stops_at_first_failure() {
    let vm_spec = VmSpec::with_vendor_id(VENDOR_ID_INTEL, 0, 200, false);
    let before = vec![
        entry(0x6, 0, 0xf, 0, 0xf, 0),
        entry(0x2, 0, 1, 2, 3, 4),
        entry(0x1, 0, 0, 0, 0, 0),
        entry(0x6, 0, 0xf, 0, 0xf, 0),
    ];
    let mut cpuid = CpuId::from_entries(&before).unwrap();

    assert_eq!(
        IntelCpuidTransformer {}.process_cpuid(&mut cpuid, &vm_spec),
        Err(Error::VcpuCountOverflow)
    );

    let after = cpuid.entries();
    assert_eq!(after.len(), 4);
    assert_eq!(after[0], CpuidEntry { eax: 0xd, ecx: 0x7, ..before[0] });
    assert_eq!(after[1], before[1]);
    assert_eq!(after[2], before[2]);
    assert_eq!(after[3], before[3]);
}

#[test]
fn test_intel_process_cpuid_invalid_vendor() {
    let before = vec![
        entry(0x1, 0, 0, 0, 0xffff_ffff, 0),
        entry(0x6, 0, 0xf, 0, 0xf, 0),
        entry(0xb, 0, 9, 9, 9, 9),
    ];
    for vendor in [VENDOR_ID_AMD, *b"GenuineIntex", [0u8; 12]] {
        let vm_spec = VmSpec::with_vendor_id(vendor, 0, 2, true);
        let mut cpuid = CpuId::from_entries(&before).unwrap();

        assert_eq!(
            IntelCpuidTransformer {}.process_cpuid(&mut cpuid, &vm_spec),
            Err(Error::InvalidVendor)
        );
        assert_eq!(cpuid.entries(), before);
    }
}

#[test]
fn test_intel_process_entries_does_not_ask_for_the_vendor() {
    let vm_spec = VmSpec::with_vendor_id(VENDOR_ID_AMD, 0, 2, true);
    let before = vec![entry(0x6, 0, 0xf, 0, 0xf, 0), entry(0x2, 0, 1, 2, 3, 4)];
    let mut cpuid = CpuId::from_entries(&before).unwrap();

    assert_eq!(IntelCpuidTransformer {}.process_entries(&mut cpuid, &vm_spec), Ok(()));
    assert_eq!(cpuid.entries(), vec![CpuidEntry { eax: 0xd, ecx: 0x7, ..before[0] }, before[1]]);
}
