use cpuid::common::{
    byte_of, checked_leaf, get_cpuid, get_vendor_id_from_host, same_vendor, vendor_id_of,
    CpuidRegisters, Error, EXTENDED_FUNCTIONS, VENDOR_ID_AMD, VENDOR_ID_INTEL,
};

#[test]
fn test_vendor_ids() {
    assert_eq!(&VENDOR_ID_INTEL, b"GenuineIntel");
    assert_eq!(&VENDOR_ID_AMD, b"AuthenticAMD");
    assert_eq!(EXTENDED_FUNCTIONS, 0x8000_0000);
}

#[test]
fn test_checked_leaf() {
    let leaf = CpuidRegisters { eax: 1, ebx: 0, ecx: 0, edx: 0 };
    let blank = CpuidRegisters { eax: 0, ebx: 0, ecx: 0, edx: 0 };

    assert_eq!(checked_leaf(4, 4, leaf), Ok(leaf));
    assert_eq!(checked_leaf(0, 0x16, leaf), Ok(leaf));
    assert_eq!(checked_leaf(5, 4, leaf), Err(Error::NotSupported));
    assert_eq!(checked_leaf(5, 4, blank), Err(Error::NotSupported));
    assert_eq!(checked_leaf(4, 4, blank), Err(Error::InvalidParameters));
    assert_eq!(
        checked_leaf(4, 4, CpuidRegisters { eax: 0, ebx: 0, ecx: 0, edx: 1 }),
        Ok(CpuidRegisters { eax: 0, ebx: 0, ecx: 0, edx: 1 })
    );
}

#[test]
fn test_vendor_id_of() {
    let intel = CpuidRegisters { eax: 0x16, ebx: 0x756e_6547, ecx: 0x6c65_746e, edx: 0x4965_6e69 };
    assert_eq!(vendor_id_of(&intel), VENDOR_ID_INTEL);

    let amd = CpuidRegisters { eax: 0x10, ebx: 0x6874_7541, ecx: 0x444d_4163, edx: 0x6974_6e65 };
    assert_eq!(vendor_id_of(&amd), VENDOR_ID_AMD);
}

#[test]
fn test_byte_of() {
    assert_eq!(byte_of(0x1234_5678, 0), 0x78);
    assert_eq!(byte_of(0x1234_5678, 1), 0x56);
    assert_eq!(byte_of(0x1234_5678, 2), 0x34);
    assert_eq!(byte_of(0x1234_5678, 3), 0x12);
}

#[test]
fn test_same_vendor() {
    assert!(same_vendor(&VENDOR_ID_INTEL, b"GenuineIntel"));
    assert!(!same_vendor(&VENDOR_ID_INTEL, &VENDOR_ID_AMD));
    assert!(!same_vendor(b"GenuineIntex", &VENDOR_ID_INTEL));
    assert!(!same_vendor(b"genuineIntel", &VENDOR_ID_INTEL));
}

#[test]
fn test_get_cpuid_of_the_host() {
    let leaf = get_cpuid(0, 0).unwrap();
    assert!(leaf.eax != 0 || leaf.ebx != 0 || leaf.ecx != 0 || leaf.edx != 0);
    assert_eq!(get_vendor_id_from_host(), Ok(vendor_id_of(&leaf)));

    assert_eq!(get_cpuid(leaf.eax + 1, 0), Err(Error::NotSupported));
    assert_eq!(get_cpuid(0x7fff_ffff, 0), Err(Error::NotSupported));
}
