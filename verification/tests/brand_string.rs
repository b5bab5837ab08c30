use cpuid::brand_string::{
    BrandString, Reg, BRAND_STRING_FIRST_LEAF, BRAND_STRING_LAST_LEAF, BRAND_STRING_SIZE,
    DEFAULT_BRAND_STRING_AMD, DEFAULT_BRAND_STRING_INTEL,
};
use cpuid::common::{VENDOR_ID_AMD, VENDOR_ID_INTEL};

fn padded(text: &[u8]) -> [u8; 48] {
    let mut bytes = [0u8; 48];
    bytes[..text.len()].copy_from_slice(text);
    bytes
}

#[test]
fn test_brand_string_constants() {
    assert_eq!(&DEFAULT_BRAND_STRING_INTEL, b"Intel(R) Xeon(R) Processor");
    assert_eq!(&DEFAULT_BRAND_STRING_AMD, b"AMD EPYC");
    assert_eq!(BRAND_STRING_SIZE, 48);
    assert_eq!(BRAND_STRING_FIRST_LEAF, 0x8000_0002);
    assert_eq!(BRAND_STRING_LAST_LEAF, 0x8000_0004);
}

#[test]
fn test_brand_string_from_vendor_id() {
    assert_eq!(
        BrandString::from_vendor_id(&VENDOR_ID_INTEL).as_bytes(),
        &padded(b"Intel(R) Xeon(R) Processor")
    );
    assert_eq!(BrandString::from_vendor_id(&VENDOR_ID_AMD).as_bytes(), &padded(b"AMD EPYC"));
}

#[test]
fn test_brand_string_of_unknown_vendor() {
    assert_eq!(BrandString::from_vendor_id(b"............").as_bytes(), &[0u8; 48]);
    assert_eq!(BrandString::from_vendor_id(b"GenuineIntex").as_bytes(), &[0u8; 48]);
    assert_eq!(BrandString::from_vendor_id(&[0u8; 12]).as_bytes(), &[0u8; 48]);
}

#[test]
fn test_brand_string_from_bytes() {
    assert_eq!(BrandString::from_bytes(b"abc").as_bytes(), &padded(b"abc"));
    assert_eq!(BrandString::from_bytes(b"").as_bytes(), &[0u8; 48]);

    let long: Vec<u8> = (1..=60).collect();
    let cut: Vec<u8> = (1..=48).collect();
    assert_eq!(&BrandString::from_bytes(&long).as_bytes()[..], &cut[..]);
}

#[test]
fn test_brand_string_registers() {
    let amd = BrandString::from_vendor_id(&VENDOR_ID_AMD);
    assert_eq!(amd.get_reg_for_leaf(0x8000_0002, Reg::Eax), u32::from_le_bytes(*b"AMD "));
    assert_eq!(amd.get_reg_for_leaf(0x8000_0002, Reg::Ebx), u32::from_le_bytes(*b"EPYC"));
    assert_eq!(amd.get_reg_for_leaf(0x8000_0002, Reg::Ecx), 0);
    assert_eq!(amd.get_reg_for_leaf(0x8000_0002, Reg::Edx), 0);
    assert_eq!(amd.get_reg_for_leaf(0x8000_0003, Reg::Eax), 0);

    let text: Vec<u8> = (1..=48).collect();
    let all = BrandString::from_bytes(&text);
    assert_eq!(all.get_reg_for_leaf(0x8000_0002, Reg::Eax), 0x0403_0201);
    assert_eq!(all.get_reg_for_leaf(0x8000_0002, Reg::Edx), 0x100f_0e0d);
    assert_eq!(all.get_reg_for_leaf(0x8000_0003, Reg::Ebx), 0x1817_1615);
    assert_eq!(all.get_reg_for_leaf(0x8000_0004, Reg::Ecx), 0x2c2b_2a29);
    assert_eq!(all.get_reg_for_leaf(0x8000_0004, Reg::Edx), 0x302f_2e2d);
}

#[test]
fn test_brand_string_registers_of_other_leaves() {
    let intel = BrandString::from_vendor_id(&VENDOR_ID_INTEL);
    assert_eq!(intel.get_reg_for_leaf(0x8000_0002, Reg::Eax), u32::from_le_bytes(*b"Inte"));
    assert_eq!(intel.get_reg_for_leaf(0x8000_0001, Reg::Eax), 0);
    assert_eq!(intel.get_reg_for_leaf(0x8000_0005, Reg::Eax), 0);
    assert_eq!(intel.get_reg_for_leaf(0, Reg::Eax), 0);
    assert_eq!(intel.get_reg_for_leaf(2, Reg::Eax), 0);
}

#[test]
fn test_reg_position() {
    assert_eq!(Reg::Eax.position(), 0);
    assert_eq!(Reg::Ebx.position(), 1);
    assert_eq!(Reg::Ecx.position(), 2);
    assert_eq!(Reg::Edx.position(), 3);
}
