use cpuid::brand_string::BrandString;
use cpuid::common::{get_vendor_id_from_host, VENDOR_ID_AMD, VENDOR_ID_INTEL};
use cpuid::transformer::{Error, VmSpec};

#[test]
fn test_with_vendor_id_keeps_what_it_is_given() {
    let vm_spec = VmSpec::with_vendor_id(VENDOR_ID_AMD, 3, 8, true);
    assert_eq!(vm_spec.cpu_vendor_id(), &VENDOR_ID_AMD);
    assert_eq!(vm_spec.cpu_index(), 3);
    assert_eq!(vm_spec.cpu_count(), 8);
    assert_eq!(vm_spec.cpu_bits(), 1);
    assert_eq!(vm_spec.cpus_per_core(), 2);
    assert_eq!(*vm_spec.brand_string(), BrandString::from_vendor_id(&VENDOR_ID_AMD));
}

#[test]
fn test_cpu_bits_without_siblings() {
    for cpu_count in [0u8, 1] {
        for smt in [false, true] {
            let vm_spec = VmSpec::with_vendor_id(VENDOR_ID_INTEL, 0, cpu_count, smt);
            assert_eq!(vm_spec.cpu_bits(), 0);
            assert_eq!(vm_spec.cpus_per_core(), 1);
        }
    }
    for cpu_count in [2u8, 3, 128, 255] {
        let vm_spec = VmSpec::with_vendor_id(VENDOR_ID_INTEL, 1, cpu_count, false);
        assert_eq!(vm_spec.cpu_bits(), 0);
        assert_eq!(vm_spec.cpus_per_core(), 1);
    }
}

#[test]
fn test_cpu_bits_with_siblings() {
    for cpu_count in [2u8, 3, 128, 255] {
        let vm_spec = VmSpec::with_vendor_id(VENDOR_ID_INTEL, 1, cpu_count, true);
        assert_eq!(vm_spec.cpu_bits(), 1);
        assert_eq!(vm_spec.cpus_per_core(), 2);
    }
}

#[test]
fn test_new_takes_the_vendor_of_the_host() {
    let host = get_vendor_id_from_host().unwrap();
    let vm_spec = VmSpec::new(1, 4, true).unwrap();
    assert_eq!(vm_spec.cpu_vendor_id(), &host);
    assert_eq!(vm_spec.cpu_index(), 1);
    assert_eq!(vm_spec.cpu_count(), 4);
    assert_eq!(vm_spec.cpu_bits(), 1);
    assert_eq!(*vm_spec.brand_string(), BrandString::from_vendor_id(&host));
}

#[test]
fn test_vcpu_count_overflow() {
    assert!(matches!(
        VmSpec::with_vcpu_count(0, 256, true),
        Err(Error::VcpuCountOverflow)
    ));
    assert!(matches!(
        VmSpec::with_vcpu_count(0, usize::MAX, false),
        Err(Error::VcpuCountOverflow)
    ));
}

#[test]
fn test_vcpu_count_that_fits() {
    let vm_spec = VmSpec::with_vcpu_count(0, 2, true).unwrap();
    assert_eq!(vm_spec.cpu_count(), 2);
    assert_eq!(vm_spec.cpu_bits(), 1);

    let vm_spec = VmSpec::with_vcpu_count(0, 2, false).unwrap();
    assert_eq!(vm_spec.cpu_bits(), 0);

    let vm_spec = VmSpec::with_vcpu_count(7, 255, true).unwrap();
    assert_eq!(vm_spec.cpu_count(), 255);
    assert_eq!(vm_spec.cpu_index(), 7);
}
