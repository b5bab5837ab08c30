//! Queries of the CPUID instruction of the host.

use vstd::prelude::*;

verus! {

/// The vendor id that Intel processors report: `GenuineIntel`.
pub const VENDOR_ID_INTEL: [u8; 12] = [
    0x47, 0x65, 0x6e, 0x75, 0x69, 0x6e, 0x65, 0x49, 0x6e, 0x74, 0x65, 0x6c,
];

/// The vendor id that AMD processors report: `AuthenticAMD`.
pub const VENDOR_ID_AMD: [u8; 12] = [
    0x41, 0x75, 0x74, 0x68, 0x65, 0x6e, 0x74, 0x69, 0x63, 0x41, 0x4d, 0x44,
];

/// Bit of a function number that tells the extended functions from the
/// basic ones.
pub const EXTENDED_FUNCTIONS: u32 = 0x8000_0000;

/// Errors of the helpers shared by the leaf rewrites.
#[derive(Clone, Copy, Debug, PartialEq, Eq)]
pub enum Error {
    /// A helper was called with parameters it cannot work on.
    InvalidParameters,
    /// The host does not support the function asked for.
    NotSupported,
}

/// The four registers that one CPUID query fills.
#[derive(Clone, Copy, Debug, PartialEq, Eq)]
pub struct CpuidRegisters {
    pub eax: u32,
    pub ebx: u32,
    pub ecx: u32,
    pub edx: u32,
}

impl CpuidRegisters {
    /// No register holds anything.
    pub open spec fn is_blank(&self) -> bool {
        self.eax == 0 && self.ebx == 0 && self.ecx == 0 && self.edx == 0
    }
}

/// Byte `k` of `word`, counting from the least significant one.
pub open spec fn le_byte(word: u32, k: u32) -> u8 {
    ((word >> (8 * k) as u32) & 0xff) as u8
}

/// The four bytes of `word`, least significant first.
pub open spec fn le_bytes(word: u32) -> Seq<u8> {
    seq![le_byte(word, 0), le_byte(word, 1), le_byte(word, 2), le_byte(word, 3)]
}

/// The vendor id that leaf 0 spells in `ebx`, `edx`, `ecx`, in that order.
pub open spec fn spec_vendor_id(leaf: CpuidRegisters) -> Seq<u8> {
    le_bytes(leaf.ebx) + le_bytes(leaf.edx) + le_bytes(leaf.ecx)
}

/// What a query of `function` is worth, given the highest function
/// `max_function` that the host answers in the same group and the registers
/// `leaf` that the query filled.
pub open spec fn spec_checked_leaf(function: u32, max_function: u32, leaf: CpuidRegisters) -> Result<
    CpuidRegisters,
    Error,
> {
    if function > max_function {
        Err(Error::NotSupported)
    } else if leaf.is_blank() {
        Err(Error::InvalidParameters)
    } else {
        Ok(leaf)
    }
}

/// `core::arch::x86_64::__cpuid_count`: the registers that the CPUID
/// instruction of the host fills for `function` and `count`. Nothing is
/// claimed of them: they are the host's.
#[verifier::external_body]
fn host_cpuid(function: u32, count: u32) -> CpuidRegisters {
    let r = core::arch::x86_64::__cpuid_count(function, count);
    CpuidRegisters { eax: r.eax, ebx: r.ebx, ecx: r.ecx, edx: r.edx }
}

/// Judges the answer of the host to a query of `function`: the function has
/// to be one the host supports, and the registers must hold something.
pub fn checked_leaf(function: u32, max_function: u32, leaf: CpuidRegisters) -> (r: Result<
    CpuidRegisters,
    Error,
>)
    ensures
        r == spec_checked_leaf(function, max_function, leaf),
{
    if function > max_function {
        Err(Error::NotSupported)
    } else if leaf.eax == 0 && leaf.ebx == 0 && leaf.ecx == 0 && leaf.edx == 0 {
        Err(Error::InvalidParameters)
    } else {
        Ok(leaf)
    }
}

/// Runs CPUID on the host for `function` and `count`.
///
/// The registers come from the host, so the contract says only what holds of
/// every answer; [`checked_leaf`] says how each answer is judged.
pub fn get_cpuid(function: u32, count: u32) -> (r: Result<CpuidRegisters, Error>)
    ensures
        r matches Ok(leaf) ==> !leaf.is_blank(),
        r matches Err(e) ==> e == Error::NotSupported || e == Error::InvalidParameters,
        exists|max_function: u32, leaf: CpuidRegisters|
            r == #[trigger] spec_checked_leaf(function, max_function, leaf),
{
    let max_function = host_cpuid(function & EXTENDED_FUNCTIONS, 0).eax;
    let leaf = host_cpuid(function, count);
    checked_leaf(function, max_function, leaf)
}

/// The vendor id that the registers of leaf 0 spell.
pub fn vendor_id_of(leaf: &CpuidRegisters) -> (id: [u8; 12])
    ensures
        id@ == spec_vendor_id(*leaf),
{
    let b = leaf.ebx;
    let d = leaf.edx;
    let c = leaf.ecx;
    let id = [
        byte_of(b, 0), byte_of(b, 1), byte_of(b, 2), byte_of(b, 3),
        byte_of(d, 0), byte_of(d, 1), byte_of(d, 2), byte_of(d, 3),
        byte_of(c, 0), byte_of(c, 1), byte_of(c, 2), byte_of(c, 3),
    ];
    assert(id@ =~= spec_vendor_id(*leaf));
    id
}

/// Byte `k` of `word`, counting from the least significant one.
pub fn byte_of(word: u32, k: u32) -> (b: u8)
    requires
        k < 4,
    ensures
        b == le_byte(word, k),
{
    let shift: u32 = 8 * k;
    let low: u32 = (word >> shift) & 0xff;
    assert(low <= 0xff) by (bit_vector)
        requires
            low == (word >> shift) & 0xff,
    ;
    low as u8
}

/// Whether two vendor ids are the same twelve bytes.
pub fn same_vendor(a: &[u8; 12], b: &[u8; 12]) -> (same: bool)
    ensures
        same == (a@ == b@),
{
    let mut i: usize = 0;
    while i < 12
        invariant
            i <= 12,
            forall|j: int| 0 <= j < i ==> a@[j] == b@[j],
        decreases 12 - i,
    {
        if a[i] != b[i] {
            return false;
        }
        i += 1;
    }
    assert(a@ =~= b@);
    true
}

/// Extracts the CPU vendor id from leaf 0x0 of the host.
pub fn get_vendor_id_from_host() -> (r: Result<[u8; 12], Error>)
    ensures
        exists|max_function: u32, leaf: CpuidRegisters| #[trigger]
            vendor_id_answered(max_function, leaf, r),
        r matches Err(e) ==> e == Error::InvalidParameters,
{
    let query = get_cpuid(0, 0);
    let r = match query {
        Ok(leaf) => Ok(vendor_id_of(&leaf)),
        Err(e) => Err(e),
    };
    proof {
        let (max_function, leaf) = choose|max_function: u32, leaf: CpuidRegisters|
            query == #[trigger] spec_checked_leaf(0, max_function, leaf);
        assert(vendor_id_answered(max_function, leaf, r));
    }
    r
}

/// `r` is what [`get_vendor_id_from_host`] returns where the host answers
/// function 0 with the registers `leaf` and names `max_function` as its
/// highest basic function: the vendor id that `leaf` spells where the answer
/// is worth anything, else the error of the answer. Function 0 is never
/// above the highest function, so the one error there is, is that of a blank
/// answer.
pub open spec fn vendor_id_answered(
    max_function: u32,
    leaf: CpuidRegisters,
    r: Result<[u8; 12], Error>,
) -> bool {
    match spec_checked_leaf(0, max_function, leaf) {
        Ok(checked) => r matches Ok(id) && id@ == spec_vendor_id(checked),
        Err(e) => r == Err::<[u8; 12], Error>(e),
    }
}

} // verus!
