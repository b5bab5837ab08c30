//! The processor brand string shown to the guest.

use vstd::prelude::*;
use crate::common::same_vendor;
use crate::common::VENDOR_ID_AMD;
use crate::common::VENDOR_ID_INTEL;

verus! {

/// First of the three leaves that carry the brand string.
pub const BRAND_STRING_FIRST_LEAF: u32 = 0x8000_0002;

/// Last of the three leaves that carry the brand string.
pub const BRAND_STRING_LAST_LEAF: u32 = 0x8000_0004;

/// Bytes that the three leaves carry together: four registers of four bytes
/// in each.
pub const BRAND_STRING_SIZE: usize = 48;

/// Name given to the processor of an Intel guest: `Intel(R) Xeon(R) Processor`.
pub const DEFAULT_BRAND_STRING_INTEL: [u8; 26] = [
    0x49, 0x6e, 0x74, 0x65, 0x6c, 0x28, 0x52, 0x29, 0x20, 0x58, 0x65, 0x6f, 0x6e, 0x28, 0x52, 0x29,
    0x20, 0x50, 0x72, 0x6f, 0x63, 0x65, 0x73, 0x73, 0x6f, 0x72,
];

/// Name given to the processor of an AMD guest: `AMD EPYC`.
pub const DEFAULT_BRAND_STRING_AMD: [u8; 8] = [0x41, 0x4d, 0x44, 0x20, 0x45, 0x50, 0x59, 0x43];

/// A register of a brand string leaf.
#[derive(Clone, Copy, Debug, PartialEq, Eq)]
pub enum Reg {
    Eax,
    Ebx,
    Ecx,
    Edx,
}

impl Reg {
    /// Place of the register in a leaf: `eax` first, `edx` last.
    pub open spec fn spec_position(self) -> int {
        match self {
            Reg::Eax => 0,
            Reg::Ebx => 1,
            Reg::Ecx => 2,
            Reg::Edx => 3,
        }
    }

    /// Place of the register in a leaf: `eax` first, `edx` last.
    pub fn position(self) -> (p: usize)
        ensures
            p == self.spec_position(),
    {
        match self {
            Reg::Eax => 0,
            Reg::Ebx => 1,
            Reg::Ecx => 2,
            Reg::Edx => 3,
        }
    }
}

/// The word that four bytes make, the first byte being the least significant.
pub open spec fn le_word(b0: u8, b1: u8, b2: u8, b3: u8) -> u32 {
    (b0 as u32) | ((b1 as u32) << 8u32) | ((b2 as u32) << 16u32) | ((b3 as u32) << 24u32)
}

/// `text`, cut or filled with NUL bytes to the size of a brand string.
pub open spec fn spec_padded(text: Seq<u8>) -> Seq<u8> {
    Seq::new(
        BRAND_STRING_SIZE as nat,
        |i: int|
            if i < text.len() {
                text[i]
            } else {
                0u8
            },
    )
}

/// The name that goes with a vendor id: Intel's and AMD's own, and for any
/// other vendor the empty name, which claims nothing.
pub open spec fn spec_default_text(vendor_id: Seq<u8>) -> Seq<u8> {
    if vendor_id == VENDOR_ID_INTEL@ {
        DEFAULT_BRAND_STRING_INTEL@
    } else if vendor_id == VENDOR_ID_AMD@ {
        DEFAULT_BRAND_STRING_AMD@
    } else {
        Seq::empty()
    }
}

/// The brand string of a processor: its name in at most 48 bytes, filled up
/// with NUL bytes.
#[derive(Clone, Copy, Debug, PartialEq, Eq)]
pub struct BrandString {
    bytes: [u8; 48],
}

impl View for BrandString {
    type V = Seq<u8>;

    closed spec fn view(&self) -> Seq<u8> {
        self.bytes@
    }
}

impl BrandString {
    /// The brand string of a guest on a host of the given vendor.
    pub open spec fn spec_from_vendor_id(vendor_id: Seq<u8>) -> Seq<u8> {
        spec_padded(spec_default_text(vendor_id))
    }

    /// Byte at which the register `reg` of leaf `leaf` starts.
    pub open spec fn spec_offset(leaf: u32, reg: Reg) -> int {
        (leaf - BRAND_STRING_FIRST_LEAF) * 16 + reg.spec_position() * 4
    }

    /// What the register `reg` of leaf `leaf` holds: four bytes of the
    /// string in a brand string leaf, zero in any other.
    pub open spec fn spec_reg_for_leaf(&self, leaf: u32, reg: Reg) -> u32 {
        if BRAND_STRING_FIRST_LEAF <= leaf <= BRAND_STRING_LAST_LEAF {
            let at = Self::spec_offset(leaf, reg);
            le_word(self@[at], self@[at + 1], self@[at + 2], self@[at + 3])
        } else {
            0
        }
    }

    /// A brand string always has 48 bytes.
    pub proof fn lemma_len(&self)
        ensures
            self@.len() == BRAND_STRING_SIZE,
    {
    }

    /// The brand string that spells `text`; what does not fit is cut off.
    pub fn from_bytes(text: &[u8]) -> (b: BrandString)
        ensures
            b@ == spec_padded(text@),
    {
        let mut bytes = [0u8; 48];
        let mut i: usize = 0;
        while i < 48 && i < text.len()
            invariant
                i <= 48,
                i <= text@.len(),
                forall|j: int| 0 <= j < i ==> bytes@[j] == text@[j],
                forall|j: int| i <= j < 48 ==> bytes@[j] == 0u8,
            decreases 48 - i,
        {
            bytes[i] = text[i];
            i += 1;
        }
        assert(bytes@ =~= spec_padded(text@));
        BrandString { bytes }
    }

    /// Creates the brand string of a guest from the vendor id of the host.
    pub fn from_vendor_id(vendor_id: &[u8; 12]) -> (b: BrandString)
        ensures
            b@ == Self::spec_from_vendor_id(vendor_id@),
    {
        if same_vendor(vendor_id, &VENDOR_ID_INTEL) {
            let text = DEFAULT_BRAND_STRING_INTEL;
            Self::from_bytes(text.as_slice())
        } else if same_vendor(vendor_id, &VENDOR_ID_AMD) {
            let text = DEFAULT_BRAND_STRING_AMD;
            Self::from_bytes(text.as_slice())
        } else {
            let text: [u8; 0] = [];
            Self::from_bytes(text.as_slice())
        }
    }

    /// The 48 bytes of the string.
    pub fn as_bytes(&self) -> (bytes: &[u8; 48])
        ensures
            bytes@ == self@,
    {
        &self.bytes
    }

    /// Gets the value of register `reg` of the cpuid leaf `leaf`: four bytes
    /// of the string for one of the three brand string leaves, zero for any
    /// other leaf.
    pub fn get_reg_for_leaf(&self, leaf: u32, reg: Reg) -> (r: u32)
        ensures
            r == self.spec_reg_for_leaf(leaf, reg),
    {
        if BRAND_STRING_FIRST_LEAF <= leaf && leaf <= BRAND_STRING_LAST_LEAF {
            let at: usize = (leaf - BRAND_STRING_FIRST_LEAF) as usize * 16 + reg.position() * 4;
            let b0 = self.bytes[at];
            let b1 = self.bytes[at + 1];
            let b2 = self.bytes[at + 2];
            let b3 = self.bytes[at + 3];
            (b0 as u32) | ((b1 as u32) << 8u32) | ((b2 as u32) << 16u32) | ((b3 as u32) << 24u32)
        } else {
            0
        }
    }
}

} // verus!
