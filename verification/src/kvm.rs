//! The CPUID leaf table exchanged with KVM, and one entry of it.

use vstd::prelude::*;

verus! {

/// Largest number of entries a leaf table can hold.
pub const MAX_CPUID_ENTRIES: usize = 256;

/// One CPUID leaf: the registers reported for a (function, index) pair.
///
/// The fields are those of `kvm_bindings::kvm_cpuid_entry2`, one for one.
#[derive(Clone, Copy, Debug, PartialEq, Eq)]
pub struct CpuidEntry {
    pub function: u32,
    pub index: u32,
    pub flags: u32,
    pub eax: u32,
    pub ebx: u32,
    pub ecx: u32,
    pub edx: u32,
    pub padding: [u32; 3],
}

impl CpuidEntry {
    /// The entry whose every field is zero.
    pub open spec fn spec_zeroed() -> CpuidEntry {
        CpuidEntry {
            function: 0,
            index: 0,
            flags: 0,
            eax: 0,
            ebx: 0,
            ecx: 0,
            edx: 0,
            padding: [0u32, 0u32, 0u32],
        }
    }

    /// The entry whose every field is zero.
    pub fn zeroed() -> (e: CpuidEntry)
        ensures
            e == Self::spec_zeroed(),
    {
        CpuidEntry {
            function: 0,
            index: 0,
            flags: 0,
            eax: 0,
            ebx: 0,
            ecx: 0,
            edx: 0,
            padding: [0u32, 0u32, 0u32],
        }
    }
}

/// Why an operation on a leaf table failed.
#[derive(Clone, Copy, Debug, PartialEq, Eq)]
pub enum FamError {
    /// The table would have grown past the largest size it can have.
    SizeLimitExceeded,
}

/// A table of CPUID leaves in the layout KVM takes.
///
/// The table is a `kvm_bindings::CpuId`; Verus is not shown the inside of it.
/// What it holds is named by [`cpuid_entries`].
#[verifier::external_body]
pub struct CpuId {
    inner: kvm_bindings::CpuId,
}

/// The entries of a table, in table order.
pub uninterp spec fn cpuid_entries(cpuid: CpuId) -> Seq<CpuidEntry>;

impl View for CpuId {
    type V = Seq<CpuidEntry>;

    open spec fn view(&self) -> Seq<CpuidEntry> {
        cpuid_entries(*self)
    }
}

/// `kvm_bindings::CpuId::new`: a table of `num_entries` zeroed entries, or
/// the size error when `num_entries` is above the 256 entries KVM accepts.
#[verifier::external_body]
fn fam_new(num_entries: usize) -> (r: Result<CpuId, FamError>)
    ensures
        r is Ok <==> num_entries <= MAX_CPUID_ENTRIES,
        r matches Ok(cpuid) ==> cpuid_entries(cpuid) =~= Seq::new(
            num_entries as nat,
            |i: int| CpuidEntry::spec_zeroed(),
        ),
{
    match kvm_bindings::CpuId::new(num_entries) {
        Ok(inner) => Ok(CpuId { inner }),
        Err(vmm_sys_util::fam::Error::SizeLimitExceeded) => Err(FamError::SizeLimitExceeded),
    }
}

/// `kvm_bindings::CpuId::as_slice`, then the slice's length: the number of
/// entries, which is never above 256.
#[verifier::external_body]
fn fam_len(cpuid: &CpuId) -> (n: usize)
    ensures
        n == cpuid_entries(*cpuid).len(),
        n <= MAX_CPUID_ENTRIES,
{
    cpuid.inner.as_slice().len()
}

/// `kvm_bindings::CpuId::as_slice`, then a copy of the entry at `index`.
#[verifier::external_body]
fn fam_get(cpuid: &CpuId, index: usize) -> (e: CpuidEntry)
    requires
        index < cpuid_entries(*cpuid).len(),
    ensures
        e == cpuid_entries(*cpuid)[index as int],
{
    let e = &cpuid.inner.as_slice()[index];
    CpuidEntry {
        function: e.function,
        index: e.index,
        flags: e.flags,
        eax: e.eax,
        ebx: e.ebx,
        ecx: e.ecx,
        edx: e.edx,
        padding: e.padding,
    }
}

/// `kvm_bindings::CpuId::as_mut_slice`, then a store to the entry at
/// `index`: that entry becomes `entry`, the others stay.
#[verifier::external_body]
fn fam_set(cpuid: &mut CpuId, index: usize, entry: CpuidEntry)
    requires
        index < cpuid_entries(*old(cpuid)).len(),
    ensures
        cpuid_entries(*final(cpuid)) == cpuid_entries(*old(cpuid)).update(index as int, entry),
{
    cpuid.inner.as_mut_slice()[index] = kvm_bindings::kvm_cpuid_entry2 {
        function: entry.function,
        index: entry.index,
        flags: entry.flags,
        eax: entry.eax,
        ebx: entry.ebx,
        ecx: entry.ecx,
        edx: entry.edx,
        padding: entry.padding,
    };
}

/// `kvm_bindings::CpuId::push`: with fewer than 256 entries in the table,
/// `entry` is appended; with 256 the table stays as it is and the size error
/// is returned.
#[verifier::external_body]
fn fam_push(cpuid: &mut CpuId, entry: CpuidEntry) -> (r: Result<(), FamError>)
    ensures
        r is Ok <==> cpuid_entries(*old(cpuid)).len() < MAX_CPUID_ENTRIES,
        cpuid_entries(*final(cpuid)) == if r is Ok {
            cpuid_entries(*old(cpuid)).push(entry)
        } else {
            cpuid_entries(*old(cpuid))
        },
{
    let pushed = cpuid.inner.push(kvm_bindings::kvm_cpuid_entry2 {
        function: entry.function,
        index: entry.index,
        flags: entry.flags,
        eax: entry.eax,
        ebx: entry.ebx,
        ecx: entry.ecx,
        edx: entry.edx,
        padding: entry.padding,
    });
    match pushed {
        Ok(()) => Ok(()),
        Err(vmm_sys_util::fam::Error::SizeLimitExceeded) => Err(FamError::SizeLimitExceeded),
    }
}

/// The entries that stay where those of function `removed` go.
pub open spec fn other_functions(removed: u32) -> spec_fn(CpuidEntry) -> bool {
    |e: CpuidEntry| e.function != removed
}

/// Whether an entry of function `function` is to stay where the entries of
/// function `removed` go.
pub fn is_other_function(function: u32, removed: u32) -> (other: bool)
    ensures
        other == (function != removed),
{
    function != removed
}

/// `kvm_bindings::CpuId::retain`, keeping what [`is_other_function`] keeps:
/// the entries of function `removed` leave the table, the others stay in
/// their order.
#[verifier::external_body]
fn fam_retain_other_functions(cpuid: &mut CpuId, removed: u32)
    ensures
        cpuid_entries(*final(cpuid)) == cpuid_entries(*old(cpuid)).filter(other_functions(removed)),
{
    cpuid.inner.retain(|e| is_other_function(e.function, removed));
}

impl CpuId {
    /// A table of `num_entries` zeroed entries.
    pub fn new(num_entries: usize) -> (r: Result<CpuId, FamError>)
        ensures
            r is Ok <==> num_entries <= MAX_CPUID_ENTRIES,
            r matches Ok(cpuid) ==> cpuid@ =~= Seq::new(
                num_entries as nat,
                |i: int| CpuidEntry::spec_zeroed(),
            ),
    {
        fam_new(num_entries)
    }

    /// The number of entries.
    pub fn len(&self) -> (n: usize)
        ensures
            n == self@.len(),
            n <= MAX_CPUID_ENTRIES,
    {
        fam_len(self)
    }

    /// The entry at `index`, if there is one.
    pub fn get(&self, index: usize) -> (r: Option<CpuidEntry>)
        ensures
            r == if index < self@.len() { Some(self@[index as int]) } else { None },
    {
        if index < fam_len(self) {
            Some(fam_get(self, index))
        } else {
            None
        }
    }

    /// Stores `entry` at `index`. Returns whether there is such a place;
    /// without one the table is left as it was.
    pub fn set(&mut self, index: usize, entry: CpuidEntry) -> (done: bool)
        ensures
            done == (index < old(self)@.len()),
            final(self)@ == if done { old(self)@.update(index as int, entry) } else { old(self)@ },
    {
        if index < fam_len(self) {
            fam_set(self, index, entry);
            true
        } else {
            false
        }
    }

    /// Appends `entry`. A table that already holds 256 entries cannot grow:
    /// it is left as it was.
    pub fn push(&mut self, entry: CpuidEntry) -> (r: Result<(), FamError>)
        ensures
            r is Ok <==> old(self)@.len() < MAX_CPUID_ENTRIES,
            final(self)@ == if r is Ok { old(self)@.push(entry) } else { old(self)@ },
    {
        fam_push(self, entry)
    }

    /// Removes the entries of function `function`. The others stay in their
    /// order.
    pub fn remove_function(&mut self, function: u32)
        ensures
            final(self)@ == old(self)@.filter(other_functions(function)),
    {
        fam_retain_other_functions(self, function)
    }

    /// A table that holds `entries`, in their order.
    pub fn from_entries(entries: &[CpuidEntry]) -> (r: Result<CpuId, FamError>)
        ensures
            r is Ok <==> entries@.len() <= MAX_CPUID_ENTRIES,
            r matches Ok(cpuid) ==> cpuid@ == entries@,
    {
        let n = entries.len();
        let mut cpuid = fam_new(n)?;
        let mut i: usize = 0;
        while i < n
            invariant
                i <= n,
                n == entries@.len(),
                cpuid@.len() == n,
                forall|j: int| 0 <= j < i ==> cpuid@[j] == entries@[j],
            decreases n - i,
        {
            fam_set(&mut cpuid, i, entries[i]);
            i += 1;
        }
        assert(cpuid@ =~= entries@);
        Ok(cpuid)
    }

    /// The entries of the table, in table order.
    pub fn entries(&self) -> (entries: Vec<CpuidEntry>)
        ensures
            entries@ == self@,
    {
        let n = fam_len(self);
        let mut entries: Vec<CpuidEntry> = Vec::new();
        let mut i: usize = 0;
        while i < n
            invariant
                i <= n,
                n == self@.len(),
                entries@ == self@.take(i as int),
            decreases n - i,
        {
            entries.push(fam_get(self, i));
            assert(self@.take(i as int).push(self@[i as int]) =~= self@.take(i + 1));
            i += 1;
        }
        assert(self@.take(n as int) =~= self@);
        entries
    }
}

} // verus!
