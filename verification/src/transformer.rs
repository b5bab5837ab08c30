//! The guest's topology descriptor and the dispatch of leaf rewrites.

pub mod amd;
pub mod common;
pub mod intel;

use vstd::prelude::*;
use vstd::arithmetic::power2::lemma2_to64;
use vstd::arithmetic::power2::pow2;
use vstd::std_specs::convert::FromSpecImpl;
use crate::brand_string::BrandString;
use crate::common::get_vendor_id_from_host;
use crate::kvm::CpuId;
use crate::kvm::CpuidEntry;
use crate::kvm::FamError;

verus! {

/// Largest vCPU count that a descriptor can hold.
pub const MAX_VCPU_COUNT: usize = 255;

/// Errors associated with processing the CPUID leaves.
#[derive(Debug, Clone, Copy, PartialEq, Eq)]
pub enum Error {
    /// An operation on the leaf table has failed.
    Fam(FamError),
    /// A call to an internal helper method failed.
    InternalError(crate::common::Error),
    /// The operation is not permitted for the current vendor.
    InvalidVendor,
    /// The maximum number of addressable logical CPUs cannot be stored in an `u8`.
    VcpuCountOverflow,
}

impl From<crate::common::Error> for Error {
    fn from(e: crate::common::Error) -> (r: Error) {
        Error::InternalError(e)
    }
}

impl FromSpecImpl<crate::common::Error> for Error {
    open spec fn obeys_from_spec() -> bool {
        true
    }

    open spec fn from_spec(e: crate::common::Error) -> Error {
        Error::InternalError(e)
    }
}

/// Bits needed to tell apart the logical CPUs of one core: one when the
/// guest has more than one vCPU and hyperthreading is asked for, else none.
pub open spec fn spec_cpu_bits_for(cpu_count: u8, smt: bool) -> u8 {
    if cpu_count > 1 && smt {
        1
    } else {
        0
    }
}

/// Structure containing the specifications of the VM.
pub struct VmSpec {
    /// The vendor id of the CPU.
    cpu_vendor_id: [u8; 12],
    /// The desired brand string for the guest.
    brand_string: BrandString,
    /// The index of the current logical cpu in the range [0..cpu_count].
    cpu_index: u8,
    /// The total number of logical cpus.
    cpu_count: u8,
    /// The number of bits needed to enumerate logical CPUs per core.
    cpu_bits: u8,
}

impl VmSpec {
    #[verifier::type_invariant]
    closed spec fn inv(self) -> bool {
        &&& self.cpu_bits <= 1
        &&& self.cpu_bits == 1 ==> self.cpu_count > 1
        &&& self.brand_string@ == BrandString::spec_from_vendor_id(self.cpu_vendor_id@)
    }

    /// The vendor id of the CPU.
    pub closed spec fn spec_cpu_vendor_id(&self) -> &[u8; 12] {
        &self.cpu_vendor_id
    }

    /// The brand string of the guest.
    pub closed spec fn spec_brand_string(&self) -> &BrandString {
        &self.brand_string
    }

    /// The index of this vCPU.
    pub closed spec fn spec_cpu_index(&self) -> u8 {
        self.cpu_index
    }

    /// The number of vCPUs of the guest.
    pub closed spec fn spec_cpu_count(&self) -> u8 {
        self.cpu_count
    }

    /// The number of bits needed to enumerate logical CPUs per core.
    pub closed spec fn spec_cpu_bits(&self) -> u8 {
        self.cpu_bits
    }

    /// The number of logical CPUs per core: two to the power of `cpu_bits`.
    pub open spec fn spec_cpus_per_core(&self) -> nat {
        pow2(self.spec_cpu_bits() as nat)
    }

    /// `self` is the descriptor of vCPU `cpu_index` out of `cpu_count`, with
    /// hyperthreading as `smt` says, on a host of vendor `vendor_id`: it
    /// holds them, the brand string that goes with the vendor, and the
    /// `cpu_bits` that follow from the count and `smt`.
    pub open spec fn describes(&self, vendor_id: Seq<u8>, cpu_index: u8, cpu_count: u8, smt: bool) -> bool {
        &&& self.spec_cpu_vendor_id()@ == vendor_id
        &&& self.spec_brand_string()@ == BrandString::spec_from_vendor_id(vendor_id)
        &&& self.spec_cpu_index() == cpu_index
        &&& self.spec_cpu_count() == cpu_count
        &&& self.spec_cpu_bits() == spec_cpu_bits_for(cpu_count, smt)
    }

    /// Creates the descriptor of a vCPU on a host of the given vendor.
    /// The brand string is deduced from the vendor id.
    pub fn with_vendor_id(cpu_vendor_id: [u8; 12], cpu_index: u8, cpu_count: u8, smt: bool) -> (v: VmSpec)
        ensures
            v.describes(cpu_vendor_id@, cpu_index, cpu_count, smt),
    {
        VmSpec {
            cpu_vendor_id,
            cpu_index,
            cpu_count,
            cpu_bits: if cpu_count > 1 && smt {
                1
            } else {
                0
            },
            brand_string: BrandString::from_vendor_id(&cpu_vendor_id),
        }
    }

    /// Creates a new instance of VmSpec with the specified parameters.
    /// The vendor id is asked of the host, and the brand string is deduced
    /// from it.
    ///
    /// Whether the host answers is the host's matter: when it does, the
    /// descriptor is that of [`VmSpec::with_vendor_id`] for its vendor id;
    /// when it does not, the error of the query is handed on.
    pub fn new(cpu_index: u8, cpu_count: u8, smt: bool) -> (r: Result<VmSpec, Error>)
        ensures
            r matches Ok(v) ==> v.describes(v.spec_cpu_vendor_id()@, cpu_index, cpu_count, smt),
            r matches Err(e) ==> e is InternalError,
    {
        match get_vendor_id_from_host() {
            Ok(cpu_vendor_id) => Ok(VmSpec::with_vendor_id(cpu_vendor_id, cpu_index, cpu_count, smt)),
            Err(e) => Err(Error::from(e)),
        }
    }

    /// As [`VmSpec::new`], for a vCPU count that is still a machine word. A
    /// count above 255 does not fit the descriptor and is refused, before
    /// the host is asked anything.
    pub fn with_vcpu_count(cpu_index: u8, cpu_count: usize, smt: bool) -> (r: Result<VmSpec, Error>)
        ensures
            cpu_count > MAX_VCPU_COUNT ==> r == Err::<VmSpec, Error>(Error::VcpuCountOverflow),
            cpu_count <= MAX_VCPU_COUNT ==> (r matches Ok(v) ==> v.describes(
                v.spec_cpu_vendor_id()@,
                cpu_index,
                cpu_count as u8,
                smt,
            )),
            cpu_count <= MAX_VCPU_COUNT ==> (r matches Err(e) ==> e is InternalError),
    {
        if cpu_count > MAX_VCPU_COUNT {
            Err(Error::VcpuCountOverflow)
        } else {
            VmSpec::new(cpu_index, cpu_count as u8, smt)
        }
    }

    /// Returns an immutable reference to cpu_vendor_id.
    #[verifier::when_used_as_spec(spec_cpu_vendor_id)]
    pub fn cpu_vendor_id(&self) -> (r: &[u8; 12])
        ensures
            r == self.spec_cpu_vendor_id(),
    {
        &self.cpu_vendor_id
    }

    /// Returns the brand string of the guest.
    #[verifier::when_used_as_spec(spec_brand_string)]
    pub fn brand_string(&self) -> (r: &BrandString)
        ensures
            r == self.spec_brand_string(),
            r@ == BrandString::spec_from_vendor_id(self.spec_cpu_vendor_id()@),
    {
        proof {
            use_type_invariant(self);
        }
        &self.brand_string
    }

    /// Returns the index of this vCPU.
    #[verifier::when_used_as_spec(spec_cpu_index)]
    pub fn cpu_index(&self) -> (r: u8)
        ensures
            r == self.spec_cpu_index(),
    {
        self.cpu_index
    }

    /// Returns the number of vCPUs of the guest.
    #[verifier::when_used_as_spec(spec_cpu_count)]
    pub fn cpu_count(&self) -> (r: u8)
        ensures
            r == self.spec_cpu_count(),
    {
        self.cpu_count
    }

    /// Returns the number of bits needed to enumerate logical CPUs per core:
    /// never more than one, and one only where there is more than one vCPU.
    #[verifier::when_used_as_spec(spec_cpu_bits)]
    pub fn cpu_bits(&self) -> (r: u8)
        ensures
            r == self.spec_cpu_bits(),
            r <= 1,
            r == 1 ==> self.spec_cpu_count() > 1,
    {
        proof {
            use_type_invariant(self);
        }
        self.cpu_bits
    }

    /// Returns the number of cpus per core.
    pub fn cpus_per_core(&self) -> (r: u8)
        ensures
            r == self.spec_cpus_per_core(),
            r == 1 || r == 2,
    {
        proof {
            use_type_invariant(self);
            lemma2_to64();
        }
        let bits = self.cpu_bits;
        let r = 1u8 << bits;
        assert(r == if bits == 0 { 1u8 } else { 2u8 }) by (bit_vector)
            requires
                bits <= 1,
                r == 1u8 << bits,
        ;
        r
    }

    /// A guest with a single vCPU, or without hyperthreading, has no bit to
    /// tell sibling CPUs apart and one logical CPU per core.
    pub proof fn lemma_without_siblings(&self, vendor_id: Seq<u8>, cpu_index: u8, cpu_count: u8, smt: bool)
        requires
            self.describes(vendor_id, cpu_index, cpu_count, smt),
            cpu_count <= 1 || !smt,
        ensures
            self.spec_cpu_bits() == 0,
            self.spec_cpus_per_core() == 1,
    {
        lemma2_to64();
    }

    /// A guest with two vCPUs or more and hyperthreading has one bit to tell
    /// sibling CPUs apart and two logical CPUs per core.
    pub proof fn lemma_with_siblings(&self, vendor_id: Seq<u8>, cpu_index: u8, cpu_count: u8, smt: bool)
        requires
            self.describes(vendor_id, cpu_index, cpu_count, smt),
            cpu_count >= 2 && smt,
        ensures
            self.spec_cpu_bits() == 1,
            self.spec_cpus_per_core() == 2,
    {
        lemma2_to64();
    }
}

/// A rewrite of one leaf entry.
pub trait EntryTransformerFn {
    /// What the rewrite makes of `entry` for the guest that `vm_spec`
    /// describes, or why it cannot.
    fn call(&self, entry: CpuidEntry, vm_spec: &VmSpec) -> Result<CpuidEntry, Error>;
}

/// `lookup` finds no rewrite for `entry`, whenever it is asked.
pub open spec fn unregistered<T, F, L>(lookup: L, t: &T, entry: CpuidEntry) -> bool where
    L: Fn(&T, &CpuidEntry) -> Option<F>,
 {
    forall|f: Option<F>| #[trigger] call_ensures(lookup, (t, &entry), f) ==> f is None
}

/// `after` is what one visit can make of `before`: `before` itself where
/// `lookup` finds no rewrite for it, else what the rewrite that `lookup`
/// finds returns for `before` and `vm_spec`.
pub open spec fn visited<T, F, L, R>(
    lookup: L,
    rewrite: R,
    t: &T,
    vm_spec: &VmSpec,
    before: CpuidEntry,
    after: CpuidEntry,
) -> bool where
    L: Fn(&T, &CpuidEntry) -> Option<F>,
    R: Fn(&F, CpuidEntry, &VmSpec) -> Result<CpuidEntry, Error>,
 {
    exists|f: Option<F>| #[trigger]
        call_ensures(lookup, (t, &before), f) && match f {
            None => after == before,
            Some(g) => call_ensures(rewrite, (&g, before, vm_spec), Ok(after)),
        }
}

/// A visit of `before` can end in the error `e`: `lookup` finds a rewrite
/// for it, and the rewrite returns `e` for `before` and `vm_spec`.
pub open spec fn refused<T, F, L, R>(
    lookup: L,
    rewrite: R,
    t: &T,
    vm_spec: &VmSpec,
    before: CpuidEntry,
    e: Error,
) -> bool where
    L: Fn(&T, &CpuidEntry) -> Option<F>,
    R: Fn(&F, CpuidEntry, &VmSpec) -> Result<CpuidEntry, Error>,
 {
    exists|g: F| #[trigger]
        call_ensures(lookup, (t, &before), Some(g)) && call_ensures(
            rewrite,
            (&g, before, vm_spec),
            Err(e),
        )
}

/// What one pass over a table leaves behind. The pass visits the entries in
/// table order, each once, and stops at the first visit that fails:
/// - the table keeps its length;
/// - after a pass without failure every entry is what its visit made of it;
/// - after a failure with `e` there is an entry whose visit was refused with
///   `e`; the entries before it are what their visits made of them, and that
///   entry and those behind it are as they were.
pub open spec fn passed<T, F, L, R>(
    lookup: L,
    rewrite: R,
    t: &T,
    vm_spec: &VmSpec,
    before: Seq<CpuidEntry>,
    after: Seq<CpuidEntry>,
    r: Result<(), Error>,
) -> bool where
    L: Fn(&T, &CpuidEntry) -> Option<F>,
    R: Fn(&F, CpuidEntry, &VmSpec) -> Result<CpuidEntry, Error>,
 {
    &&& after.len() == before.len()
    &&& r is Ok ==> forall|i: int|
        0 <= i < before.len() ==> visited(lookup, rewrite, t, vm_spec, before[i], #[trigger] after[i])
    &&& r matches Err(e) ==> exists|k: int|
        {
            &&& 0 <= k < before.len()
            &&& #[trigger] refused(lookup, rewrite, t, vm_spec, before[k], e)
            &&& forall|i: int|
                0 <= i < k ==> visited(lookup, rewrite, t, vm_spec, before[i], #[trigger] after[i])
            &&& forall|i: int| k <= i < before.len() ==> #[trigger] after[i] == before[i]
        }
}

/// Every entry of `before` for which `lookup` finds no rewrite is in `after`
/// what it is in `before`.
pub open spec fn unregistered_stay<T, F, L>(
    lookup: L,
    t: &T,
    before: Seq<CpuidEntry>,
    after: Seq<CpuidEntry>,
) -> bool where L: Fn(&T, &CpuidEntry) -> Option<F> {
    forall|i: int|
        0 <= i < before.len() && unregistered(lookup, t, before[i]) ==> #[trigger] after[i] == before[i]
}

/// In whatever way a pass ends, an entry for which no rewrite is registered
/// is afterwards what it was before.
pub proof fn lemma_unregistered_entries_stay<T, F, L, R>(
    lookup: L,
    rewrite: R,
    t: &T,
    vm_spec: &VmSpec,
    before: Seq<CpuidEntry>,
    after: Seq<CpuidEntry>,
    r: Result<(), Error>,
    i: int,
) where L: Fn(&T, &CpuidEntry) -> Option<F>, R: Fn(&F, CpuidEntry, &VmSpec) -> Result<CpuidEntry, Error>
    requires
        passed(lookup, rewrite, t, vm_spec, before, after, r),
        0 <= i < before.len(),
        unregistered(lookup, t, before[i]),
    ensures
        after[i] == before[i],
{
    match r {
        Ok(()) => {
            assert(visited(lookup, rewrite, t, vm_spec, before[i], after[i]));
        },
        Err(e) => {
            let k = choose|k: int|
                {
                    &&& 0 <= k < before.len()
                    &&& #[trigger] refused(lookup, rewrite, t, vm_spec, before[k], e)
                    &&& forall|i: int|
                        0 <= i < k ==> visited(lookup, rewrite, t, vm_spec, before[i], #[trigger] after[i])
                    &&& forall|i: int| k <= i < before.len() ==> #[trigger] after[i] == before[i]
                };
            if i < k {
                assert(visited(lookup, rewrite, t, vm_spec, before[i], after[i]));
            }
        },
    }
}

/// The index from `start` on of the first entry whose visit fails, or the
/// length of the table where no visit fails.
pub open spec fn first_failure_from(
    visit: spec_fn(CpuidEntry) -> Result<CpuidEntry, Error>,
    entries: Seq<CpuidEntry>,
    start: int,
) -> int
    decreases entries.len() - start,
{
    if start < 0 || start >= entries.len() {
        entries.len() as int
    } else if visit(entries[start]) is Err {
        start
    } else {
        first_failure_from(visit, entries, start + 1)
    }
}

/// The index of the first entry whose visit fails, or the length of the
/// table where no visit fails.
pub open spec fn first_failure(
    visit: spec_fn(CpuidEntry) -> Result<CpuidEntry, Error>,
    entries: Seq<CpuidEntry>,
) -> int {
    first_failure_from(visit, entries, 0)
}

/// The table that a pass leaves behind, where a visit is the function
/// `visit`: the entries before the first failure are what their visits make
/// of them, the others are as they were.
pub open spec fn pass_entries(
    visit: spec_fn(CpuidEntry) -> Result<CpuidEntry, Error>,
    entries: Seq<CpuidEntry>,
) -> Seq<CpuidEntry> {
    Seq::new(
        entries.len(),
        |i: int|
            if i < first_failure(visit, entries) {
                visit(entries[i]).unwrap()
            } else {
                entries[i]
            },
    )
}

/// How a pass ends, where a visit is the function `visit`: with the error
/// of the first visit that fails, or well where none does.
pub open spec fn pass_result(
    visit: spec_fn(CpuidEntry) -> Result<CpuidEntry, Error>,
    entries: Seq<CpuidEntry>,
) -> Result<(), Error> {
    let k = first_failure(visit, entries);
    if k < entries.len() {
        Err(visit(entries[k])->Err_0)
    } else {
        Ok(())
    }
}

/// No visit fails before the first failure, and the visit there does.
pub proof fn lemma_first_failure_from(
    visit: spec_fn(CpuidEntry) -> Result<CpuidEntry, Error>,
    entries: Seq<CpuidEntry>,
    start: int,
)
    requires
        0 <= start <= entries.len(),
    ensures
        start <= first_failure_from(visit, entries, start) <= entries.len(),
        forall|i: int|
            start <= i < first_failure_from(visit, entries, start) ==> visit(#[trigger] entries[i]) is Ok,
        first_failure_from(visit, entries, start) < entries.len() ==> visit(
            entries[first_failure_from(visit, entries, start)],
        ) is Err,
    decreases entries.len() - start,
{
    if start < entries.len() && visit(entries[start]) is Ok {
        lemma_first_failure_from(visit, entries, start + 1);
    }
}

/// The first failure is the only index before which no visit fails and at
/// which the visit does.
pub proof fn lemma_first_failure_is(
    visit: spec_fn(CpuidEntry) -> Result<CpuidEntry, Error>,
    entries: Seq<CpuidEntry>,
    k: int,
)
    requires
        0 <= k <= entries.len(),
        forall|i: int| 0 <= i < k ==> visit(#[trigger] entries[i]) is Ok,
        k < entries.len() ==> visit(entries[k]) is Err,
    ensures
        first_failure(visit, entries) == k,
{
    lemma_first_failure_from(visit, entries, 0);
    let f = first_failure(visit, entries);
    if f < k {
        assert(visit(entries[f]) is Ok);
    }
    if k < f {
        assert(visit(entries[k]) is Ok);
    }
}

/// Where the lookup and the rewrites of a transformer are functions, so that
/// a visit of an entry is the function `visit`, a pass is a function too: it
/// leaves `pass_entries` behind and ends as `pass_result` says.
pub proof fn lemma_pass_of_functions<T, F, L, R>(
    lookup: L,
    rewrite: R,
    t: &T,
    vm_spec: &VmSpec,
    visit: spec_fn(CpuidEntry) -> Result<CpuidEntry, Error>,
    before: Seq<CpuidEntry>,
    after: Seq<CpuidEntry>,
    r: Result<(), Error>,
) where L: Fn(&T, &CpuidEntry) -> Option<F>, R: Fn(&F, CpuidEntry, &VmSpec) -> Result<CpuidEntry, Error>
    requires
        passed(lookup, rewrite, t, vm_spec, before, after, r),
        forall|e: CpuidEntry, a: CpuidEntry| #[trigger]
            visited(lookup, rewrite, t, vm_spec, e, a) ==> visit(e) == Ok::<CpuidEntry, Error>(a),
        forall|e: CpuidEntry, err: Error| #[trigger]
            refused(lookup, rewrite, t, vm_spec, e, err) ==> visit(e) == Err::<CpuidEntry, Error>(err),
    ensures
        after == pass_entries(visit, before),
        r == pass_result(visit, before),
{
    match r {
        Ok(()) => {
            assert forall|i: int| 0 <= i < before.len() implies visit(#[trigger] before[i]) == Ok::<
                CpuidEntry,
                Error,
            >(after[i]) by {
                assert(visited(lookup, rewrite, t, vm_spec, before[i], after[i]));
            }
            lemma_first_failure_is(visit, before, before.len() as int);
            assert(r->Ok_0 == ());
        },
        Err(e) => {
            let k = choose|k: int|
                {
                    &&& 0 <= k < before.len()
                    &&& #[trigger] refused(lookup, rewrite, t, vm_spec, before[k], e)
                    &&& forall|i: int|
                        0 <= i < k ==> visited(lookup, rewrite, t, vm_spec, before[i], #[trigger] after[i])
                    &&& forall|i: int| k <= i < before.len() ==> #[trigger] after[i] == before[i]
                };
            assert forall|i: int| 0 <= i < k implies visit(#[trigger] before[i]) == Ok::<
                CpuidEntry,
                Error,
            >(after[i]) by {
                assert(visited(lookup, rewrite, t, vm_spec, before[i], after[i]));
            }
            assert(refused(lookup, rewrite, t, vm_spec, before[k], e));
            assert(visit(before[k]) == Err::<CpuidEntry, Error>(e));
            lemma_first_failure_is(visit, before, k);
            assert(r == pass_result(visit, before));
        },
    }
    assert(after =~= pass_entries(visit, before));
}

/// One pass over a table: visits the entries in table order, each once. For
/// an entry, `lookup` is asked for a rewrite; where it finds one, `rewrite`
/// is called with it, and what it returns takes the place of the entry. The
/// first rewrite that fails ends the pass with its error; what was rewritten
/// before stays rewritten.
///
/// `lookup` and `rewrite` have to take every entry.
pub fn process_with<T, F, L, R>(
    lookup: L,
    rewrite: R,
    t: &T,
    cpuid: &mut CpuId,
    vm_spec: &VmSpec,
) -> (r: Result<(), Error>) where
    L: Fn(&T, &CpuidEntry) -> Option<F>,
    R: Fn(&F, CpuidEntry, &VmSpec) -> Result<CpuidEntry, Error>,

    requires
        forall|entry: CpuidEntry| call_requires(lookup, (t, &entry)),
        forall|f: F, entry: CpuidEntry| call_requires(rewrite, (&f, entry, vm_spec)),
    ensures
        passed(lookup, rewrite, t, vm_spec, old(cpuid)@, final(cpuid)@, r),
        unregistered_stay(lookup, t, old(cpuid)@, final(cpuid)@),
{
    let r = visit_all(lookup, rewrite, t, cpuid, vm_spec);
    proof {
        assert forall|i: int|
            0 <= i < old(cpuid)@.len() && unregistered(lookup, t, old(cpuid)@[i]) implies #[trigger] cpuid@[i]
            == old(cpuid)@[i] by {
            lemma_unregistered_entries_stay(lookup, rewrite, t, vm_spec, old(cpuid)@, cpuid@, r, i);
        }
    }
    r
}

/// The loop of [`process_with`].
fn visit_all<T, F, L, R>(
    lookup: L,
    rewrite: R,
    t: &T,
    cpuid: &mut CpuId,
    vm_spec: &VmSpec,
) -> (r: Result<(), Error>) where
    L: Fn(&T, &CpuidEntry) -> Option<F>,
    R: Fn(&F, CpuidEntry, &VmSpec) -> Result<CpuidEntry, Error>,

    requires
        forall|entry: CpuidEntry| call_requires(lookup, (t, &entry)),
        forall|f: F, entry: CpuidEntry| call_requires(rewrite, (&f, entry, vm_spec)),
    ensures
        passed(lookup, rewrite, t, vm_spec, old(cpuid)@, final(cpuid)@, r),
{
    let n = cpuid.len();
    let mut i: usize = 0;
    while i < n
        invariant
            i <= n,
            n == cpuid@.len(),
            cpuid@.len() == old(cpuid)@.len(),
            forall|entry: CpuidEntry| call_requires(lookup, (t, &entry)),
            forall|f: F, entry: CpuidEntry| call_requires(rewrite, (&f, entry, vm_spec)),
            forall|j: int|
                0 <= j < i ==> visited(lookup, rewrite, t, vm_spec, old(cpuid)@[j], #[trigger] cpuid@[j]),
            forall|j: int| i <= j < n ==> #[trigger] cpuid@[j] == old(cpuid)@[j],
        decreases n - i,
    {
        let entry = cpuid.get(i).unwrap();
        let maybe_transformer_fn = lookup(t, &entry);
        if let Some(transformer_fn) = maybe_transformer_fn {
            match rewrite(&transformer_fn, entry, vm_spec) {
                Ok(rewritten) => {
                    cpuid.set(i, rewritten);
                },
                Err(e) => {
                    assert(refused(lookup, rewrite, t, vm_spec, old(cpuid)@[i as int], e));
                    return Err(e);
                },
            }
        }
        assert(visited(lookup, rewrite, t, vm_spec, old(cpuid)@[i as int], cpuid@[i as int]));
        i += 1;
    }
    Ok(())
}

/// Generic trait that provides methods for transforming the cpuid.
pub trait CpuidTransformer: Sized {
    /// The rewrites that this transformer registers.
    type EntryFn: EntryTransformerFn;

    /// Trait main function. It processes the cpuid and makes the desired transformations.
    /// The default logic can be overwritten if needed.
    fn process_cpuid(&self, cpuid: &mut CpuId, vm_spec: &VmSpec) -> (r: Result<(), Error>)
        default_ensures
            passed(
                Self::entry_transformer_fn,
                <Self::EntryFn as EntryTransformerFn>::call,
                self,
                vm_spec,
                old(cpuid)@,
                final(cpuid)@,
                r,
            ),
            unregistered_stay(Self::entry_transformer_fn, self, old(cpuid)@, final(cpuid)@),
    {
        self.process_entries(cpuid, vm_spec)
    }

    /// Iterates through all the cpuid entries and calls the associated transformer for each one.
    fn process_entries(&self, cpuid: &mut CpuId, vm_spec: &VmSpec) -> (r: Result<(), Error>)
        ensures
            passed(
                Self::entry_transformer_fn,
                <Self::EntryFn as EntryTransformerFn>::call,
                self,
                vm_spec,
                old(cpuid)@,
                final(cpuid)@,
                r,
            ),
            unregistered_stay(Self::entry_transformer_fn, self, old(cpuid)@, final(cpuid)@),
    {
        process_with(
            Self::entry_transformer_fn,
            <Self::EntryFn as EntryTransformerFn>::call,
            self,
            cpuid,
            vm_spec,
        )
    }

    /// Gets the associated transformer for a cpuid entry.
    fn entry_transformer_fn(&self, entry: &CpuidEntry) -> Option<Self::EntryFn>;
}

} // verus!
