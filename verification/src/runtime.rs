//! A model of the foreign runtime's reference-counted heap, and the
//! retain/release bookkeeping of every operation that produces or consumes
//! an owning [`Handle`].
//!
//! The foreign runtime itself is reached only through an unsafe message
//! dispatch ABI that cannot be inspected; what can be stated and checked is
//! the ledger discipline the bridge must keep: every handle stands for
//! exactly one retain, every path that produces a new owning handle takes
//! its own retain (even when the foreign accessor hands back a non-owning
//! reference), and the one retain is given back exactly once, by the
//! operation that consumes the handle.
//!
//! [`Runtime`] keeps that ledger: a retain count for each allocated object,
//! together with the object contents the bridge logic reads (text bytes,
//! a library's function-name table). Object references are the addresses
//! `1..=object_count()`; `0` is the null reference.

use vstd::prelude::*;

use crate::handle::{Handle, NULL_REFERENCE};

verus! {

/// What the bridge can observe of a foreign object's contents.
///
/// Most objects are opaque: only their retain count matters here. A
/// foreign string object carries its UTF-8 bytes, and a shader library
/// carries the names of the functions it exports.
pub enum ObjectData {
    Opaque,
    Text { bytes: Vec<u8> },
    FunctionTable { names: Vec<String> },
}

/// The ledger after a retain of the object at index `i`.
pub open spec fn retained(counts: Seq<u64>, i: int) -> Seq<u64>
    recommends
        0 <= i < counts.len(),
        counts[i] < u64::MAX,
{
    counts.update(i, (counts[i] + 1) as u64)
}

/// The ledger after a release of the object at index `i`.
pub open spec fn released(counts: Seq<u64>, i: int) -> Seq<u64>
    recommends
        0 <= i < counts.len(),
        counts[i] > 0,
{
    counts.update(i, (counts[i] - 1) as u64)
}

/// A release gives back exactly what the retain took: after one retain of
/// the object at index `i` and one release of it, the reference-count
/// ledger is the ledger it started as. This is the accounting identity
/// behind the handle discipline: one retain at construction, one release
/// at the end of the handle's life, and the foreign object's count is
/// untouched by the handle having existed.
pub proof fn lemma_retain_release_balanced(counts: Seq<u64>, i: int)
    requires
        0 <= i < counts.len(),
        counts[i] < u64::MAX,
    ensures
        released(retained(counts, i), i) == counts,
{
    assert(released(retained(counts, i), i) =~= counts);
}

/// The model heap: one retain count and one contents entry per object.
/// The object allocated `k`-th is referred to by the address `k + 1`.
pub struct Runtime {
    counts: Vec<u64>,
    data: Vec<ObjectData>,
}

impl Runtime {
    /// The reference-count ledger, indexed by address minus one.
    pub closed spec fn counts(self) -> Seq<u64> {
        self.counts@
    }

    /// The object contents, indexed by address minus one.
    pub closed spec fn data_seq(self) -> Seq<ObjectData> {
        self.data@
    }

    /// Each allocated object has both a count and contents.
    pub open spec fn wf(self) -> bool {
        self.counts().len() == self.data_seq().len()
    }

    /// How many objects have ever been allocated.
    pub open spec fn object_count(self) -> nat {
        self.counts().len()
    }

    /// Whether `r` is the address of an allocated object.
    pub open spec fn in_range(self, r: usize) -> bool {
        1 <= r <= self.object_count()
    }

    /// The retain count of the object at address `r`.
    pub open spec fn count_of(self, r: usize) -> u64
        recommends
            self.in_range(r),
    {
        self.counts()[r - 1]
    }

    /// Whether address `r` holds an object with at least one outstanding
    /// retain. Only live objects may be messaged or retained.
    pub open spec fn is_live(self, r: usize) -> bool {
        self.in_range(r) && self.count_of(r) > 0
    }

    /// The contents of the object at address `r`.
    pub open spec fn data_of(self, r: usize) -> ObjectData
        recommends
            self.in_range(r),
    {
        self.data_seq()[r - 1]
    }

    /// An empty heap with no objects.
    pub fn new() -> (rt: Runtime)
        ensures
            rt.wf(),
            rt.object_count() == 0,
    {
        Runtime { counts: Vec::new(), data: Vec::new() }
    }

    /// Allocates a fresh object with the given contents and one retain,
    /// the way a foreign constructor returns an owning reference.
    pub fn allocate(&mut self, data: ObjectData) -> (r: usize)
        requires
            old(self).wf(),
            old(self).object_count() < usize::MAX,
        ensures
            final(self).wf(),
            r != NULL_REFERENCE,
            r == old(self).object_count() + 1,
            final(self).object_count() == old(self).object_count() + 1,
            final(self).is_live(r),
            final(self).count_of(r) == 1,
            final(self).data_of(r) == data,
            forall|q: usize|
                old(self).in_range(q) ==> final(self).count_of(q) == old(self).count_of(q),
            forall|q: usize|
                old(self).in_range(q) ==> final(self).data_of(q) == old(self).data_of(q),
    {
        let r = self.counts.len() + 1;
        self.counts.push(1);
        self.data.push(data);
        r
    }

    /// Increments the retain count of a live object by one.
    pub fn retain(&mut self, r: usize)
        requires
            old(self).wf(),
            old(self).is_live(r),
            old(self).count_of(r) < u64::MAX,
        ensures
            final(self).wf(),
            final(self).counts() == retained(old(self).counts(), r - 1),
            final(self).object_count() == old(self).object_count(),
            final(self).data_seq() == old(self).data_seq(),
            final(self).is_live(r),
            final(self).count_of(r) == old(self).count_of(r) + 1,
            forall|q: usize|
                old(self).in_range(q) && q != r ==> final(self).count_of(q) == old(
                    self,
                ).count_of(q),
    {
        let idx = r - 1;
        let c = self.counts[idx];
        self.counts[idx] = c + 1;
        proof {
            assert(self.counts() =~= retained(old(self).counts(), r - 1));
        }
    }

    /// Decrements the retain count of a live object by one. At count zero
    /// the foreign runtime deallocates the object; it is no longer live.
    pub fn release(&mut self, r: usize)
        requires
            old(self).wf(),
            old(self).is_live(r),
        ensures
            final(self).wf(),
            final(self).counts() == released(old(self).counts(), r - 1),
            final(self).object_count() == old(self).object_count(),
            final(self).data_seq() == old(self).data_seq(),
            final(self).count_of(r) == old(self).count_of(r) - 1,
            forall|q: usize|
                old(self).in_range(q) && q != r ==> final(self).count_of(q) == old(
                    self,
                ).count_of(q),
    {
        let idx = r - 1;
        let c = self.counts[idx];
        self.counts[idx] = c - 1;
        proof {
            assert(self.counts() =~= released(old(self).counts(), r - 1));
        }
    }

    /// Gives back the one retain a handle stands for: the count of the
    /// wrapped object decreases by exactly one, and no other object is
    /// touched. The handle is consumed, so no second release can ever be
    /// made on its behalf.
    pub fn release_handle(&mut self, h: Handle)
        requires
            old(self).wf(),
            old(self).is_live(h.reference()),
        ensures
            final(self).wf(),
            final(self).counts() == released(old(self).counts(), h.reference() - 1),
            final(self).object_count() == old(self).object_count(),
            final(self).data_seq() == old(self).data_seq(),
            final(self).count_of(h.reference()) == old(self).count_of(h.reference()) - 1,
            forall|q: usize|
                old(self).in_range(q) && q != h.reference() ==> final(self).count_of(q) == old(
                    self,
                ).count_of(q),
    {
        let r = h.unwrap_reference();
        self.release(r);
    }

    /// Duplicates a handle by taking an additional retain on the same
    /// object. Duplication is never an implicit bit-copy: the second
    /// handle stands for its own retain.
    pub fn duplicate(&mut self, h: &Handle) -> (dup: Handle)
        requires
            old(self).wf(),
            h.wf(),
            old(self).is_live(h.reference()),
            old(self).count_of(h.reference()) < u64::MAX,
        ensures
            final(self).wf(),
            dup.reference() == h.reference(),
            final(self).counts() == retained(old(self).counts(), h.reference() - 1),
            final(self).object_count() == old(self).object_count(),
            final(self).data_seq() == old(self).data_seq(),
            final(self).count_of(h.reference()) == old(self).count_of(h.reference()) + 1,
            forall|q: usize|
                old(self).in_range(q) && q != h.reference() ==> final(self).count_of(q) == old(
                    self,
                ).count_of(q),
    {
        let r = h.unwrap_reference();
        self.retain(r);
        Handle::wrap(r)
    }

    /// Wraps a live reference in a new owning handle, taking the retain
    /// the handle will stand for. This is the path for foreign accessors
    /// that hand back a reference without incrementing its count: wrapping
    /// such a reference without retaining would leave two handles
    /// attributing ownership to the same retain.
    pub fn wrap_retaining(&mut self, r: usize) -> (h: Handle)
        requires
            old(self).wf(),
            old(self).is_live(r),
            old(self).count_of(r) < u64::MAX,
        ensures
            final(self).wf(),
            h.reference() == r,
            final(self).counts() == retained(old(self).counts(), r - 1),
            final(self).object_count() == old(self).object_count(),
            final(self).data_seq() == old(self).data_seq(),
            final(self).count_of(r) == old(self).count_of(r) + 1,
            forall|q: usize|
                old(self).in_range(q) && q != r ==> final(self).count_of(q) == old(
                    self,
                ).count_of(q),
    {
        self.retain(r);
        Handle::wrap(r)
    }

    /// Like [`Runtime::wrap_retaining`], for foreign accessors that may
    /// signal absence by a null reference: null yields `None` and leaves
    /// the ledger untouched; any other reference is retained and wrapped.
    pub fn optional_wrap_retaining(&mut self, r: usize) -> (oh: Option<Handle>)
        requires
            old(self).wf(),
            r != NULL_REFERENCE ==> old(self).is_live(r) && old(self).count_of(r) < u64::MAX,
        ensures
            final(self).wf(),
            r == NULL_REFERENCE <==> oh is None,
            oh is None ==> final(self).counts() == old(self).counts(),
            oh matches Some(h) ==> h.reference() == r && final(self).counts() == retained(
                old(self).counts(),
                r - 1,
            ),
            final(self).object_count() == old(self).object_count(),
            final(self).data_seq() == old(self).data_seq(),
    {
        if r == NULL_REFERENCE {
            None
        } else {
            Some(self.wrap_retaining(r))
        }
    }

    /// Wraps a whole collection of distinct live references, taking one
    /// retain for each, the way device enumeration wraps every entry of
    /// the foreign device array.
    pub fn wrap_all(&mut self, references: &Vec<usize>) -> (handles: Vec<Handle>)
        requires
            old(self).wf(),
            forall|i: int|
                0 <= i < references@.len() ==> old(self).is_live(#[trigger] references@[i]),
            forall|i: int|
                0 <= i < references@.len() ==> old(self).count_of(#[trigger] references@[i])
                    < u64::MAX,
            forall|i: int, j: int|
                0 <= i < j < references@.len() ==> references@[i] != references@[j],
        ensures
            final(self).wf(),
            handles@.len() == references@.len(),
            forall|i: int|
                0 <= i < references@.len() ==> (#[trigger] handles@[i]).reference()
                    == references@[i],
            forall|i: int|
                0 <= i < references@.len() ==> final(self).count_of(#[trigger] references@[i])
                    == old(self).count_of(references@[i]) + 1,
            forall|q: usize|
                old(self).in_range(q) && !references@.contains(q) ==> final(self).count_of(q)
                    == old(self).count_of(q),
            final(self).object_count() == old(self).object_count(),
            final(self).data_seq() == old(self).data_seq(),
    {
        let mut handles: Vec<Handle> = Vec::new();
        let n = references.len();
        let mut k: usize = 0;
        while k < n
            invariant
                n == references@.len(),
                k <= n,
                self.wf(),
                self.object_count() == old(self).object_count(),
                self.data_seq() == old(self).data_seq(),
                forall|i: int|
                    0 <= i < references@.len() ==> old(self).is_live(#[trigger] references@[i]),
                forall|i: int|
                    0 <= i < references@.len() ==> old(self).count_of(#[trigger] references@[i])
                        < u64::MAX,
                forall|i: int, j: int|
                    0 <= i < j < references@.len() ==> references@[i] != references@[j],
                handles@.len() == k,
                forall|i: int|
                    0 <= i < k ==> (#[trigger] handles@[i]).reference() == references@[i],
                forall|i: int|
                    0 <= i < k ==> self.count_of(#[trigger] references@[i]) == old(self).count_of(
                        references@[i],
                    ) + 1,
                forall|i: int|
                    k <= i < n ==> self.count_of(#[trigger] references@[i]) == old(self).count_of(
                        references@[i],
                    ),
                forall|q: usize|
                    old(self).in_range(q) && !references@.contains(q) ==> self.count_of(q) == old(
                        self,
                    ).count_of(q),
            decreases n - k,
        {
            let r = references[k];
            assert(references@.contains(references@[k as int]));
            let h = self.wrap_retaining(r);
            handles.push(h);
            k = k + 1;
        }
        handles
    }

    /// The contents entry of an allocated object, for the bridge logic
    /// that reads foreign string bytes or a library's function table.
    pub(crate) fn data_entry(&self, r: usize) -> (d: &ObjectData)
        requires
            self.wf(),
            self.in_range(r),
        ensures
            *d == self.data_of(r),
    {
        &self.data[r - 1]
    }

    /// The retain count of an allocated object, for inspection.
    pub fn retain_count(&self, r: usize) -> (c: u64)
        requires
            self.wf(),
            self.in_range(r),
        ensures
            c == self.count_of(r),
    {
        self.counts[r - 1]
    }

    /// Whether an address holds a live object, for inspection.
    pub fn live(&self, r: usize) -> (b: bool)
        requires
            self.wf(),
        ensures
            b == self.is_live(r),
    {
        r >= 1 && r <= self.counts.len() && self.counts[r - 1] > 0
    }
}

} // verus!
