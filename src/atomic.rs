//! `AtomicMaybeNull`: a shared cell holding the address of a `MaybeNull`,
//! read and written only by atomic operations with a caller-chosen ordering.
//!
//! Every accessor takes any of the five orderings. A read uses the ordering's
//! acquire side only and a write its release side only (see
//! `load_ordering_for` and `store_ordering_for`).
//!
//! Other threads may write the cell between any two calls, so what one call
//! reads says nothing of what the next one finds. Each contract states what
//! holds of the value that the call itself observed.
use crate::nullable::{MaybeNull, NonNull};
use core::marker::PhantomData;
use core::sync::atomic::{AtomicUsize, Ordering};
use vstd::prelude::*;

verus! {

/// An ordering that a load, or the failure side of a compare-and-exchange,
/// may use: neither `Release` nor `AcqRel`.
pub open spec fn is_load_ordering(order: Ordering) -> bool {
    !(order is Release) && !(order is AcqRel)
}

/// An ordering that a store may use: neither `Acquire` nor `AcqRel`.
pub open spec fn is_store_ordering(order: Ordering) -> bool {
    !(order is Acquire) && !(order is AcqRel)
}

/// A model of one compare-and-exchange on a cell that holds `held`: the
/// content it leaves, and the result it reports. No contract ties it to the
/// cell of an `AtomicMaybeNull`, which other threads may change at any time.
pub open spec fn cas_outcome(held: usize, expected: usize, new: usize) -> (usize, Result<usize, usize>) {
    if held == expected {
        (new, Ok(held))
    } else {
        (held, Err(held))
    }
}

/// The ordering that a load, or the failure side of a compare-and-exchange,
/// uses in place of `order`: `Release` reads as `Relaxed` and `AcqRel` as
/// `Acquire`, since a read has no release side; any other ordering is kept.
pub fn load_ordering_for(order: Ordering) -> (r: Ordering)
    ensures
        is_load_ordering(r),
        order is Release ==> r is Relaxed,
        order is AcqRel ==> r is Acquire,
        is_load_ordering(order) ==> r == order,
{
    match order {
        Ordering::Release => Ordering::Relaxed,
        Ordering::AcqRel => Ordering::Acquire,
        _ => order,
    }
}

/// The ordering that a store uses in place of `order`: `Acquire` writes as
/// `Relaxed` and `AcqRel` as `Release`, since a write has no acquire side;
/// any other ordering is kept.
pub fn store_ordering_for(order: Ordering) -> (r: Ordering)
    ensures
        is_store_ordering(r),
        order is Acquire ==> r is Relaxed,
        order is AcqRel ==> r is Release,
        is_store_ordering(order) ==> r == order,
{
    match order {
        Ordering::Acquire => Ordering::Relaxed,
        Ordering::AcqRel => Ordering::Release,
        _ => order,
    }
}

/// Relies on `AtomicUsize::compare_exchange`: it stores `new` exactly when
/// the cell holds `current`, and returns `Ok` of the value it held then (which
/// is `current`) or `Err` of the other value it found. It panics on a failure
/// ordering of `Release` or `AcqRel`.
#[verifier::external_body]
fn cell_compare_exchange(
    cell: &AtomicUsize,
    current: usize,
    new: usize,
    success: Ordering,
    failure: Ordering,
) -> (r: Result<usize, usize>)
    requires
        is_load_ordering(failure),
    ensures
        r matches Ok(v) ==> v == current,
        r matches Err(v) ==> v != current,
{
    cell.compare_exchange(current, new, success, failure)
}

/// Relies on `AtomicUsize::compare_exchange_weak`: as `compare_exchange`,
/// but it may fail even where the cell holds `current`; on success the value
/// returned is `current`. It panics on a failure ordering of `Release` or
/// `AcqRel`.
#[verifier::external_body]
fn cell_compare_exchange_weak(
    cell: &AtomicUsize,
    current: usize,
    new: usize,
    success: Ordering,
    failure: Ordering,
) -> (r: Result<usize, usize>)
    requires
        is_load_ordering(failure),
    ensures
        r matches Ok(v) ==> v == current,
{
    cell.compare_exchange_weak(current, new, success, failure)
}

/// Relies on `AtomicUsize::fetch_update`: it returns `Ok(v)` after `f(v)`
/// gave `Some` and that value was stored in place of `v`, and `Err(v)` after
/// `f(v)` gave `None`. It loads with `fetch_order`, and so panics where that is
/// `Release` or `AcqRel`.
#[verifier::external_body]
fn cell_fetch_update<F: Fn(usize) -> Option<usize>>(
    cell: &AtomicUsize,
    set_order: Ordering,
    fetch_order: Ordering,
    f: F,
) -> (r: Result<usize, usize>)
    requires
        is_load_ordering(fetch_order),
        forall|v: usize| f.requires((v,)),
    ensures
        r matches Ok(v) ==> exists|n: usize| f.ensures((v,), Some(n)),
        r matches Err(v) ==> f.ensures((v,), None),
{
    cell.fetch_update(set_order, fetch_order, f)
}

/// A cell, shared between threads, that holds the address of a `T` or the
/// absent value (zero). It owns nothing that the address points to.
#[derive(Debug)]
#[verifier::reject_recursive_types(T)]
pub struct AtomicMaybeNull<T> {
    cell: AtomicUsize,
    marker: PhantomData<T>,
}

impl<T> AtomicMaybeNull<T> {
    /// A cell that holds `ptr`; absent where `ptr` is zero.
    pub fn new(ptr: usize) -> Self {
        AtomicMaybeNull { cell: AtomicUsize::new(ptr), marker: PhantomData }
    }

    /// A cell that holds the address of `ptr`.
    pub fn from_non_null(ptr: NonNull<T>) -> Self {
        Self::new(ptr.addr())
    }

    /// A cell that holds `addr`, standing for a pointer that takes up the
    /// provenance that an earlier pointer exposed at that address.
    pub fn with_exposed_provenance(addr: usize) -> Self {
        Self::new(MaybeNull::<T>::with_exposed_provenance(addr).addr())
    }

    /// A cell that holds `addr`, standing for a pointer with no provenance.
    pub fn without_provenance(addr: usize) -> Self {
        Self::new(MaybeNull::<T>::without_provenance(addr).addr())
    }

    /// A cell that holds the absent value.
    pub fn null() -> Self {
        Self::new(MaybeNull::<T>::null().addr())
    }

    /// A cell that holds a non-zero address at the alignment of `T`, standing
    /// for no allocation.
    pub fn dangling() -> Self {
        Self::new(MaybeNull::<T>::dangling().addr())
    }

    /// Whether the value read, in one atomic load, is absent.
    pub fn is_null(&self, order: Ordering) -> bool {
        self.get(order).is_none()
    }

    /// Stores the address of `value`, in one atomic store.
    pub fn set(&self, value: NonNull<T>, order: Ordering) {
        self.cell.store(value.addr(), store_ordering_for(order));
    }

    /// Stores the absent value, in one atomic store.
    pub fn nullify(&self, order: Ordering) {
        self.cell.store(0, store_ordering_for(order));
    }

    /// The handle for the value read, in one atomic load; `None` where it is
    /// absent.
    pub fn get(&self, order: Ordering) -> (r: Option<NonNull<T>>)
        ensures
            r matches Some(p) ==> p@ != 0,
    {
        MaybeNull::<T>::new(self.get_unchecked(order)).get()
    }

    /// The address read, in one atomic load, with no check for absence.
    pub fn get_unchecked(&self, order: Ordering) -> usize {
        self.cell.load(load_ordering_for(order))
    }

    /// Stores `other` and returns the value held before, in one atomic step.
    pub fn swap(&self, other: usize, order: Ordering) -> MaybeNull<T> {
        MaybeNull::new(self.cell.swap(other, order))
    }

    /// Stores `new` if the cell holds `current`, in one atomic step. Returns
    /// `Ok` of the value held before where it stored, else `Err` of the value
    /// found, which differs from `current`.
    pub fn compare_exchange(
        &self,
        current: usize,
        new: usize,
        success: Ordering,
        failure: Ordering,
    ) -> (r: Result<MaybeNull<T>, MaybeNull<T>>)
        ensures
            r matches Ok(p) ==> p@ == current,
            r matches Err(p) ==> p@ != current,
    {
        let failure = load_ordering_for(failure);
        match cell_compare_exchange(&self.cell, current, new, success, failure) {
            Ok(v) => Ok(MaybeNull::new(v)),
            Err(v) => Err(MaybeNull::new(v)),
        }
    }

    /// As `compare_exchange`, but it may fail even where the cell holds
    /// `current`: meant for retry loops. `Ok` carries `current`.
    pub fn compare_exchange_weak(
        &self,
        current: usize,
        new: usize,
        success: Ordering,
        failure: Ordering,
    ) -> (r: Result<MaybeNull<T>, MaybeNull<T>>)
        ensures
            r matches Ok(p) ==> p@ == current,
    {
        let failure = load_ordering_for(failure);
        match cell_compare_exchange_weak(&self.cell, current, new, success, failure) {
            Ok(v) => Ok(MaybeNull::new(v)),
            Err(v) => Err(MaybeNull::new(v)),
        }
    }

    /// Reads the cell and hands what it read to `f`, retrying while other
    /// threads change the cell in between. Where `f` gives `Some(n)` and `n`
    /// is stored, returns `Ok` of the value replaced; where `f` gives `None`,
    /// returns `Err` of the value read, with the cell left as it was.
    pub fn fetch_update<F: Fn(usize) -> Option<usize>>(
        &self,
        set_order: Ordering,
        fetch_order: Ordering,
        f: F,
    ) -> (r: Result<MaybeNull<T>, MaybeNull<T>>)
        requires
            forall|v: usize| f.requires((v,)),
        ensures
            r matches Ok(p) ==> exists|n: usize| f.ensures((p@,), Some(n)),
            r matches Err(p) ==> f.ensures((p@,), None),
            (forall|v: usize, o: Option<usize>| f.ensures((v,), o) ==> o is None) ==> r is Err,
    {
        let fetch_order = load_ordering_for(fetch_order);
        match cell_fetch_update(&self.cell, set_order, fetch_order, f) {
            Ok(v) => Ok(MaybeNull::new(v)),
            Err(v) => Err(MaybeNull::new(v)),
        }
    }
}

/// In the model `cas_outcome`: a compare-and-exchange that expects the value
/// held leaves the new value and reports the old one; one that expects any
/// other value leaves the held value and reports it. This speaks of the model
/// only, not of the content of an `AtomicMaybeNull`.
pub proof fn lemma_compare_exchange(held: usize, expected: usize, new: usize)
    ensures
        held == expected ==> cas_outcome(held, expected, new) == (new, Ok::<usize, usize>(held)),
        held != expected ==> cas_outcome(held, expected, new) == (held, Err::<usize, usize>(held)),
{
}

/// In the model `cas_outcome`: of two compare-and-exchanges from the absent
/// value, to `first` and then to `second`, starting from the absent value,
/// the first succeeds, the second fails and reports `first`, and `first` is
/// left. This speaks of the model only, not of the content of an
/// `AtomicMaybeNull`.
pub proof fn lemma_race_from_absent(first: usize, second: usize)
    requires
        first != 0,
    ensures
        cas_outcome(0, 0, first) == (first, Ok::<usize, usize>(0)),
        cas_outcome(first, 0, second) == (first, Err::<usize, usize>(first)),
{
}

} // verus!
