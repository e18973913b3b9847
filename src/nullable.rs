//! `NonNull`, an address that is never zero, and `MaybeNull`, an address
//! that may be zero ("absent").
use core::marker::PhantomData;
use vstd::layout::align_of;
use vstd::prelude::*;

verus! {

/// An address of a `T` that is never zero: a handle that is known to be
/// present. It owns nothing and says nothing of whether the memory is live.
#[derive(Debug)]
#[verifier::reject_recursive_types(T)]
pub struct NonNull<T> {
    addr: usize,
    marker: PhantomData<T>,
}

impl<T> View for NonNull<T> {
    type V = usize;

    closed spec fn view(&self) -> usize {
        self.addr
    }
}

impl<T> NonNull<T> {
    #[verifier::type_invariant]
    closed spec fn inv(self) -> bool {
        self.addr != 0
    }

    /// A handle for `addr`, or `None` where `addr` is zero.
    pub fn new(addr: usize) -> (r: Option<Self>)
        ensures
            r is Some <==> addr != 0,
            r matches Some(p) ==> p@ == addr,
    {
        if addr == 0 {
            None
        } else {
            Some(NonNull { addr, marker: PhantomData })
        }
    }

    /// A handle at the alignment of `T`: non-zero and well aligned, but
    /// standing for no allocation. Useful as a placeholder.
    pub fn dangling() -> (r: Self)
        ensures
            r@ == align_of::<T>(),
    {
        vstd::layout::layout_for_type_is_valid::<T>();
        NonNull { addr: core::mem::align_of::<T>(), marker: PhantomData }
    }

    /// The address held, never zero.
    pub fn addr(self) -> (r: usize)
        ensures
            r == self@,
            r != 0,
    {
        proof {
            use_type_invariant(&self);
        }
        self.addr
    }

    /// The same address, read as the address of a `U`.
    pub fn cast<U>(self) -> (r: NonNull<U>)
        ensures
            r@ == self@,
    {
        proof {
            use_type_invariant(&self);
        }
        NonNull { addr: self.addr, marker: PhantomData }
    }
}

impl<T> Clone for NonNull<T> {
    fn clone(&self) -> (r: Self)
        ensures
            r == *self,
    {
        *self
    }
}

impl<T> Copy for NonNull<T> {
}

impl<T> PartialEq for NonNull<T> {
    fn eq(&self, other: &Self) -> (r: bool)
        ensures
            r == (self@ == other@),
    {
        self.addr == other.addr
    }
}

impl<T> vstd::std_specs::cmp::PartialEqSpecImpl for NonNull<T> {
    open spec fn obeys_eq_spec() -> bool {
        true
    }

    open spec fn eq_spec(&self, other: &Self) -> bool {
        self@ == other@
    }
}

impl<T> Eq for NonNull<T> {
}

/// Relies on `usize`'s `Hash::hash`, which feeds the integer to the hasher;
/// nothing is stated of the hasher's state afterwards.
pub assume_specification<H: core::hash::Hasher>[ <usize as core::hash::Hash>::hash::<H> ](
    data: &usize,
    state: &mut H,
);

impl<T> core::hash::Hash for NonNull<T> {
    fn hash<H: core::hash::Hasher>(&self, state: &mut H) {
        self.addr.hash(state);
    }
}

/// An address of a `T`, or the absent value, held as address zero.
///
/// Two values are equal, and are ordered, by their addresses alone; the absent
/// value sorts first. Copying one copies the address and nothing else.
#[derive(Debug)]
#[verifier::reject_recursive_types(T)]
pub struct MaybeNull<T> {
    addr: usize,
    marker: PhantomData<T>,
}

impl<T> View for MaybeNull<T> {
    type V = usize;

    closed spec fn view(&self) -> usize {
        self.addr
    }
}

impl<T> MaybeNull<T> {
    /// The value at address `addr`, absent where `addr` is zero.
    pub closed spec fn from_addr(addr: usize) -> Self {
        MaybeNull { addr, marker: PhantomData }
    }

    /// The value read as the address of a `U`.
    pub closed spec fn spec_cast<U>(self) -> MaybeNull<U> {
        MaybeNull { addr: self.addr, marker: PhantomData }
    }

    /// The value after `set(value)`.
    pub closed spec fn spec_set(self, value: NonNull<T>) -> Self {
        MaybeNull { addr: value@, ..self }
    }

    /// The value after `nullify()`.
    pub closed spec fn spec_nullify(self) -> Self {
        MaybeNull { addr: 0, ..self }
    }

    /// Whether the value is absent.
    pub open spec fn spec_is_null(self) -> bool {
        self@ == 0
    }

    /// The value at address `ptr`; absent where `ptr` is zero.
    pub fn new(ptr: usize) -> (r: Self)
        ensures
            r == Self::from_addr(ptr),
            r@ == ptr,
    {
        MaybeNull { addr: ptr, marker: PhantomData }
    }

    /// The value at the address that `ptr` holds; never absent.
    pub fn from_non_null(ptr: NonNull<T>) -> (r: Self)
        ensures
            r@ == ptr@,
            !r.spec_is_null(),
    {
        Self::new(ptr.addr())
    }

    /// The value at `addr`, standing for a pointer that takes up the
    /// provenance that an earlier pointer exposed at that address.
    pub fn with_exposed_provenance(addr: usize) -> (r: Self)
        ensures
            r@ == addr,
    {
        Self::new(addr)
    }

    /// The value at `addr`, standing for a pointer with no provenance: it
    /// must not be read through until valid provenance is had by other means.
    pub fn without_provenance(addr: usize) -> (r: Self)
        ensures
            r@ == addr,
    {
        Self::new(addr)
    }

    /// The absent value.
    pub fn null() -> (r: Self)
        ensures
            r@ == 0,
            r.spec_is_null(),
    {
        Self::new(0)
    }

    /// A present value at the alignment of `T` that stands for no allocation.
    pub fn dangling() -> (r: Self)
        ensures
            r@ == align_of::<T>(),
            !r.spec_is_null(),
    {
        Self::from_non_null(NonNull::dangling())
    }

    /// Whether the value is absent.
    pub fn is_null(self) -> (r: bool)
        ensures
            r == self.spec_is_null(),
    {
        self.get().is_none()
    }

    /// Makes the value present, at the address of `value`.
    pub fn set(&mut self, value: NonNull<T>)
        ensures
            *final(self) == old(self).spec_set(value),
            final(self)@ == value@,
            !final(self).spec_is_null(),
    {
        self.addr = value.addr();
    }

    /// Makes the value absent.
    pub fn nullify(&mut self)
        ensures
            *final(self) == old(self).spec_nullify(),
            final(self)@ == 0,
    {
        self.addr = 0;
    }

    /// The handle where the value is present, `None` where it is absent.
    pub fn get(self) -> (r: Option<NonNull<T>>)
        ensures
            r is None <==> self.spec_is_null(),
            r matches Some(p) ==> p@ == self@,
    {
        NonNull::new(self.addr)
    }

    /// The address held, zero where absent, with no check for absence.
    pub fn get_unchecked(self) -> (r: usize)
        ensures
            r == self@,
    {
        self.addr
    }

    /// The same address, read as the address of a `U`; absence is kept.
    pub fn cast<U>(self) -> (r: MaybeNull<U>)
        ensures
            r == self.spec_cast::<U>(),
            r@ == self@,
    {
        MaybeNull { addr: self.addr, marker: PhantomData }
    }

    /// The address as an integer: zero where absent.
    pub fn addr(self) -> (r: usize)
        ensures
            r == self@,
    {
        match self.get() {
            Some(p) => p.addr(),
            None => 0,
        }
    }
}

impl<T> Clone for MaybeNull<T> {
    fn clone(&self) -> (r: Self)
        ensures
            r == *self,
    {
        *self
    }
}

impl<T> Copy for MaybeNull<T> {
}

impl<T> PartialEq for MaybeNull<T> {
    fn eq(&self, other: &Self) -> (r: bool)
        ensures
            r == (self@ == other@),
    {
        self.addr == other.addr
    }
}

impl<T> vstd::std_specs::cmp::PartialEqSpecImpl for MaybeNull<T> {
    open spec fn obeys_eq_spec() -> bool {
        true
    }

    open spec fn eq_spec(&self, other: &Self) -> bool {
        self@ == other@
    }
}

impl<T> Eq for MaybeNull<T> {
}

impl<T> core::hash::Hash for MaybeNull<T> {
    fn hash<H: core::hash::Hasher>(&self, state: &mut H) {
        self.addr.hash(state);
    }
}

impl<T> PartialOrd for MaybeNull<T> {
    fn partial_cmp(&self, other: &Self) -> Option<core::cmp::Ordering> {
        if self.addr < other.addr {
            Some(core::cmp::Ordering::Less)
        } else if self.addr > other.addr {
            Some(core::cmp::Ordering::Greater)
        } else {
            Some(core::cmp::Ordering::Equal)
        }
    }
}

impl<T> vstd::std_specs::cmp::PartialOrdSpecImpl for MaybeNull<T> {
    open spec fn obeys_partial_cmp_spec() -> bool {
        true
    }

    open spec fn partial_cmp_spec(&self, other: &Self) -> Option<core::cmp::Ordering> {
        if self@ < other@ {
            Some(core::cmp::Ordering::Less)
        } else if self@ > other@ {
            Some(core::cmp::Ordering::Greater)
        } else {
            Some(core::cmp::Ordering::Equal)
        }
    }
}

/// Casting a value to another target type and back keeps its address.
pub proof fn lemma_cast_round_trip<T, U>(p: MaybeNull<T>)
    ensures
        p.spec_cast::<U>().spec_cast::<T>()@ == p@,
        p.spec_cast::<U>()@ == p@,
{
}

/// Making a value absent twice leaves it as making it absent once does:
/// absent.
pub proof fn lemma_nullify_twice<T>(p: MaybeNull<T>)
    ensures
        p.spec_nullify().spec_nullify() == p.spec_nullify(),
        p.spec_nullify().spec_is_null(),
{
}

/// Setting a value to the same handle twice leaves it as setting it once
/// does: at the handle's address.
pub proof fn lemma_set_twice<T>(p: MaybeNull<T>, value: NonNull<T>)
    ensures
        p.spec_set(value).spec_set(value) == p.spec_set(value),
        p.spec_set(value)@ == value@,
{
}

} // verus!
