//! A nullable, reference-counted, type-tagged handle to a native object.
//!
//! A `ComPtr<T>` either is null or owns exactly one strong reference to a
//! live object of the native layer that supports interface `T`. Every
//! operation that creates or destroys such a reference takes the
//! [`NativeLayer`] it acts on, and its contract states the exact effect on
//! that layer's reference counts.

use crate::native::{acquired, released, NativeLayer, STATUS_NO_INTERFACE, STATUS_OK};
use core::marker::PhantomData;
use vstd::prelude::*;

verus! {

/// An interface a native object can support, named by an opaque, globally
/// unique identity token.
pub trait Interface {
    /// The interface's identity token.
    spec fn spec_id() -> u64;

    /// Returns the interface's identity token.
    fn id() -> (r: u64)
        ensures
            r == Self::spec_id(),
    ;
}

/// A nullable handle to a native object believed to implement interface `T`.
///
/// The view of a handle is the address it stores; address `0` is the null
/// handle. A non-null handle owns exactly one strong reference to its object:
/// it is created by an operation that acquired (or was handed) that
/// reference, and [`ComPtr::release`] consumes the handle while giving the
/// reference back, so each handle releases at most once.
#[derive(Debug, Hash)]
#[verifier::reject_recursive_types(T)]
pub struct ComPtr<T: Interface> {
    addr: u64,
    marker: PhantomData<T>,
}

impl<T: Interface> View for ComPtr<T> {
    type V = u64;

    closed spec fn view(&self) -> u64 {
        self.addr
    }
}

impl<T: Interface> ComPtr<T> {
    /// The null handle: it holds no reference and never fails.
    pub fn null() -> (h: Self)
        ensures
            h@ == 0,
    {
        ComPtr { addr: 0, marker: PhantomData }
    }

    /// Takes ownership of one strong reference to `addr` that the caller
    /// already owns (for instance, the freshly returned result of a creation
    /// call). No new reference is acquired.
    ///
    /// This constructor is trust-based: the caller is responsible for the
    /// object at `addr` being live, implementing `T`, and having one strong
    /// reference to spare. The contract of [`ComPtr::release`] holds the
    /// handle to that promise when the reference is given back.
    pub fn from_reffed(addr: u64) -> (h: Self)
        requires
            addr != 0,
        ensures
            h@ == addr,
    {
        ComPtr { addr, marker: PhantomData }
    }

    /// Builds a counted handle to `addr`, acquiring a new strong reference
    /// for it: the count at `addr` rises by exactly one and no other object
    /// is touched. This is the symmetric, safer constructor for an address
    /// the caller does not already own a reference to.
    pub fn from_raw(native: &mut NativeLayer, addr: u64) -> (h: Self)
        requires
            addr != 0,
            old(native).live(addr),
            old(native).supports_id(addr, T::spec_id()),
            old(native).count_of(addr) < u64::MAX,
        ensures
            h@ == addr,
            final(native)@ == acquired(old(native)@, addr),
    {
        native.acquire(addr);
        ComPtr { addr, marker: PhantomData }
    }

    /// Returns true if the inner address is null.
    pub fn is_null(&self) -> (r: bool)
        ensures
            r == (self@ == 0),
    {
        self.addr == 0
    }

    /// Returns the raw inner address. May be null. Used only for interop at
    /// the boundary with real native code.
    pub fn as_mut_ptr(&self) -> (r: u64)
        ensures
            r == self@,
    {
        self.addr
    }

    /// Returns the object's address viewed through its universal base
    /// capability — the reference-counting interface every native object
    /// implements — as the lifecycle and negotiation operations take it.
    /// The handle must not be null.
    pub fn as_unknown(&self) -> (r: u64)
        requires
            self@ != 0,
        ensures
            r == self@,
    {
        self.addr
    }

    /// Returns true exactly when this handle and `addr` are the same address
    /// (the handle's identity equality against a raw address).
    pub fn eq_addr(&self, addr: u64) -> (r: bool)
        ensures
            r == (self@ == addr),
    {
        self.addr == addr
    }

    /// Clones the handle by acquiring an independent strong reference to the
    /// same object: the count at the object rises by exactly one, and the
    /// clone holds the same address. Never a bit-copy of ownership.
    pub fn clone(&self, native: &mut NativeLayer) -> (c: Self)
        requires
            self@ != 0,
            old(native).live(self@),
            old(native).count_of(self@) < u64::MAX,
        ensures
            c@ == self@,
            final(native)@ == acquired(old(native)@, self@),
    {
        native.acquire(self.addr);
        ComPtr { addr: self.addr, marker: PhantomData }
    }

    /// Destroys the handle. A non-null handle gives its one strong reference
    /// back: the count at its object drops by exactly one (destroying the
    /// object when it reaches zero) and no other object is touched. A null
    /// handle leaves the layer unchanged. The handle is consumed, so its
    /// reference is released exactly once.
    pub fn release(self, native: &mut NativeLayer)
        requires
            self@ != 0 ==> old(native).live(self@) && old(native).count_of(self@) >= 1,
        ensures
            self@ != 0 ==> final(native)@ == released(old(native)@, self@),
            self@ == 0 ==> final(native)@ == old(native)@,
    {
        if self.addr != 0 {
            native.release(self.addr);
        }
    }

    /// Casts `T` to `U` by negotiating with the object for `U`'s identity
    /// (the strict form). The handle must not be null.
    ///
    /// If the object supports `U`, the returned handle holds the same address
    /// with one fresh strong reference acquired for it, beside
    /// [`STATUS_OK`]. Otherwise the returned handle is null, the status says
    /// why ([`STATUS_NO_INTERFACE`]), and the layer is unchanged — never a
    /// null handle with success nor a non-null handle with failure.
    pub fn cast<U: Interface>(&self, native: &mut NativeLayer) -> (r: (ComPtr<U>, i32))
        requires
            self@ != 0,
            old(native).live(self@),
            old(native).count_of(self@) < u64::MAX,
        ensures
            old(native).supports_id(self@, U::spec_id()) ==> r.0@ == self@ && r.1 == STATUS_OK
                && final(native)@ == acquired(old(native)@, self@),
            !old(native).supports_id(self@, U::spec_id()) ==> r.0@ == 0
                && r.1 == STATUS_NO_INTERFACE && final(native)@ == old(native)@,
            r.0@ != 0 <==> old(native).supports_id(self@, U::spec_id()),
    {
        let base = self.as_unknown();
        let (obj, hr) = native.negotiate(base, U::id());
        if obj != 0 {
            (ComPtr { addr: obj, marker: PhantomData }, hr)
        } else {
            (ComPtr::null(), hr)
        }
    }

    /// Casts `T` to `U` by negotiating with the object for `U`'s identity
    /// (the tolerant form): the result is present if and only if the
    /// negotiation yielded a non-null object, beside the native status code.
    /// The effect on the layer is that of [`ComPtr::cast`].
    pub fn cast_tolerant<U: Interface>(&self, native: &mut NativeLayer) -> (r: (
        Option<ComPtr<U>>,
        i32,
    ))
        requires
            self@ != 0,
            old(native).live(self@),
            old(native).count_of(self@) < u64::MAX,
        ensures
            r.0 is Some <==> old(native).supports_id(self@, U::spec_id()),
            old(native).supports_id(self@, U::spec_id()) ==> (r.0 matches Some(h) && h@ == self@)
                && r.1 == STATUS_OK && final(native)@ == acquired(old(native)@, self@),
            !old(native).supports_id(self@, U::spec_id()) ==> r.0 is None
                && r.1 == STATUS_NO_INTERFACE && final(native)@ == old(native)@,
    {
        let base = self.as_unknown();
        let (obj, hr) = native.negotiate(base, U::id());
        if obj != 0 {
            (Some(ComPtr { addr: obj, marker: PhantomData }), hr)
        } else {
            (None, hr)
        }
    }
}

impl<T: Interface> PartialEq for ComPtr<T> {
    /// Identity equality: two handles are equal exactly when their stored
    /// addresses are identical.
    fn eq(&self, other: &Self) -> (r: bool) {
        self.addr == other.addr
    }
}

impl<T: Interface> vstd::std_specs::cmp::PartialEqSpecImpl for ComPtr<T> {
    open spec fn obeys_eq_spec() -> bool {
        true
    }

    open spec fn eq_spec(&self, other: &Self) -> bool {
        self@ == other@
    }
}

/// A non-owning, typed view of a handle, as the chain's downcast accessors
/// hand it out: the same address seen through an earlier interface of the
/// chain, without a new reference having been acquired.
pub struct ComRef<T: Interface> {
    addr: u64,
    marker: PhantomData<T>,
}

impl<T: Interface> View for ComRef<T> {
    type V = u64;

    closed spec fn view(&self) -> u64 {
        self.addr
    }
}

impl<T: Interface> ComRef<T> {
    /// Views `addr` through interface `T` without acquiring a reference.
    /// Only sound inside the crate, where the chain's layout-covariance
    /// invariant justifies the reinterpretation.
    pub(crate) fn reinterpret(addr: u64) -> (r: Self)
        ensures
            r@ == addr,
    {
        ComRef { addr, marker: PhantomData }
    }

    /// Returns true if the viewed address is null.
    pub fn is_null(&self) -> (r: bool)
        ensures
            r == (self@ == 0),
    {
        self.addr == 0
    }

    /// Returns the viewed address. May be null.
    pub fn as_mut_ptr(&self) -> (r: u64)
        ensures
            r == self@,
    {
        self.addr
    }

    /// Upgrades the view to an owning handle by acquiring a fresh strong
    /// reference (which the new handle then adopts): the count at the object
    /// rises by exactly one.
    pub fn to_owned(&self, native: &mut NativeLayer) -> (h: ComPtr<T>)
        requires
            self@ != 0,
            old(native).live(self@),
            old(native).count_of(self@) < u64::MAX,
        ensures
            h@ == self@,
            final(native)@ == acquired(old(native)@, self@),
    {
        native.acquire(self.addr);
        ComPtr::from_reffed(self.addr)
    }
}

} // verus!
