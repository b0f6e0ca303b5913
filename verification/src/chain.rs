//! A linear interface-version chain over reference-counted handles.
//!
//! Given the ordered interface versions `V1 ⊂ V2 ⊂ V3` — each version a
//! superset-capability successor of the previous — [`VersionChain`] is the
//! closed tagged union holding exactly one version's handle, stored as the
//! object's actual highest-known version. Because the chain is strictly
//! linear, downcasting to any earlier version needs no negotiation call: the
//! answer is derived purely from which variant the value already holds, and
//! the earlier-version view is a reinterpretation of the stored address
//! (layout covariance), never a fresh acquire. Upcasting is never derivable
//! this way: it always goes through one of the `from_*` constructors, whose
//! caller must hold independent runtime evidence (such as a successful
//! negotiation) that the object really is at least that version.

use crate::handle::{ComPtr, ComRef, Interface};
use crate::native::{released, NativeLayer};
use vstd::pervasive::unreached;
use vstd::prelude::*;

verus! {

/// The identity token of interface version 1, the chain's base.
pub const IFACE_V1_ID: u64 = 101;

/// The identity token of interface version 2.
pub const IFACE_V2_ID: u64 = 102;

/// The identity token of interface version 3.
pub const IFACE_V3_ID: u64 = 103;

/// Interface version 1: the base capability surface of the chain.
pub struct IfaceV1;

/// Interface version 2: everything of version 1 and more.
pub struct IfaceV2;

/// Interface version 3: everything of version 2 and more.
pub struct IfaceV3;

impl Interface for IfaceV1 {
    open spec fn spec_id() -> u64 {
        IFACE_V1_ID
    }

    fn id() -> u64 {
        IFACE_V1_ID
    }
}

impl Interface for IfaceV2 {
    open spec fn spec_id() -> u64 {
        IFACE_V2_ID
    }

    fn id() -> u64 {
        IFACE_V2_ID
    }
}

impl Interface for IfaceV3 {
    open spec fn spec_id() -> u64 {
        IFACE_V3_ID
    }

    fn id() -> u64 {
        IFACE_V3_ID
    }
}

/// A handle to an object known to support some version of the chained
/// interface, stored as its actual highest-known version. Which variant a
/// value holds is fixed at construction; the value owns the one handle it
/// wraps, and nothing else.
pub enum VersionChain {
    V1(ComPtr<IfaceV1>),
    V2(ComPtr<IfaceV2>),
    V3(ComPtr<IfaceV3>),
}

impl VersionChain {
    /// The version this chain value was constructed at: 1, 2 or 3.
    pub open spec fn version(&self) -> int {
        match self {
            VersionChain::V1(_) => 1,
            VersionChain::V2(_) => 2,
            VersionChain::V3(_) => 3,
        }
    }

    /// The address of the one handle the chain value holds.
    pub open spec fn addr(&self) -> u64 {
        match self {
            VersionChain::V1(h) => h@,
            VersionChain::V2(h) => h@,
            VersionChain::V3(h) => h@,
        }
    }

    /// Builds the chain value directly as version 1 from a version-1 handle.
    /// Trust-based constructor: the caller promises the object really is at
    /// least version 1. This never tries to upcast.
    pub fn from_v1(value: ComPtr<IfaceV1>) -> (c: Self)
        ensures
            c.version() == 1,
            c.addr() == value@,
    {
        VersionChain::V1(value)
    }

    /// Builds the chain value directly as version 2 from a version-2 handle.
    /// Trust-based constructor: the caller promises the object really is at
    /// least version 2. This never tries to upcast.
    pub fn from_v2(value: ComPtr<IfaceV2>) -> (c: Self)
        ensures
            c.version() == 2,
            c.addr() == value@,
    {
        VersionChain::V2(value)
    }

    /// Builds the chain value directly as version 3 from a version-3 handle.
    /// Trust-based constructor: the caller promises the object really is at
    /// least version 3. This never tries to upcast.
    pub fn from_v3(value: ComPtr<IfaceV3>) -> (c: Self)
        ensures
            c.version() == 3,
            c.addr() == value@,
    {
        VersionChain::V3(value)
    }

    /// Views the held handle as version 1. The chain's base version is
    /// supported by every variant, so this always succeeds; no negotiation
    /// call is made.
    pub fn as_v1(&self) -> (r: Option<ComRef<IfaceV1>>)
        ensures
            r is Some <==> self.version() >= 1,
            r matches Some(v) ==> v@ == self.addr(),
    {
        match self {
            VersionChain::V1(v) => Some(ComRef::reinterpret(v.as_mut_ptr())),
            VersionChain::V2(v) => Some(ComRef::reinterpret(v.as_mut_ptr())),
            VersionChain::V3(v) => Some(ComRef::reinterpret(v.as_mut_ptr())),
        }
    }

    /// Views the held handle as version 2 if the value holds version 2 or
    /// later, else absent. The answer is derived purely from which variant
    /// the value holds; no negotiation call is made.
    pub fn as_v2(&self) -> (r: Option<ComRef<IfaceV2>>)
        ensures
            r is Some <==> self.version() >= 2,
            r matches Some(v) ==> v@ == self.addr(),
    {
        match self {
            VersionChain::V1(_) => None,
            VersionChain::V2(v) => Some(ComRef::reinterpret(v.as_mut_ptr())),
            VersionChain::V3(v) => Some(ComRef::reinterpret(v.as_mut_ptr())),
        }
    }

    /// Views the held handle as version 3 if the value holds version 3, else
    /// absent. The answer is derived purely from which variant the value
    /// holds; no negotiation call is made.
    pub fn as_v3(&self) -> (r: Option<ComRef<IfaceV3>>)
        ensures
            r is Some <==> self.version() >= 3,
            r matches Some(v) ==> v@ == self.addr(),
    {
        match self {
            VersionChain::V1(_) => None,
            VersionChain::V2(_) => None,
            VersionChain::V3(v) => Some(ComRef::reinterpret(v.as_mut_ptr())),
        }
    }

    /// Views the held handle as version 1, the chain's base. Every variant
    /// supports the base version, so this form cannot fail.
    pub fn v1(&self) -> (r: ComRef<IfaceV1>)
        ensures
            r@ == self.addr(),
    {
        match self {
            VersionChain::V1(v) => ComRef::reinterpret(v.as_mut_ptr()),
            VersionChain::V2(v) => ComRef::reinterpret(v.as_mut_ptr()),
            VersionChain::V3(v) => ComRef::reinterpret(v.as_mut_ptr()),
        }
    }

    /// Views the held handle as version 2. The unwrapping form of
    /// [`VersionChain::as_v2`]: the caller must hold independent certainty
    /// that the value is at version 2 or later, so the failing inputs are
    /// excluded by contract.
    pub fn unwrap_v2(&self) -> (r: ComRef<IfaceV2>)
        requires
            self.version() >= 2,
        ensures
            r@ == self.addr(),
    {
        match self {
            VersionChain::V1(_) => unreached(),
            VersionChain::V2(v) => ComRef::reinterpret(v.as_mut_ptr()),
            VersionChain::V3(v) => ComRef::reinterpret(v.as_mut_ptr()),
        }
    }

    /// Views the held handle as version 3. The unwrapping form of
    /// [`VersionChain::as_v3`]: the caller must hold independent certainty
    /// that the value is at version 3, so the failing inputs are excluded by
    /// contract.
    pub fn unwrap_v3(&self) -> (r: ComRef<IfaceV3>)
        requires
            self.version() >= 3,
        ensures
            r@ == self.addr(),
    {
        match self {
            VersionChain::V1(_) => unreached(),
            VersionChain::V2(_) => unreached(),
            VersionChain::V3(v) => ComRef::reinterpret(v.as_mut_ptr()),
        }
    }

    /// The default dereference of the chain: the held handle viewed through
    /// the lowest (base) variant's interface, so that any chain value can be
    /// used wherever the base capability is expected without an explicit
    /// downcast call. Yields the same address as [`VersionChain::as_v1`].
    pub fn base(&self) -> (r: ComRef<IfaceV1>)
        ensures
            r@ == self.addr(),
    {
        self.v1()
    }

    /// Destroys the chain value, destroying the one handle it holds: if that
    /// handle is non-null, its strong reference is given back exactly once.
    pub fn release(self, native: &mut NativeLayer)
        requires
            self.addr() != 0 ==> old(native).live(self.addr()) && old(native).count_of(self.addr())
                >= 1,
        ensures
            self.addr() != 0 ==> final(native)@ == released(old(native)@, self.addr()),
            self.addr() == 0 ==> final(native)@ == old(native)@,
    {
        match self {
            VersionChain::V1(h) => h.release(native),
            VersionChain::V2(h) => h.release(native),
            VersionChain::V3(h) => h.release(native),
        }
    }
}

} // verus!
