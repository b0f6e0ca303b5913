//! The laws the handle abstraction lives by, stated over the native layer's
//! mathematical state and the handles' views, and proved once and for all.

use crate::handle::{ComPtr, Interface};
use crate::native::{acquired, released, ObjectState};
use vstd::prelude::*;
use vstd::std_specs::cmp::PartialEqSpec;

verus! {

/// Acquiring a strong reference raises the count at the acquired address by
/// exactly one, keeps that object's supported identities, and touches no
/// other object — a single acquire is accounted against exactly one object.
pub proof fn lemma_acquire_effect(m: Map<u64, ObjectState>, addr: u64)
    requires
        m.contains_key(addr),
    ensures
        acquired(m, addr).contains_key(addr),
        acquired(m, addr)[addr].count == m[addr].count + 1,
        acquired(m, addr)[addr].supports == m[addr].supports,
        forall|a: u64| a != addr ==> (acquired(m, addr).contains_key(a) <==> m.contains_key(a)),
        forall|a: u64| a != addr && m.contains_key(a) ==> acquired(m, addr)[a] == m[a],
{
}

/// Releasing a strong reference lowers the count at the released address by
/// exactly one, destroys the object exactly when that count reaches zero,
/// and touches no other object — each handle's one release is accounted
/// against exactly one object, exactly once.
pub proof fn lemma_release_effect(m: Map<u64, ObjectState>, addr: u64)
    requires
        m.contains_key(addr),
        m[addr].count >= 1,
    ensures
        released(m, addr).contains_key(addr) <==> m[addr].count > 1,
        m[addr].count > 1 ==> released(m, addr)[addr].count == m[addr].count - 1,
        m[addr].count > 1 ==> released(m, addr)[addr].supports == m[addr].supports,
        forall|a: u64| a != addr ==> (released(m, addr).contains_key(a) <==> m.contains_key(a)),
        forall|a: u64| a != addr && m.contains_key(a) ==> released(m, addr)[a] == m[a],
{
}

/// Copy-then-drop round trip: cloning a handle acquires one reference, and
/// releasing the clone gives exactly that reference back, so the layer
/// returns to its state before the copy. The original handle's reference
/// (`count >= 1`) is untouched throughout.
pub proof fn lemma_acquire_then_release_restores(m: Map<u64, ObjectState>, addr: u64)
    requires
        m.contains_key(addr),
        m[addr].count >= 1,
    ensures
        released(acquired(m, addr), addr) == m,
{
    assert(released(acquired(m, addr), addr) =~= m);
}

/// Handle equality is an equivalence relation and is address-based: two
/// handles are equal exactly when they store the same address, however each
/// came by its own strong reference. In particular two handles acquired
/// independently on the same address are equal.
pub proof fn lemma_handle_equality<T: Interface>(a: ComPtr<T>, b: ComPtr<T>, c: ComPtr<T>)
    ensures
        a.eq_spec(&a),
        a.eq_spec(&b) == b.eq_spec(&a),
        a.eq_spec(&b) && b.eq_spec(&c) ==> a.eq_spec(&c),
        a.eq_spec(&b) <==> a@ == b@,
{
}

/// Null is one value: any two null handles are equal, by the same
/// address-based equality that compares non-null handles.
pub proof fn lemma_null_equals_null<T: Interface>(a: ComPtr<T>, b: ComPtr<T>)
    requires
        a@ == 0,
        b@ == 0,
    ensures
        a.eq_spec(&b),
{
}

} // verus!
