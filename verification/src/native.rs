//! A model of the native object layer that the handles manage.
//!
//! A native object is reached only through an opaque non-zero address. The
//! layer keeps, per live object, a strong-reference count and the set of
//! interface identities the object supports. It offers exactly the three
//! primitive operations the handle type needs: `acquire` (increment),
//! `release` (decrement, destroying the object when the count reaches zero),
//! and `negotiate` (query for another supported interface, handing out one
//! fresh reference on success).

use vstd::hash_map::HashMapWithView;
use vstd::pervasive::unreached;
use vstd::prelude::*;

verus! {

/// Status code returned when an operation succeeds.
pub const STATUS_OK: i32 = 0;

/// Status code returned when negotiation finds that the object does not
/// support the requested interface identity (the COM `E_NOINTERFACE` value).
pub const STATUS_NO_INTERFACE: i32 = -2147467262;

/// The mathematical state of one live native object: how many strong
/// references are outstanding, and which interface identities it supports.
pub struct ObjectState {
    pub count: nat,
    pub supports: Set<u64>,
}

/// One live native object as the layer stores it.
struct Object {
    count: u64,
    supports: Vec<u64>,
}

impl View for Object {
    type V = ObjectState;

    closed spec fn view(&self) -> ObjectState {
        ObjectState { count: self.count as nat, supports: self.supports@.to_set() }
    }
}

/// The modeled native layer: a table from object address to object state.
/// An address is live exactly while it is in the table; destruction removes
/// it. Address `0` is never live — it is the null address.
pub struct NativeLayer {
    objects: HashMapWithView<u64, Object>,
}

impl View for NativeLayer {
    type V = Map<u64, ObjectState>;

    closed spec fn view(&self) -> Map<u64, ObjectState> {
        self.objects@.map_values(|o: Object| o@)
    }
}

/// The state of a layer after one strong reference to `addr` is acquired.
pub open spec fn acquired(m: Map<u64, ObjectState>, addr: u64) -> Map<u64, ObjectState> {
    m.insert(addr, ObjectState { count: m[addr].count + 1, supports: m[addr].supports })
}

/// The state of a layer after one strong reference to `addr` is released:
/// the count drops by one, and the object is destroyed when it reaches zero.
pub open spec fn released(m: Map<u64, ObjectState>, addr: u64) -> Map<u64, ObjectState> {
    if m[addr].count <= 1 {
        m.remove(addr)
    } else {
        m.insert(addr, ObjectState { count: (m[addr].count - 1) as nat, supports: m[addr].supports })
    }
}

impl NativeLayer {
    /// Whether `addr` is the address of a live object.
    pub open spec fn live(&self, addr: u64) -> bool {
        self@.contains_key(addr)
    }

    /// The strong-reference count of the live object at `addr`.
    pub open spec fn count_of(&self, addr: u64) -> nat {
        self@[addr].count
    }

    /// Whether the live object at `addr` supports the interface identity `id`.
    pub open spec fn supports_id(&self, addr: u64, id: u64) -> bool {
        self@[addr].supports.contains(id)
    }

    /// An empty native layer: no object is live.
    pub fn new() -> (layer: Self)
        ensures
            layer@ == Map::<u64, ObjectState>::empty(),
    {
        let layer = NativeLayer { objects: HashMapWithView::new() };
        proof {
            assert(layer@ =~= Map::<u64, ObjectState>::empty());
        }
        layer
    }

    /// Brings a new object to life at `addr`, with `count` strong references
    /// already outstanding and `supports` as its supported identities.
    ///
    /// This stands for the producers outside this crate (object-creation
    /// calls): a creation call that hands its caller one reference is a
    /// registration with `count == 1`.
    pub fn register(&mut self, addr: u64, count: u64, supports: Vec<u64>)
        requires
            addr != 0,
            !old(self).live(addr),
        ensures
            final(self)@ == old(self)@.insert(
                addr,
                ObjectState { count: count as nat, supports: supports@.to_set() },
            ),
    {
        let ghost target = self@.insert(
            addr,
            ObjectState { count: count as nat, supports: supports@.to_set() },
        );
        self.objects.insert(addr, Object { count, supports });
        proof {
            assert(self@ =~= target);
        }
    }

    /// Whether `addr` is the address of a live object.
    pub fn is_live(&self, addr: u64) -> (r: bool)
        ensures
            r == self.live(addr),
    {
        self.objects.contains_key(&addr)
    }

    /// The strong-reference count of the live object at `addr`.
    pub fn count(&self, addr: u64) -> (r: u64)
        requires
            self.live(addr),
        ensures
            r as nat == self.count_of(addr),
    {
        match self.objects.get(&addr) {
            Some(o) => o.count,
            None => unreached(),
        }
    }

    /// Whether the live object at `addr` supports the interface identity `id`.
    pub fn supports(&self, addr: u64, id: u64) -> (r: bool)
        requires
            self.live(addr),
        ensures
            r == self.supports_id(addr, id),
    {
        match self.objects.get(&addr) {
            Some(o) => vec_contains(&o.supports, id),
            None => unreached(),
        }
    }

    /// Increments the strong-reference count of the live object at `addr` by
    /// exactly one; no other object is touched.
    pub fn acquire(&mut self, addr: u64)
        requires
            old(self).live(addr),
            old(self).count_of(addr) < u64::MAX,
        ensures
            final(self)@ == acquired(old(self)@, addr),
    {
        let ghost target = acquired(self@, addr);
        if let Some(o) = self.objects.remove(&addr) {
            let bumped = Object { count: o.count + 1, supports: o.supports };
            self.objects.insert(addr, bumped);
        }
        proof {
            assert(self@ =~= target);
        }
    }

    /// Decrements the strong-reference count of the live object at `addr` by
    /// exactly one. When the count reaches zero, native destruction fires and
    /// the object ceases to be live; no other object is touched.
    pub fn release(&mut self, addr: u64)
        requires
            old(self).live(addr),
            old(self).count_of(addr) >= 1,
        ensures
            final(self)@ == released(old(self)@, addr),
    {
        let ghost target = released(self@, addr);
        if let Some(o) = self.objects.remove(&addr) {
            if o.count > 1 {
                let lowered = Object { count: o.count - 1, supports: o.supports };
                self.objects.insert(addr, lowered);
            }
        }
        proof {
            assert(self@ =~= target);
        }
    }

    /// Asks the live object at `addr` whether it supports the interface
    /// identity `target_id`. If it does, one fresh strong reference is
    /// acquired on its behalf and its (non-null) address is returned with
    /// [`STATUS_OK`]; otherwise the layer is left unchanged and the null
    /// address is returned with [`STATUS_NO_INTERFACE`].
    pub fn negotiate(&mut self, addr: u64, target_id: u64) -> (r: (u64, i32))
        requires
            old(self).live(addr),
            old(self).count_of(addr) < u64::MAX,
        ensures
            old(self).supports_id(addr, target_id) ==> r == (addr, STATUS_OK)
                && final(self)@ == acquired(old(self)@, addr),
            !old(self).supports_id(addr, target_id) ==> r == (0u64, STATUS_NO_INTERFACE)
                && final(self)@ == old(self)@,
    {
        if self.supports(addr, target_id) {
            self.acquire(addr);
            (addr, STATUS_OK)
        } else {
            (0, STATUS_NO_INTERFACE)
        }
    }
}

/// Whether `v` holds `x`.
fn vec_contains(v: &Vec<u64>, x: u64) -> (r: bool)
    ensures
        r == v@.contains(x),
{
    let mut i: usize = 0;
    while i < v.len()
        invariant
            0 <= i <= v@.len(),
            forall|j: int| 0 <= j < i ==> v@[j] != x,
        decreases v@.len() - i,
    {
        if v[i] == x {
            return true;
        }
        i = i + 1;
    }
    false
}

} // verus!
