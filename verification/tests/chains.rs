use d3d12::chain::{IfaceV1, IfaceV2, IfaceV3, VersionChain};
use d3d12::chain::{IFACE_V1_ID, IFACE_V2_ID, IFACE_V3_ID};
use d3d12::handle::ComPtr;
use d3d12::native::NativeLayer;

fn chain_at_v3(native: &mut NativeLayer, addr: u64) -> VersionChain {
    native.register(addr, 0, vec![IFACE_V1_ID, IFACE_V2_ID, IFACE_V3_ID]);
    let h = ComPtr::<IfaceV3>::from_raw(native, addr);
    VersionChain::from_v3(h)
}

fn chain_at_v1(native: &mut NativeLayer, addr: u64) -> VersionChain {
    native.register(addr, 0, vec![IFACE_V1_ID]);
    let h = ComPtr::<IfaceV1>::from_raw(native, addr);
    VersionChain::from_v1(h)
}

#[test]
fn chain_built_at_v3_downcasts_to_every_version() {
    let mut native = NativeLayer::new();
    let chain = chain_at_v3(&mut native, 0x1000);

    let v1 = chain.as_v1().expect("downcast to the base version must succeed");
    let v2 = chain.as_v2().expect("downcast to version 2 must succeed");
    let v3 = chain.as_v3().expect("downcast to version 3 must succeed");
    assert_eq!(v1.as_mut_ptr(), 0x1000);
    assert_eq!(v2.as_mut_ptr(), 0x1000);
    assert_eq!(v3.as_mut_ptr(), 0x1000);

    // The dereference-to-base view yields the same address as the V1 accessor.
    assert_eq!(chain.base().as_mut_ptr(), v1.as_mut_ptr());

    // No downcast performed a negotiation call: the count is untouched.
    assert_eq!(native.count(0x1000), 1);
    chain.release(&mut native);
    assert!(!native.is_live(0x1000));
}

#[test]
fn chain_built_at_v1_reports_later_versions_absent() {
    let mut native = NativeLayer::new();
    let chain = chain_at_v1(&mut native, 0x2000);

    assert!(chain.as_v1().is_some());
    assert!(chain.as_v2().is_none());
    assert!(chain.as_v3().is_none());
    assert_eq!(chain.base().as_mut_ptr(), 0x2000);
    chain.release(&mut native);
}

#[test]
fn chain_built_at_v2_sits_between() {
    let mut native = NativeLayer::new();
    native.register(0x3000, 0, vec![IFACE_V1_ID, IFACE_V2_ID]);
    let h = ComPtr::<IfaceV2>::from_raw(&mut native, 0x3000);
    let chain = VersionChain::from_v2(h);

    assert!(chain.as_v1().is_some());
    assert!(chain.as_v2().is_some());
    assert!(chain.as_v3().is_none());
    chain.release(&mut native);
}

#[test]
fn unwrapping_accessors_yield_the_held_address() {
    let mut native = NativeLayer::new();
    let chain = chain_at_v3(&mut native, 0x4000);

    assert_eq!(chain.v1().as_mut_ptr(), 0x4000);
    assert_eq!(chain.unwrap_v2().as_mut_ptr(), 0x4000);
    assert_eq!(chain.unwrap_v3().as_mut_ptr(), 0x4000);
    chain.release(&mut native);
}

#[test]
fn chain_view_upgrades_with_a_fresh_reference() {
    let mut native = NativeLayer::new();
    let chain = chain_at_v3(&mut native, 0x5000);

    let view = chain.v1();
    assert!(!view.is_null());
    let owned: ComPtr<IfaceV1> = view.to_owned(&mut native);
    assert_eq!(native.count(0x5000), 2);

    chain.release(&mut native);
    assert!(native.is_live(0x5000));
    owned.release(&mut native);
    assert!(!native.is_live(0x5000));
}

#[test]
fn chain_release_gives_back_exactly_one_reference() {
    let mut native = NativeLayer::new();
    native.register(0x6000, 0, vec![IFACE_V1_ID, IFACE_V2_ID, IFACE_V3_ID]);
    let h = ComPtr::<IfaceV3>::from_raw(&mut native, 0x6000);
    let extra = h.clone(&mut native);
    let chain = VersionChain::from_v3(h);
    assert_eq!(native.count(0x6000), 2);

    chain.release(&mut native);
    assert_eq!(native.count(0x6000), 1);
    extra.release(&mut native);
    assert!(!native.is_live(0x6000));
}
