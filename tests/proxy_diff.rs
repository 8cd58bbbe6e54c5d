use sap_proxy::{
    Aabb, ColliderHandle, SAPProxy, SAPProxyData, SAPRegion, Vector3Bits, MAX_FINITE_BITS,
    NEG_MAX_FINITE_BITS, NEXT_FREE_SENTINEL,
};

fn cube(lo: f32, hi: f32) -> Aabb {
    Aabb::new(Vector3Bits::splat(lo.to_bits()), Vector3Bits::splat(hi.to_bits()))
}

fn region(update_count: u8) -> SAPRegion {
    SAPRegion {
        proxy_count: 2,
        subproper_proxy_count: 1,
        update_count,
        needs_update_after_subregion_removal: true,
    }
}

fn assert_round_trip(a: &SAPProxy, b: &SAPProxy) {
    let d = a.diff(b);
    let mut c = a.clone();
    c.apply(&d);
    assert!(c == *b);
}

#[test]
fn diff_of_equal_proxies_is_empty() {
    let x = SAPProxy::collider(ColliderHandle(3), cube(0.0, 1.0), 4, -2);
    let d = x.diff(&x);
    assert!(d.data.is_none());
    assert!(d.aabb.is_none());
    assert_eq!(d.next_free, 0);
    assert_eq!(d.layer_id, 0);
    assert_eq!(d.layer_depth, 0);
    let mut y = x.clone();
    y.apply(&d);
    assert!(y == x);
}

#[test]
fn diff_of_region_with_itself_is_empty() {
    let x = SAPProxy::subregion(Box::new(region(1)), cube(-1.0, 1.0), 0, 0);
    let d = x.diff(&x);
    assert!(d.data.is_none() && d.aabb.is_none());
}

#[test]
fn diff_carries_changed_data_and_box() {
    let a = SAPProxy::collider(ColliderHandle(3), cube(0.0, 1.0), 0, 0);
    let b = SAPProxy::collider(ColliderHandle(5), cube(0.0, 2.0), 0, 0);
    let d = a.diff(&b);
    assert!(d.data == Some(SAPProxyData::Collider(ColliderHandle(5))));
    assert_eq!(d.aabb, Some(cube(0.0, 2.0)));
}

#[test]
fn diff_of_integer_fields_is_wrapping_difference() {
    let mut a = SAPProxy::collider(ColliderHandle(3), cube(0.0, 1.0), 10, 5);
    a.next_free = 3;
    let mut b = a.clone();
    b.next_free = 10;
    b.layer_id = 4;
    b.layer_depth = -120;
    let d = a.diff(&b);
    assert_eq!(d.next_free, 7);
    assert_eq!(d.layer_id, 250);
    assert_eq!(d.layer_depth, -125);
    assert!(d.data.is_none() && d.aabb.is_none());
    let mut c = a.clone();
    c.apply(&d);
    assert!(c == b);
}

#[test]
fn round_trip_from_live_to_vacant_link() {
    let a = SAPProxy::collider(ColliderHandle(1), cube(0.0, 1.0), 0, 0);
    let mut b = a.clone();
    b.next_free = 0;
    let d = a.diff(&b);
    assert_eq!(d.next_free, 1);
    assert_round_trip(&a, &b);
    assert_round_trip(&b, &a);
}

#[test]
fn round_trip_between_variants() {
    let a = SAPProxy::collider(ColliderHandle(1), cube(0.0, 1.0), 2, -3);
    let b = SAPProxy::subregion(Box::new(region(7)), cube(-5.0, 5.0), 200, 100);
    assert_round_trip(&a, &b);
    assert_round_trip(&b, &a);
    let mut emptied = b.clone();
    let _ = emptied.data.take_region();
    assert_round_trip(&b, &emptied);
    assert_round_trip(&emptied, &a);
}

#[test]
fn round_trip_from_identity() {
    let base = SAPProxy::identity();
    let b = SAPProxy::subregion(Box::new(region(7)), cube(-5.0, 5.0), 9, -9);
    let d = base.diff(&b);
    let mut rebuilt = SAPProxy::identity();
    rebuilt.apply(&d);
    assert!(rebuilt == b);
}

#[test]
fn identity_is_the_null_collider_with_the_empty_box() {
    let id = SAPProxy::identity();
    assert!(id.data == SAPProxyData::Collider(ColliderHandle(0)));
    assert_eq!(id.aabb.mins, Vector3Bits::splat(MAX_FINITE_BITS));
    assert_eq!(id.aabb.maxs, Vector3Bits::splat(NEG_MAX_FINITE_BITS));
    assert_eq!(id.next_free, 0);
    assert_eq!(id.layer_id, 0);
    assert_eq!(id.layer_depth, 0);
    assert_ne!(id.next_free, NEXT_FREE_SENTINEL);
}
