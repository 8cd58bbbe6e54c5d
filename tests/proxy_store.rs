use sap_proxy::{Aabb, ColliderHandle, SAPProxies, SAPProxy, SAPProxyData, Vector3Bits, NEXT_FREE_SENTINEL};

fn leaf(handle: u32) -> SAPProxy {
    let b = Aabb::new(Vector3Bits::splat(0.0f32.to_bits()), Vector3Bits::splat(1.0f32.to_bits()));
    SAPProxy::collider(ColliderHandle(handle), b, 0, 0)
}

fn free_list(s: &SAPProxies) -> Vec<u32> {
    let mut out = Vec::new();
    let mut at = s.first_free;
    while at != NEXT_FREE_SENTINEL {
        assert!(!out.contains(&at));
        out.push(at);
        at = s.get(at).unwrap().next_free;
    }
    out
}

#[test]
fn new_store_is_empty() {
    let s = SAPProxies::new();
    assert!(s.elements.is_empty());
    assert_eq!(s.first_free, NEXT_FREE_SENTINEL);
    assert!(s.get(0).is_none());
    let d = SAPProxies::default();
    assert_eq!(d.first_free, NEXT_FREE_SENTINEL);
}

#[test]
fn inserts_into_empty_store_count_up() {
    let mut s = SAPProxies::new();
    for k in 0..5u32 {
        assert_eq!(s.insert(leaf(k)), k);
    }
    assert_eq!(s.elements.len(), 5);
    assert_eq!(s.first_free, NEXT_FREE_SENTINEL);
}

#[test]
fn remove_then_insert_reuses_slot() {
    let mut s = SAPProxies::new();
    assert_eq!(s.insert(leaf(7)), 0);
    assert_eq!(s.insert(leaf(9)), 1);
    s.remove(0);
    assert_eq!(s.first_free, 0);
    assert_eq!(s.get(0).unwrap().next_free, NEXT_FREE_SENTINEL);
    assert_eq!(s.insert(leaf(11)), 0);
    assert_eq!(s.first_free, NEXT_FREE_SENTINEL);
    assert!(*s.get(1).unwrap() == leaf(9));
    assert!(*s.get(0).unwrap() == leaf(11));
    assert_eq!(s.elements.len(), 2);
}

#[test]
fn removed_slots_are_reused_last_in_first_out() {
    let mut s = SAPProxies::new();
    for k in 0..4u32 {
        s.insert(leaf(k));
    }
    s.remove(1);
    s.remove(3);
    s.remove(0);
    assert_eq!(free_list(&s), vec![0, 3, 1]);
    assert_eq!(s.insert(leaf(10)), 0);
    assert_eq!(s.insert(leaf(11)), 3);
    assert_eq!(s.insert(leaf(12)), 1);
    assert_eq!(s.insert(leaf(13)), 4);
    assert!(free_list(&s).is_empty());
}

#[test]
fn free_list_walk_after_mixed_operations() {
    let mut s = SAPProxies::new();
    for k in 0..6u32 {
        s.insert(leaf(k));
    }
    s.remove(2);
    s.remove(5);
    s.insert(leaf(20));
    s.remove(0);
    s.remove(4);
    s.insert(leaf(21));
    s.remove(1);
    let walk = free_list(&s);
    assert_eq!(walk, vec![1, 0, 2]);
    for i in 0..s.elements.len() as u32 {
        if !walk.contains(&i) {
            assert_eq!(s.get(i).unwrap().next_free, NEXT_FREE_SENTINEL);
        }
    }
}

#[test]
fn get_returns_stale_record_of_vacant_slot() {
    let mut s = SAPProxies::new();
    s.insert(leaf(7));
    s.insert(leaf(9));
    s.remove(1);
    let stale = s.get(1).unwrap();
    assert!(stale.data == SAPProxyData::Collider(ColliderHandle(9)));
    assert_eq!(stale.next_free, NEXT_FREE_SENTINEL);
    assert!(s.get(2).is_none());
}

#[test]
fn get_mut_and_index_mut_write_in_place() {
    let mut s = SAPProxies::new();
    s.insert(leaf(7));
    s.insert(leaf(9));
    s.get_mut(1).unwrap().layer_id = 42;
    assert_eq!(s.index(1).layer_id, 42);
    s.index_mut(0).layer_depth = -4;
    assert_eq!(s.get(0).unwrap().layer_depth, -4);
    assert!(s.get_mut(2).is_none());
    assert!(s.index(0).data == SAPProxyData::Collider(ColliderHandle(7)));
}
