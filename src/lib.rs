//! Proxy storage for a hierarchical sweep-and-prune broad phase: the record of one
//! collider or nested region, field-wise differencing of such records, and an
//! index-stable slab with an intrusive free list.

mod bounds;
pub mod numeric_diff;
mod proxies;
mod proxy;
mod proxy_data;

pub use bounds::{Aabb, Vector3Bits, MAX_FINITE_BITS, NEG_MAX_FINITE_BITS};
pub use proxy_data::{lemma_move_semantics, unboxed, ColliderHandle, SAPProxyData, SAPRegion};
pub use proxy::{
    apply_spec, diff_spec, lemma_constructor_variants, lemma_diff_identity,
    lemma_diff_round_trip, BroadPhaseProxyIndex, SAPProxy,
    SAPProxyDiff, NEXT_FREE_SENTINEL,
};
pub use proxies::{
    lemma_free_list_walk, lemma_insert_all_from_empty, lemma_insert_wf, lemma_remove_then_insert,
    lemma_remove_wf, SAPProxies, SAPProxiesModel,
};
