use vstd::prelude::*;

use crate::bounds::Aabb;
use crate::numeric_diff::{
    apply_i8, apply_u32, apply_u8, diff_i8, diff_u32, diff_u8, lemma_i8_round_trip,
    lemma_u32_round_trip, lemma_u8_round_trip, wrap_i8, wrap_u32, wrap_u8,
};
use crate::proxy_data::{ColliderHandle, SAPProxyData, SAPRegion};

verus! {

/// Index of a proxy in its store.
pub type BroadPhaseProxyIndex = u32;

/// The index that links to nothing: the `next_free` of a live proxy, and the head
/// of an empty free list.
pub const NEXT_FREE_SENTINEL: u32 = 0xffff_ffff;

/// One slot of a proxy store.
#[derive(Debug)]
pub struct SAPProxy {
    pub data: SAPProxyData,
    pub aabb: Aabb,
    /// `NEXT_FREE_SENTINEL` while the slot is live; once it is vacant, the next
    /// vacant slot of the free list.
    pub next_free: BroadPhaseProxyIndex,
    pub layer_id: u8,
    pub layer_depth: i8,
}

/// The change from one proxy to another: `data` and `aabb` are present only where
/// they changed, and the integer fields hold wrapping differences (0 where equal).
#[derive(Debug)]
pub struct SAPProxyDiff {
    pub data: Option<SAPProxyData>,
    pub aabb: Option<Aabb>,
    pub next_free: BroadPhaseProxyIndex,
    pub layer_id: u8,
    pub layer_depth: i8,
}

impl PartialEq for SAPProxy {
    fn eq(&self, other: &SAPProxy) -> (r: bool)
        ensures
            r == (*self == *other),
    {
        self.data.eq(&other.data) && self.aabb == other.aabb && self.next_free == other.next_free
            && self.layer_id == other.layer_id && self.layer_depth == other.layer_depth
    }
}

impl vstd::std_specs::cmp::PartialEqSpecImpl for SAPProxy {
    open spec fn obeys_eq_spec() -> bool {
        true
    }

    open spec fn eq_spec(&self, other: &SAPProxy) -> bool {
        *self == *other
    }
}

impl Clone for SAPProxy {
    fn clone(&self) -> (r: SAPProxy)
        ensures
            r == *self,
    {
        SAPProxy {
            data: self.data.clone(),
            aabb: self.aabb,
            next_free: self.next_free,
            layer_id: self.layer_id,
            layer_depth: self.layer_depth,
        }
    }
}

impl Clone for SAPProxyDiff {
    fn clone(&self) -> (r: SAPProxyDiff)
        ensures
            r == *self,
    {
        SAPProxyDiff {
            data: match &self.data {
                Some(d) => Some(d.clone()),
                None => None,
            },
            aabb: self.aabb,
            next_free: self.next_free,
            layer_id: self.layer_id,
            layer_depth: self.layer_depth,
        }
    }
}

impl SAPProxyDiff {
    /// No field changes.
    pub open spec fn is_empty(self) -> bool {
        &&& self.data is None
        &&& self.aabb is None
        &&& self.next_free == 0
        &&& self.layer_id == 0
        &&& self.layer_depth == 0
    }
}

/// The change that takes `a` to `b`.
pub open spec fn diff_spec(a: SAPProxy, b: SAPProxy) -> SAPProxyDiff {
    SAPProxyDiff {
        data: if b.data == a.data { None } else { Some(b.data) },
        aabb: if b.aabb == a.aabb { None } else { Some(b.aabb) },
        next_free: wrap_u32(b.next_free - a.next_free),
        layer_id: wrap_u8(b.layer_id - a.layer_id),
        layer_depth: wrap_i8(b.layer_depth - a.layer_depth),
    }
}

/// `p` with the change `d` made to it.
pub open spec fn apply_spec(p: SAPProxy, d: SAPProxyDiff) -> SAPProxy {
    SAPProxy {
        data: match d.data {
            Some(v) => v,
            None => p.data,
        },
        aabb: match d.aabb {
            Some(v) => v,
            None => p.aabb,
        },
        next_free: wrap_u32(p.next_free + d.next_free),
        layer_id: wrap_u8(p.layer_id + d.layer_id),
        layer_depth: wrap_i8(p.layer_depth + d.layer_depth),
    }
}

impl SAPProxy {
    /// The base state from which a proxy is rebuilt out of changes alone.
    pub open spec fn identity_spec() -> SAPProxy {
        SAPProxy {
            data: SAPProxyData::Collider(ColliderHandle(0)),
            aabb: Aabb::invalid_spec(),
            next_free: 0,
            layer_id: 0,
            layer_depth: 0,
        }
    }

    pub open spec fn collider_spec(handle: ColliderHandle, aabb: Aabb, layer_id: u8, layer_depth: i8) -> SAPProxy {
        SAPProxy {
            data: SAPProxyData::Collider(handle),
            aabb,
            next_free: NEXT_FREE_SENTINEL,
            layer_id,
            layer_depth,
        }
    }

    pub open spec fn subregion_spec(
        subregion: Box<SAPRegion>,
        aabb: Aabb,
        layer_id: u8,
        layer_depth: i8,
    ) -> SAPProxy {
        SAPProxy {
            data: SAPProxyData::Region(Some(subregion)),
            aabb,
            next_free: NEXT_FREE_SENTINEL,
            layer_id,
            layer_depth,
        }
    }

    /// A live proxy for a leaf collider.
    pub fn collider(handle: ColliderHandle, aabb: Aabb, layer_id: u8, layer_depth: i8) -> (r:
        SAPProxy)
        ensures
            r == Self::collider_spec(handle, aabb, layer_id, layer_depth),
    {
        SAPProxy {
            data: SAPProxyData::Collider(handle),
            aabb,
            next_free: NEXT_FREE_SENTINEL,
            layer_id,
            layer_depth,
        }
    }

    /// A live proxy that owns the nested region `subregion`.
    pub fn subregion(subregion: Box<SAPRegion>, aabb: Aabb, layer_id: u8, layer_depth: i8) -> (r:
        SAPProxy)
        ensures
            r == Self::subregion_spec(subregion, aabb, layer_id, layer_depth),
    {
        SAPProxy {
            data: SAPProxyData::Region(Some(subregion)),
            aabb,
            next_free: NEXT_FREE_SENTINEL,
            layer_id,
            layer_depth,
        }
    }

    /// The change that takes `self` to `other`.
    pub fn diff(&self, other: &SAPProxy) -> (r: SAPProxyDiff)
        ensures
            r == diff_spec(*self, *other),
    {
        let mut d = SAPProxyDiff {
            data: None,
            aabb: None,
            next_free: 0,
            layer_id: 0,
            layer_depth: 0,
        };
        if !other.data.eq(&self.data) {
            d.data = Some(other.data.clone());
        }
        if other.aabb != self.aabb {
            d.aabb = Some(other.aabb);
        }
        if other.next_free != self.next_free {
            d.next_free = diff_u32(self.next_free, other.next_free);
        }
        if other.layer_id != self.layer_id {
            d.layer_id = diff_u8(self.layer_id, other.layer_id);
        }
        if other.layer_depth != self.layer_depth {
            d.layer_depth = diff_i8(self.layer_depth, other.layer_depth);
        }
        d
    }

    /// Makes the change `d`: present fields are overwritten, the integer fields
    /// take their differences.
    pub fn apply(&mut self, d: &SAPProxyDiff)
        ensures
            *final(self) == apply_spec(*old(self), *d),
    {
        if let Some(data) = &d.data {
            self.data = data.clone();
        }
        if let Some(aabb) = d.aabb {
            self.aabb = aabb;
        }
        apply_u32(&mut self.next_free, d.next_free);
        apply_u8(&mut self.layer_id, d.layer_id);
        apply_i8(&mut self.layer_depth, d.layer_depth);
    }

    /// The base state: a null collider with the empty box and all integers 0.
    pub fn identity() -> (r: SAPProxy)
        ensures
            r == Self::identity_spec(),
    {
        SAPProxy {
            data: SAPProxyData::Collider(ColliderHandle::default()),
            aabb: Aabb::new_invalid(),
            next_free: 0,
            layer_id: 0,
            layer_depth: 0,
        }
    }
}

/// Applying the change from `a` to `b` to a copy of `a` gives `b`.
pub proof fn lemma_diff_round_trip(a: SAPProxy, b: SAPProxy)
    ensures
        apply_spec(a, diff_spec(a, b)) == b,
{
    lemma_u32_round_trip(a.next_free, b.next_free);
    lemma_u8_round_trip(a.layer_id, b.layer_id);
    lemma_i8_round_trip(a.layer_depth, b.layer_depth);
}

/// The change from a proxy to itself is empty, and applying it changes nothing.
pub proof fn lemma_diff_identity(x: SAPProxy)
    ensures
        diff_spec(x, x).is_empty(),
        apply_spec(x, diff_spec(x, x)) == x,
{
    lemma_u32_round_trip(x.next_free, x.next_free);
    lemma_u8_round_trip(x.layer_id, x.layer_id);
    lemma_i8_round_trip(x.layer_depth, x.layer_depth);
}

/// A proxy built for a leaf collider is not a region and holds no region, so
/// `as_region` may not be called on its data; one built for a region is a region
/// and holds exactly that region.
pub proof fn lemma_constructor_variants(
    handle: ColliderHandle,
    region: Box<SAPRegion>,
    aabb: Aabb,
    layer_id: u8,
    layer_depth: i8,
)
    ensures
        !(SAPProxy::collider_spec(handle, aabb, layer_id, layer_depth).data is Region),
        SAPProxy::collider_spec(handle, aabb, layer_id, layer_depth).data.region_spec() is None,
        SAPProxy::subregion_spec(region, aabb, layer_id, layer_depth).data is Region,
        SAPProxy::subregion_spec(region, aabb, layer_id, layer_depth).data.region_spec() == Some(
            *region,
        ),
{
}

} // verus!
