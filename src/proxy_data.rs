use vstd::prelude::*;

verus! {

/// Handle of a collider owned elsewhere; the default handle is the null one.
#[derive(Clone, Copy, Debug, PartialEq, Eq, Structural)]
pub struct ColliderHandle(pub u32);

impl Default for ColliderHandle {
    fn default() -> (r: ColliderHandle)
        ensures
            r.0 == 0,
    {
        ColliderHandle(0)
    }
}

/// A nested sweep-and-prune region, owned by the proxy that stands for it. Only the
/// counters that this layer carries are held here; the sweep state lives elsewhere.
#[derive(Clone, Copy, Debug, PartialEq, Eq, Structural)]
pub struct SAPRegion {
    pub proxy_count: usize,
    pub subproper_proxy_count: usize,
    pub update_count: u8,
    pub needs_update_after_subregion_removal: bool,
}

/// What a proxy stands for: a leaf collider, or a nested region that it owns. The
/// region may be absent while it is moved out for restructuring.
#[derive(Debug)]
pub enum SAPProxyData {
    Collider(ColliderHandle),
    Region(Option<Box<SAPRegion>>),
}

impl PartialEq for SAPProxyData {
    fn eq(&self, other: &SAPProxyData) -> (r: bool)
        ensures
            r == (*self == *other),
    {
        match (self, other) {
            (SAPProxyData::Collider(a), SAPProxyData::Collider(b)) => *a == *b,
            (SAPProxyData::Region(None), SAPProxyData::Region(None)) => true,
            (SAPProxyData::Region(Some(a)), SAPProxyData::Region(Some(b))) => **a == **b,
            _ => false,
        }
    }
}

impl vstd::std_specs::cmp::PartialEqSpecImpl for SAPProxyData {
    open spec fn obeys_eq_spec() -> bool {
        true
    }

    open spec fn eq_spec(&self, other: &SAPProxyData) -> bool {
        *self == *other
    }
}

impl Clone for SAPProxyData {
    fn clone(&self) -> (r: SAPProxyData)
        ensures
            r == *self,
    {
        match self {
            SAPProxyData::Collider(h) => SAPProxyData::Collider(*h),
            SAPProxyData::Region(None) => SAPProxyData::Region(None),
            SAPProxyData::Region(Some(b)) => SAPProxyData::Region(Some(Box::new(**b))),
        }
    }
}

/// The region inside an optional box.
pub open spec fn unboxed(o: Option<Box<SAPRegion>>) -> Option<SAPRegion> {
    match o {
        Some(b) => Some(*b),
        None => None,
    }
}

impl SAPProxyData {
    /// A region that holds `region`.
    pub open spec fn holding(region: Box<SAPRegion>) -> SAPProxyData {
        SAPProxyData::Region(Some(region))
    }

    /// What is left once the region is moved out.
    pub open spec fn after_take(self) -> SAPProxyData {
        match self {
            SAPProxyData::Region(_) => SAPProxyData::Region(None),
            SAPProxyData::Collider(h) => SAPProxyData::Collider(h),
        }
    }

    /// The region held, if this is a region that currently holds one.
    pub open spec fn region_spec(self) -> Option<SAPRegion> {
        match self {
            SAPProxyData::Region(Some(b)) => Some(*b),
            _ => None,
        }
    }

    pub fn is_region(&self) -> (r: bool)
        ensures
            r == (*self is Region),
    {
        match self {
            SAPProxyData::Region(_) => true,
            SAPProxyData::Collider(_) => false,
        }
    }

    /// The owned region, or nothing for a collider or an emptied region.
    pub fn region(&self) -> (r: Option<&SAPRegion>)
        ensures
            r matches Some(g) ==> self.region_spec() == Some(*g),
            r is None ==> self.region_spec() is None,
    {
        match self {
            SAPProxyData::Region(Some(b)) => Some(&**b),
            _ => None,
        }
    }

    /// The owned region; the caller has checked that it is a region and present.
    pub fn as_region(&self) -> (r: &SAPRegion)
        requires
            self.region_spec() is Some,
        ensures
            Some(*r) == self.region_spec(),
    {
        match self {
            SAPProxyData::Region(Some(b)) => &**b,
            _ => vstd::pervasive::unreached(),
        }
    }

    /// Mutable access to the owned region; the caller has checked that it is a
    /// region and present. Whatever is written through the result stays in place.
    pub fn as_region_mut(&mut self) -> (r: &mut SAPRegion)
        requires
            old(self).region_spec() is Some,
        ensures
            Some(*r) == old(self).region_spec(),
            *final(self) is Region,
            final(self).region_spec() == Some(*final(r)),
    {
        match self {
            SAPProxyData::Region(Some(b)) => &mut **b,
            _ => vstd::pervasive::unreached(),
        }
    }

    /// Moves the owned region out, leaving an empty region behind; a collider, or a
    /// region already emptied, is left as it is and yields nothing.
    pub fn take_region(&mut self) -> (r: Option<Box<SAPRegion>>)
        ensures
            unboxed(r) == old(self).region_spec(),
            *final(self) == old(self).after_take(),
    {
        match self {
            SAPProxyData::Region(r) => r.take(),
            SAPProxyData::Collider(_) => None,
        }
    }

    /// Makes this a region that owns `region`, whatever it was before.
    pub fn set_region(&mut self, region: Box<SAPRegion>)
        ensures
            *final(self) == SAPProxyData::holding(region),
    {
        *self = SAPProxyData::Region(Some(region));
    }
}

/// Moving a region out yields what was held and leaves a region that holds
/// nothing, so that moving out again yields nothing; setting a region makes any
/// data a region that holds it.
pub proof fn lemma_move_semantics(d: SAPProxyData, region: Box<SAPRegion>)
    ensures
        SAPProxyData::holding(region) is Region,
        SAPProxyData::holding(region).region_spec() == Some(*region),
        d.region_spec() is Some ==> d.after_take() == SAPProxyData::Region(None),
        d.after_take().region_spec() is None,
        d.after_take().after_take() == d.after_take(),
        (d is Region) == (d.after_take() is Region),
{
}

} // verus!
