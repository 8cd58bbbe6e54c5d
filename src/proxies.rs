use vstd::prelude::*;

use crate::proxy::{BroadPhaseProxyIndex, SAPProxy, NEXT_FREE_SENTINEL};

verus! {

/// The mathematical state of a proxy store: its slots, the head of its free list,
/// and the vacant slots in the order in which the free list links them.
pub struct SAPProxiesModel {
    pub elements: Seq<SAPProxy>,
    pub first_free: u32,
    pub vacant: Seq<u32>,
}

impl SAPProxiesModel {
    /// The empty store.
    pub open spec fn empty() -> SAPProxiesModel {
        SAPProxiesModel { elements: Seq::empty(), first_free: NEXT_FREE_SENTINEL, vacant: Seq::empty() }
    }

    /// The `k`-th entry of the free list, or the sentinel past its end.
    pub open spec fn free_at(self, k: int) -> u32 {
        if 0 <= k < self.vacant.len() {
            self.vacant[k]
        } else {
            NEXT_FREE_SENTINEL
        }
    }

    /// Whether slot `i` is on the free list.
    pub open spec fn is_vacant(self, i: u32) -> bool {
        self.vacant.contains(i)
    }

    /// The free list is a chain without repeats through slots of the store: it
    /// starts at `first_free`, each vacant slot links to the next, and the last
    /// links to the sentinel. Every index of the store is below the sentinel.
    pub open spec fn wf(self) -> bool {
        &&& self.elements.len() <= NEXT_FREE_SENTINEL
        &&& self.vacant.no_duplicates()
        &&& forall|k: int| 0 <= k < self.vacant.len() ==> #[trigger] self.vacant[k] < self.elements.len()
        &&& self.first_free == self.free_at(0)
        &&& forall|k: int|
            0 <= k < self.vacant.len() ==> (#[trigger] self.elements[self.vacant[k] as int]).next_free
                == self.free_at(k + 1)
    }

    /// Whether one more proxy can be inserted: a slot is vacant, or the store can
    /// grow without handing out the sentinel as an index.
    pub open spec fn can_insert(self) -> bool {
        self.vacant.len() > 0 || self.elements.len() < NEXT_FREE_SENTINEL
    }

    /// The slots met by following `next_free` links from `from`, at most `n` of
    /// them, stopping at the first link that leaves the store.
    pub open spec fn walk(self, from: u32, n: nat) -> Seq<u32>
        decreases n,
    {
        if n == 0 || from >= self.elements.len() {
            Seq::empty()
        } else {
            seq![from] + self.walk(self.elements[from as int].next_free, (n - 1) as nat)
        }
    }

    /// The store after inserting `p`, and the index that `p` got: the head of the
    /// free list, whose stored link becomes the new head, or else a new last slot.
    pub open spec fn insert(self, p: SAPProxy) -> (SAPProxiesModel, u32) {
        if self.vacant.len() > 0 {
            let i = self.vacant[0];
            (
                SAPProxiesModel {
                    elements: self.elements.update(i as int, p),
                    first_free: self.elements[i as int].next_free,
                    vacant: self.vacant.drop_first(),
                },
                i,
            )
        } else {
            (
                SAPProxiesModel {
                    elements: self.elements.push(p),
                    first_free: self.first_free,
                    vacant: self.vacant,
                },
                self.elements.len() as u32,
            )
        }
    }

    /// The store after slot `i` is threaded onto the head of the free list.
    pub open spec fn remove(self, i: u32) -> SAPProxiesModel {
        SAPProxiesModel {
            elements: self.elements.update(
                i as int,
                SAPProxy { next_free: self.first_free, ..self.elements[i as int] },
            ),
            first_free: i,
            vacant: seq![i] + self.vacant,
        }
    }

    /// The store after inserting each of `ps` in turn, and the indices they got.
    pub open spec fn insert_all(self, ps: Seq<SAPProxy>) -> (SAPProxiesModel, Seq<u32>)
        decreases ps.len(),
    {
        if ps.len() == 0 {
            (self, Seq::empty())
        } else {
            let (m, ids) = self.insert_all(ps.drop_last());
            let (m2, i) = m.insert(ps.last());
            (m2, ids.push(i))
        }
    }
}

/// Inserting into a well-formed store that has room keeps it well formed.
pub proof fn lemma_insert_wf(m: SAPProxiesModel, p: SAPProxy)
    requires
        m.wf(),
        m.can_insert(),
    ensures
        m.insert(p).0.wf(),
{
    let (n, i) = m.insert(p);
    if m.vacant.len() > 0 {
        assert(m.elements[m.vacant[0] as int].next_free == m.free_at(1));
        assert forall|k: int| 0 <= k < n.vacant.len() implies n.vacant[k] != i
            && #[trigger] n.vacant[k] < n.elements.len() by {
            assert(m.vacant[k + 1] != m.vacant[0]);
        }
        assert forall|k: int| 0 <= k < n.vacant.len() implies (#[trigger] n.elements[n.vacant[k] as int]).next_free
            == n.free_at(k + 1) by {
            assert(m.vacant[k + 1] != m.vacant[0]);
            assert(m.elements[m.vacant[k + 1] as int].next_free == m.free_at(k + 2));
        }
    }
}

/// Removing a live slot of a well-formed store keeps it well formed.
pub proof fn lemma_remove_wf(m: SAPProxiesModel, i: u32)
    requires
        m.wf(),
        i < m.elements.len(),
        !m.is_vacant(i),
    ensures
        m.remove(i).wf(),
{
    let n = m.remove(i);
    assert forall|k: int| 0 <= k < n.vacant.len() implies (#[trigger] n.elements[n.vacant[k] as int]).next_free
        == n.free_at(k + 1) && n.vacant[k] < n.elements.len() by {
        if k > 0 {
            assert(n.vacant[k] == m.vacant[k - 1]);
            assert(m.vacant.contains(m.vacant[k - 1]));
        }
    }
    assert forall|a: int, b: int| 0 <= a < b < n.vacant.len() implies n.vacant[a] != n.vacant[b] by {
        if a == 0 {
            assert(m.vacant.contains(n.vacant[b]));
        }
    }
}

proof fn lemma_walk_suffix(m: SAPProxiesModel, k: int, n: nat)
    requires
        m.wf(),
        0 <= k <= m.vacant.len(),
        n >= m.vacant.len() - k,
    ensures
        m.walk(m.free_at(k), n) == m.vacant.subrange(k, m.vacant.len() as int),
    decreases m.vacant.len() - k,
{
    if k < m.vacant.len() {
        assert(m.elements[m.vacant[k] as int].next_free == m.free_at(k + 1));
        lemma_walk_suffix(m, k + 1, (n - 1) as nat);
        assert(m.vacant.subrange(k, m.vacant.len() as int) =~= seq![m.vacant[k]]
            + m.vacant.subrange(k + 1, m.vacant.len() as int));
    } else {
        assert(m.vacant.subrange(k, m.vacant.len() as int) =~= Seq::<u32>::empty());
    }
}

/// In a well-formed store, following the links from `first_free` visits each
/// vacant slot exactly once, in free-list order, and then leaves the store at the
/// sentinel: no number of further steps finds another slot.
pub proof fn lemma_free_list_walk(m: SAPProxiesModel, n: nat)
    requires
        m.wf(),
        n >= m.vacant.len(),
    ensures
        m.walk(m.first_free, n) == m.vacant,
        m.vacant.no_duplicates(),
        forall|i: u32| #[trigger] m.walk(m.first_free, n).contains(i) <==> m.is_vacant(i),
{
    lemma_walk_suffix(m, 0, n);
    assert(m.vacant.subrange(0, m.vacant.len() as int) =~= m.vacant);
}

/// Removing a live slot and then inserting hands the same slot back: the new proxy
/// takes its place, the free list is as before, and every other slot is untouched.
pub proof fn lemma_remove_then_insert(m: SAPProxiesModel, i: u32, p: SAPProxy)
    requires
        m.wf(),
        i < m.elements.len(),
        !m.is_vacant(i),
    ensures
        m.remove(i).insert(p).1 == i,
        m.remove(i).insert(p).0 == (SAPProxiesModel {
            elements: m.elements.update(i as int, p),
            ..m
        }),
{
    let r = m.remove(i);
    assert(r.vacant.drop_first() =~= m.vacant);
    assert(r.elements.update(i as int, p) =~= m.elements.update(i as int, p));
}

/// Inserting `ps` into an empty store places them in order at indices 0, 1, ...,
/// with the free list staying empty.
pub proof fn lemma_insert_all_from_empty(ps: Seq<SAPProxy>)
    requires
        ps.len() <= NEXT_FREE_SENTINEL,
    ensures
        SAPProxiesModel::empty().insert_all(ps).0 == (SAPProxiesModel {
            elements: ps,
            ..SAPProxiesModel::empty()
        }),
        SAPProxiesModel::empty().insert_all(ps).1 == Seq::new(ps.len(), |k: int| k as u32),
    decreases ps.len(),
{
    if ps.len() > 0 {
        lemma_insert_all_from_empty(ps.drop_last());
        assert(ps.drop_last().push(ps.last()) =~= ps);
        assert(Seq::new((ps.len() - 1) as nat, |k: int| k as u32).push((ps.len() - 1) as u32)
            =~= Seq::new(ps.len(), |k: int| k as u32));
    } else {
        assert(ps =~= Seq::<SAPProxy>::empty());
        assert(Seq::new(0, |k: int| k as u32) =~= Seq::<u32>::empty());
    }
}

/// An index-stable slab of proxies. Removing a proxy threads its slot onto a free
/// list through the slot's `next_free` field; the next insertion reuses the slot
/// at the head of that list, and only appends when the list is empty. A removed
/// slot keeps its stale record until it is reused.
pub struct SAPProxies {
    pub elements: Vec<SAPProxy>,
    pub first_free: BroadPhaseProxyIndex,
    /// The vacant slots, in the order in which the free list links them.
    pub vacant: Ghost<Seq<u32>>,
}

impl View for SAPProxies {
    type V = SAPProxiesModel;

    open spec fn view(&self) -> SAPProxiesModel {
        SAPProxiesModel { elements: self.elements@, first_free: self.first_free, vacant: self.vacant@ }
    }
}

impl SAPProxies {
    /// An empty store with an empty free list.
    pub fn new() -> (r: SAPProxies)
        ensures
            r@ == SAPProxiesModel::empty(),
            r@.wf(),
    {
        SAPProxies { elements: Vec::new(), first_free: NEXT_FREE_SENTINEL, vacant: Ghost(Seq::empty()) }
    }

    /// Stores `proxy` in the slot at the head of the free list, or at the end when
    /// the list is empty, and returns the slot's index.
    pub fn insert(&mut self, proxy: SAPProxy) -> (r: BroadPhaseProxyIndex)
        requires
            old(self)@.wf(),
            old(self)@.can_insert(),
        ensures
            (final(self)@, r) == old(self)@.insert(proxy),
            final(self)@.wf(),
    {
        proof {
            lemma_insert_wf(self@, proxy);
        }
        if self.first_free != NEXT_FREE_SENTINEL {
            let proxy_id = self.first_free;
            let next = self.elements[proxy_id as usize].next_free;
            self.first_free = next;
            self.elements.set(proxy_id as usize, proxy);
            self.vacant = Ghost(self.vacant@.drop_first());
            proxy_id
        } else {
            self.elements.push(proxy);
            (self.elements.len() - 1) as u32
        }
    }

    /// Threads the live slot `proxy_id` onto the head of the free list. Its record
    /// stays in place, with `next_free` set to the former head.
    pub fn remove(&mut self, proxy_id: BroadPhaseProxyIndex)
        requires
            old(self)@.wf(),
            proxy_id < old(self)@.elements.len(),
            !old(self)@.is_vacant(proxy_id),
        ensures
            final(self)@ == old(self)@.remove(proxy_id),
            final(self)@.wf(),
    {
        proof {
            lemma_remove_wf(self@, proxy_id);
        }
        let head = self.first_free;
        self.elements[proxy_id as usize].next_free = head;
        self.first_free = proxy_id;
        self.vacant = Ghost(seq![proxy_id] + self.vacant@);
    }

    /// The record in slot `i`, whether live or vacant (a vacant slot yields its
    /// stale record); nothing when `i` is past the end.
    pub fn get(&self, i: BroadPhaseProxyIndex) -> (r: Option<&SAPProxy>)
        ensures
            r is Some <==> i < self@.elements.len(),
            r matches Some(p) ==> *p == self@.elements[i as int],
    {
        if (i as usize) < self.elements.len() {
            Some(&self.elements[i as usize])
        } else {
            None
        }
    }

    /// Mutable access to the record in slot `i`, whether live or vacant; nothing
    /// when `i` is past the end. What is written through the result lands in that
    /// slot; the free list is kept as long as a vacant slot's link is kept.
    pub fn get_mut(&mut self, i: BroadPhaseProxyIndex) -> (r: Option<&mut SAPProxy>)
        ensures
            r is Some <==> i < old(self)@.elements.len(),
            r matches Some(p) ==> {
                &&& *p == old(self)@.elements[i as int]
                &&& final(self)@ == (SAPProxiesModel {
                    elements: old(self)@.elements.update(i as int, *final(p)),
                    ..old(self)@
                })
            },
            r is None ==> final(self)@ == old(self)@,
    {
        if (i as usize) < self.elements.len() {
            Some(&mut self.elements[i as usize])
        } else {
            None
        }
    }

    /// The record in slot `i`, whether live or vacant.
    pub fn index(&self, i: BroadPhaseProxyIndex) -> (r: &SAPProxy)
        requires
            i < self@.elements.len(),
        ensures
            *r == self@.elements[i as int],
    {
        &self.elements[i as usize]
    }

    /// Mutable access to the record in slot `i`, whether live or vacant.
    pub fn index_mut(&mut self, i: BroadPhaseProxyIndex) -> (r: &mut SAPProxy)
        requires
            i < old(self)@.elements.len(),
        ensures
            *r == old(self)@.elements[i as int],
            final(self)@ == (SAPProxiesModel {
                elements: old(self)@.elements.update(i as int, *final(r)),
                ..old(self)@
            }),
    {
        &mut self.elements[i as usize]
    }
}

impl Default for SAPProxies {
    fn default() -> (r: SAPProxies)
        ensures
            r@ == SAPProxiesModel::empty(),
    {
        SAPProxies::new()
    }
}

} // verus!
