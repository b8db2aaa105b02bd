use vstd::prelude::*;
use crate::protocol::{IdView, RequestId};

verus! {

/// Bookkeeping for a request that has been received and not yet answered.
pub struct PendingRequest {
    pub id: RequestId,
    pub method: String,
    /// When the request arrived, in the caller's clock.
    pub started: u64,
}

/// What the registry records of a pending request.
pub struct PendingView {
    pub method: Seq<char>,
    pub started: u64,
}

impl PendingRequest {
    pub open spec fn entry(&self) -> PendingView {
        PendingView { method: self.method@, started: self.started }
    }
}

/// The requests that are outstanding, at most one per identifier.
pub struct Registry {
    entries: Vec<PendingRequest>,
    contents: Ghost<Map<IdView, PendingView>>,
}

impl View for Registry {
    type V = Map<IdView, PendingView>;

    closed spec fn view(&self) -> Map<IdView, PendingView> {
        self.contents@
    }
}

impl Registry {
    /// The entries have distinct identifiers, and the map of identifiers to
    /// entries is exactly what they hold.
    pub closed spec fn wf(&self) -> bool {
        &&& forall|i: int, j: int|
            0 <= i < j < self.entries@.len() ==> self.entries@[i].id@ != self.entries@[j].id@
        &&& forall|i: int|
            0 <= i < self.entries@.len() ==> #[trigger] self.contents@.contains_key(
                self.entries@[i].id@,
            ) && self.contents@[self.entries@[i].id@] == self.entries@[i].entry()
        &&& forall|k: IdView|
            #[trigger] self.contents@.contains_key(k) ==> exists|i: int|
                0 <= i < self.entries@.len() && self.entries@[i].id@ == k
    }

    /// An empty registry.
    pub fn new() -> (r: Registry)
        ensures
            r.wf(),
            r@ == Map::<IdView, PendingView>::empty(),
    {
        Registry { entries: Vec::new(), contents: Ghost(Map::empty()) }
    }

    fn position(&self, id: &RequestId) -> (r: Option<usize>)
        requires
            self.wf(),
        ensures
            match r {
                Some(i) => i < self.entries@.len() && self.entries@[i as int].id@ == id@,
                None => !self@.contains_key(id@),
            },
    {
        let mut i: usize = 0;
        while i < self.entries.len()
            invariant
                self.wf(),
                i <= self.entries@.len(),
                forall|j: int| 0 <= j < i ==> self.entries@[j].id@ != id@,
            decreases self.entries@.len() - i,
        {
            if self.entries[i].id.same_as(id) {
                return Some(i);
            }
            i = i + 1;
        }
        None
    }

    /// Whether a request with this identifier is outstanding.
    pub fn contains(&self, id: &RequestId) -> (r: bool)
        requires
            self.wf(),
        ensures
            r == self@.contains_key(id@),
    {
        match self.position(id) {
            Some(_) => true,
            None => false,
        }
    }

    /// Removes the entry of `id` and hands it back; does nothing where there
    /// is none.
    pub fn complete(&mut self, id: &RequestId) -> (r: Option<PendingRequest>)
        requires
            old(self).wf(),
        ensures
            final(self).wf(),
            final(self)@ == old(self)@.remove(id@),
            match r {
                Some(p) => old(self)@.contains_key(id@) && p.id@ == id@ && p.entry() == old(
                    self,
                )@[id@],
                None => !old(self)@.contains_key(id@),
            },
    {
        match self.position(id) {
            None => {
                assert(self@ =~= old(self)@.remove(id@));
                None
            },
            Some(i) => {
                let ghost before = self.entries@;
                let p = self.entries.remove(i);
                assert(p == before[i as int]);
                assert(old(self).contents@.contains_key(before[i as int].id@));
                self.contents = Ghost(self.contents@.remove(id@));
                assert forall|k: IdView| #[trigger] self.contents@.contains_key(k) implies exists|
                    j: int,
                |
                    0 <= j < self.entries@.len() && self.entries@[j].id@ == k by {
                    let j0 = choose|j: int| 0 <= j < before.len() && before[j].id@ == k;
                    if j0 < i {
                        assert(self.entries@[j0].id@ == k);
                    } else {
                        assert(j0 != i);
                        assert(self.entries@[j0 - 1].id@ == k);
                    }
                }
                assert forall|a: int| 0 <= a < self.entries@.len() implies #[trigger] self.contents@.contains_key(
                    self.entries@[a].id@,
                ) && self.contents@[self.entries@[a].id@] == self.entries@[a].entry() by {
                    if a < i {
                        assert(self.entries@[a] == before[a]);
                    } else {
                        assert(self.entries@[a] == before[a + 1]);
                    }
                }
                assert forall|a: int, b: int| 0 <= a < b < self.entries@.len() implies self.entries@[a].id@
                    != self.entries@[b].id@ by {
                    let a0 = if a < i { a } else { a + 1 };
                    let b0 = if b < i { b } else { b + 1 };
                    assert(self.entries@[a] == before[a0]);
                    assert(self.entries@[b] == before[b0]);
                }
                Some(p)
            },
        }
    }

    /// Records a request as outstanding; an earlier entry with the same
    /// identifier is replaced.
    pub fn register(&mut self, id: RequestId, method: String, started: u64)
        requires
            old(self).wf(),
        ensures
            final(self).wf(),
            final(self)@ == old(self)@.insert(id@, PendingView { method: method@, started }),
    {
        let _ = self.complete(&id);
        let ghost key = id@;
        let ghost mid = self.entries@;
        let ghost mid_map = self.contents@;
        let entry = PendingRequest { id, method, started };
        assert(entry.entry() == PendingView { method: method@, started });
        self.entries.push(entry);
        self.contents = Ghost(self.contents@.insert(key, PendingView { method: method@, started }));
        assert forall|k: IdView| #[trigger] self.contents@.contains_key(k) implies exists|
            j: int,
        |
            0 <= j < self.entries@.len() && self.entries@[j].id@ == k by {
            if k == key {
                assert(self.entries@[mid.len() as int].id@ == k);
            } else {
                let j0 = choose|j: int| 0 <= j < mid.len() && mid[j].id@ == k;
                assert(self.entries@[j0] == mid[j0]);
            }
        }
        assert forall|a: int| 0 <= a < self.entries@.len() implies #[trigger] self.contents@.contains_key(
            self.entries@[a].id@,
        ) && self.contents@[self.entries@[a].id@] == self.entries@[a].entry() by {
            if a < mid.len() {
                assert(self.entries@[a] == mid[a]);
                assert(mid_map.contains_key(mid[a].id@));
                assert(!mid_map.contains_key(key));
            }
        }
        assert forall|a: int, b: int| 0 <= a < b < self.entries@.len() implies self.entries@[a].id@
            != self.entries@[b].id@ by {
            assert(self.entries@[a] == mid[a]);
            assert(mid_map.contains_key(mid[a].id@));
            if b < mid.len() {
                assert(self.entries@[b] == mid[b]);
            }
        }
        assert(self@ =~= old(self)@.insert(key, PendingView { method: method@, started }));
    }
}

} // verus!
