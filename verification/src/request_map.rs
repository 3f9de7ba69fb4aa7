//! Correlation of outstanding requests with their response slots.
//!
//! A [`RequestMap`] parks one sink per live request id. Ids are handed out in
//! increasing order, wrapping at `u16::MAX`, and an id that is still live is
//! skipped, so no two live requests ever share an id.

use std::collections::HashMap;
use vstd::prelude::*;
use vstd::std_specs::hash::*;

verus! {

broadcast use group_hash_axioms;

/// Number of distinct request ids.
pub const ID_SPACE: u32 = 0x1_0000;

/// The `offset`-th id tried when the search starts at `start`.
pub open spec fn candidate(start: u16, offset: int) -> u16 {
    ((start + offset) % (ID_SPACE as int)) as u16
}

/// The first id not in `live`, trying `candidate(start, offset)` for `offset`, `offset + 1`, ...
pub open spec fn first_free_from(live: Set<u16>, start: u16, offset: nat) -> Option<u16>
    decreases ID_SPACE - offset,
{
    if offset >= ID_SPACE {
        None
    } else if !live.contains(candidate(start, offset as int)) {
        Some(candidate(start, offset as int))
    } else {
        first_free_from(live, start, offset + 1)
    }
}

/// The id the next insertion receives: the first one not live at or after `start`, wrapping around.
pub open spec fn first_free(live: Set<u16>, start: u16) -> Option<u16> {
    first_free_from(live, start, 0)
}

/// Every id is live.
pub open spec fn is_full(live: Set<u16>) -> bool {
    forall|id: u16| live.contains(id)
}

/// The id after `id`, wrapping to zero.
pub open spec fn successor(id: u16) -> u16 {
    if id == u16::MAX {
        0
    } else {
        (id + 1) as u16
    }
}

proof fn lemma_candidate_reaches(start: u16, id: u16)
    ensures
        0 <= (id - start) % (ID_SPACE as int) < ID_SPACE,
        candidate(start, (id - start) % (ID_SPACE as int)) == id,
{
    let offset = (id - start) % (ID_SPACE as int);
    if id >= start {
        assert(offset == id - start);
    } else {
        assert(offset == id - start + ID_SPACE);
    }
}

proof fn lemma_first_free_from(live: Set<u16>, start: u16, offset: nat)
    requires
        offset <= ID_SPACE,
    ensures
        match first_free_from(live, start, offset) {
            Some(id) => !live.contains(id),
            None => forall|j: int| offset <= j < ID_SPACE ==> live.contains(#[trigger] candidate(start, j)),
        },
    decreases ID_SPACE - offset,
{
    if offset < ID_SPACE && live.contains(candidate(start, offset as int)) {
        lemma_first_free_from(live, start, offset + 1);
    }
}

/// The id chosen is never live, and none is chosen exactly when every id is live.
pub proof fn lemma_first_free(live: Set<u16>, start: u16)
    ensures
        first_free(live, start) matches Some(id) ==> !live.contains(id),
        first_free(live, start) is None <==> is_full(live),
{
    lemma_first_free_from(live, start, 0);
    match first_free(live, start) {
        Some(id) => {},
        None => {
            assert forall|id: u16| live.contains(id) by {
                lemma_candidate_reaches(start, id);
            }
        },
    }
}

/// One operation on a table, for reasoning about runs of operations.
pub enum MapOp {
    /// Park a sink under a fresh id.
    Insert,
    /// Detach the sink under this id.
    Remove(u16),
}

/// What id selection depends on: the live ids and the cursor.
pub ghost struct IdState {
    pub live: Set<u16>,
    pub cursor: u16,
}

/// The id that `op` hands out in `state`, if it hands out one.
pub open spec fn assigned(state: IdState, op: MapOp) -> Option<u16> {
    match op {
        MapOp::Insert => first_free(state.live, state.cursor),
        MapOp::Remove(_) => None,
    }
}

/// The live ids and cursor after `op`.
pub open spec fn apply(state: IdState, op: MapOp) -> IdState {
    match op {
        MapOp::Insert => match first_free(state.live, state.cursor) {
            Some(id) => IdState { live: state.live.insert(id), cursor: successor(id) },
            None => state,
        },
        MapOp::Remove(id) => IdState { live: state.live.remove(id), cursor: state.cursor },
    }
}

/// The live ids and cursor after running `ops`, in order, on a new table.
pub open spec fn state_after(ops: Seq<MapOp>) -> IdState
    decreases ops.len(),
{
    if ops.len() == 0 {
        IdState { live: Set::empty(), cursor: 0 }
    } else {
        apply(state_after(ops.drop_last()), ops.last())
    }
}

/// The id handed out by operation `k` of the run `ops`.
pub open spec fn assigned_at(ops: Seq<MapOp>, k: int) -> Option<u16> {
    assigned(state_after(ops.take(k)), ops[k])
}

proof fn lemma_stays_live(ops: Seq<MapOp>, i: int, j: int, id: u16)
    requires
        0 <= i < j <= ops.len(),
        assigned_at(ops, i) == Some(id),
        forall|r: int| i < r < j ==> ops[r] != MapOp::Remove(id),
    ensures
        state_after(ops.take(j)).live.contains(id),
    decreases j - i,
{
    let prefix = ops.take(j);
    assert(prefix.drop_last() =~= ops.take(j - 1));
    assert(prefix.last() == ops[j - 1]);
    if j > i + 1 {
        lemma_stays_live(ops, i, j - 1, id);
    }
}

/// No id is handed out twice while it is live: in any run of insertions and
/// removals on a new table, two insertions that received the same id have a
/// removal of that id between them.
pub proof fn lemma_no_duplicate_ids(ops: Seq<MapOp>, i: int, j: int)
    requires
        0 <= i < j < ops.len(),
        assigned_at(ops, i) is Some,
        assigned_at(ops, i) == assigned_at(ops, j),
    ensures
        exists|r: int| i < r < j && ops[r] == MapOp::Remove(assigned_at(ops, i)->Some_0),
{
    let id = assigned_at(ops, i)->Some_0;
    if forall|r: int| i < r < j ==> ops[r] != MapOp::Remove(id) {
        lemma_stays_live(ops, i, j, id);
        lemma_first_free(state_after(ops.take(j)).live, state_after(ops.take(j)).cursor);
        assert(false);
    }
}

/// The table of parked response sinks, keyed by request id.
pub struct RequestMap<S> {
    slots: HashMap<u16, S>,
    next: u16,
}

impl<S> View for RequestMap<S> {
    type V = Map<u16, S>;

    /// The sink parked under each live id.
    closed spec fn view(&self) -> Map<u16, S> {
        self.slots@
    }
}

impl<S> RequestMap<S> {
    /// Where the search for the next id starts.
    pub closed spec fn cursor(&self) -> u16 {
        self.next
    }

    /// The part of the table that id selection depends on.
    pub open spec fn ids(&self) -> IdState {
        IdState { live: self@.dom(), cursor: self.cursor() }
    }

    /// A table with no live request.
    pub fn new() -> (map: Self)
        ensures
            map@ == Map::<u16, S>::empty(),
            map.cursor() == 0,
            map.ids() == state_after(Seq::empty()),
    {
        RequestMap { slots: HashMap::new(), next: 0 }
    }

    /// Number of live requests.
    pub fn len(&self) -> (n: usize)
        ensures
            n == self@.len(),
            self@.dom().finite(),
    {
        self.slots.len()
    }

    /// Whether a sink is parked under `id`.
    pub fn contains(&self, id: u16) -> (live: bool)
        ensures
            live == self@.contains_key(id),
    {
        self.slots.contains_key(&id)
    }

    /// Parks `sink` under an id that is not live and returns that id.
    ///
    /// The id is the first free one at or after the cursor, and the cursor
    /// moves just past it. When all 65536 ids are live the table is left as it
    /// was and the sink is handed back.
    pub fn insert(&mut self, sink: S) -> (r: Result<u16, S>)
        ensures
            r.ok() == assigned(old(self).ids(), MapOp::Insert),
            final(self).ids() == apply(old(self).ids(), MapOp::Insert),
            match r {
                Ok(id) => {
                    &&& first_free(old(self)@.dom(), old(self).cursor()) == Some(id)
                    &&& !old(self)@.contains_key(id)
                    &&& final(self)@ == old(self)@.insert(id, sink)
                    &&& final(self).cursor() == successor(id)
                },
                Err(returned) => {
                    &&& returned == sink
                    &&& is_full(old(self)@.dom())
                    &&& final(self)@ == old(self)@
                    &&& final(self).cursor() == old(self).cursor()
                },
            },
    {
        let ghost live = self@.dom();
        let start = self.next;
        let mut offset: u32 = 0;
        let mut id = start;
        while offset < ID_SPACE
            invariant
                offset <= ID_SPACE,
                *self == *old(self),
                live == self@.dom(),
                start == self.next,
                offset < ID_SPACE ==> id == candidate(start, offset as int),
                first_free_from(live, start, offset as nat) == first_free(live, start),
            decreases ID_SPACE - offset,
        {
            if !self.slots.contains_key(&id) {
                self.slots.insert(id, sink);
                self.next = if id == u16::MAX {
                    0
                } else {
                    id + 1
                };
                return Ok(id);
            }
            id = if id == u16::MAX {
                0
            } else {
                id + 1
            };
            offset += 1;
        }
        proof {
            lemma_first_free(live, start);
        }
        Err(sink)
    }

    /// Detaches and returns the sink parked under `id`, if there is one.
    pub fn remove(&mut self, id: u16) -> (sink: Option<S>)
        ensures
            sink == if old(self)@.contains_key(id) {
                Some(old(self)@[id])
            } else {
                None
            },
            final(self)@ == old(self)@.remove(id),
            final(self).cursor() == old(self).cursor(),
            final(self).ids() == apply(old(self).ids(), MapOp::Remove(id)),
    {
        self.slots.remove(&id)
    }

    /// Drops every parked sink, so that each waiter sees its request abandoned.
    pub fn clear(&mut self)
        ensures
            final(self)@ == Map::<u16, S>::empty(),
            final(self).cursor() == old(self).cursor(),
    {
        self.slots.clear();
    }
}

} // verus!
