//! The router's directory: which connections are live, and what each one is
//! reached through.
//!
//! The directory maps a connection id to the record of that connection. The
//! record is whatever the caller reaches the connection through; nothing here
//! looks inside it.

use crate::chance::random_u64;
use crate::connection::{ClientQuestion, ConID};
use std::collections::HashMap;
use vstd::prelude::*;

verus! {

broadcast use vstd::std_specs::hash::group_hash_axioms;

/// How often an id is drawn before the least free id is taken instead.
pub const DRAWS: u32 = 64;

/// The records of the live connections, by connection id.
pub struct Router<H> {
    records: HashMap<ConID, H>,
}

impl<H> View for Router<H> {
    type V = Map<ConID, H>;

    closed spec fn view(&self) -> Map<ConID, H> {
        self.records@
    }
}

/// The ids that are live once `ids` have been handed out, one after the
/// other, to connections that joined those of `start`.
pub open spec fn live_after(start: Set<ConID>, ids: Seq<ConID>) -> Set<ConID>
    decreases ids.len(),
{
    if ids.len() == 0 {
        start
    } else {
        live_after(start, ids.drop_last()).insert(ids.last())
    }
}

/// Whether each of `ids` was free when it was handed out: not live at the
/// start, and not handed out before.
pub open spec fn each_was_free(start: Set<ConID>, ids: Seq<ConID>) -> bool
    decreases ids.len(),
{
    ids.len() == 0 || (each_was_free(start, ids.drop_last()) && !live_after(
        start,
        ids.drop_last(),
    ).contains(ids.last()))
}

/// A finite set that holds every id below `n` has at least `n` members.
proof fn lemma_prefix_fits(s: Set<ConID>, n: nat)
    requires
        s.finite(),
        n <= u64::MAX + 1,
        forall|k: ConID| (k as nat) < n ==> s.contains(k),
    ensures
        s.len() >= n,
    decreases n,
{
    if n > 0 {
        let last = (n - 1) as ConID;
        assert(s.contains(last));
        lemma_prefix_fits(s.remove(last), (n - 1) as nat);
    }
}

impl<H> Router<H> {
    /// A router without connections.
    pub fn new() -> (router: Router<H>)
        ensures
            router@ == Map::<ConID, H>::empty(),
    {
        Router { records: HashMap::new() }
    }

    /// How many connections are live.
    pub fn len(&self) -> (n: usize)
        ensures
            n == self@.len(),
            self@.dom().finite(),
    {
        self.records.len()
    }

    /// Whether no live connection has this id.
    pub fn is_free(&self, id: ConID) -> (b: bool)
        ensures
            b == !self@.contains_key(id),
    {
        !self.records.contains_key(&id)
    }

    /// The least id that no live connection has.
    fn least_free_id(&self) -> (id: ConID)
        ensures
            !self@.contains_key(id),
            forall|k: ConID| k < id ==> self@.contains_key(k),
    {
        let live = self.records.len();
        let mut id: ConID = 0;
        while self.records.contains_key(&id)
            invariant
                live == self@.len(),
                self@.dom().finite(),
                forall|k: ConID| k < id ==> self@.contains_key(k),
            decreases self@.len() - id,
        {
            proof {
                lemma_prefix_fits(self@.dom(), (id + 1) as nat);
            }
            id += 1;
        }
        id
    }

    /// An id that no live connection has: a random one, or after `DRAWS`
    /// draws that were all taken, the least free one.
    fn fresh_id(&self) -> (id: ConID)
        ensures
            !self@.contains_key(id),
    {
        let mut tries: u32 = 0;
        while tries < DRAWS
            invariant
                tries <= DRAWS,
            decreases DRAWS - tries,
        {
            let candidate = random_u64();
            if self.is_free(candidate) {
                return candidate;
            }
            tries += 1;
        }
        self.least_free_id()
    }

    /// Files a record under an id that the caller has picked. Where a live
    /// connection has the id, nothing changes and the record comes back.
    pub fn file(&mut self, id: ConID, record: H) -> (refused: Option<H>)
        ensures
            match refused {
                None => !old(self)@.contains_key(id) && final(self)@ == old(self)@.insert(
                    id,
                    record,
                ),
                Some(back) => old(self)@.contains_key(id) && final(self)@ == old(self)@ && back
                    == record,
            },
    {
        if self.is_free(id) {
            self.records.insert(id, record);
            None
        } else {
            Some(record)
        }
    }

    /// Takes a new connection in: gives it an id that no live connection
    /// has and files its record under that id.
    pub fn accept(&mut self, record: H) -> (id: ConID)
        ensures
            !old(self)@.contains_key(id),
            final(self)@ == old(self)@.insert(id, record),
    {
        let id = self.fresh_id();
        self.records.insert(id, record);
        id
    }

    /// The record of a live connection; `None` where the id is not live.
    pub fn resolve(&self, id: ConID) -> (record: Option<&H>)
        ensures
            match record {
                Some(r) => self@.contains_key(id) && *r == self@[id],
                None => !self@.contains_key(id),
            },
    {
        self.records.get(&id)
    }

    /// Where the reply to a request is to go: the record of the connection
    /// that the request came through. `None` means that the connection has
    /// been retired: the request is dropped, and nothing else changes.
    pub fn route(&self, request: &ClientQuestion) -> (record: Option<&H>)
        ensures
            match record {
                Some(r) => self@.contains_key(request.con_id) && *r == self@[request.con_id],
                None => !self@.contains_key(request.con_id),
            },
    {
        self.resolve(request.con_id)
    }

    /// Takes a connection out and hands back its record; `None`, and no
    /// change, where the id is not live.
    pub fn retire(&mut self, id: ConID) -> (record: Option<H>)
        ensures
            final(self)@ == old(self)@.remove(id),
            record == if old(self)@.contains_key(id) {
                Some(old(self)@[id])
            } else {
                None
            },
    {
        self.records.remove(&id)
    }
}

/// Ids that were each free when handed out are pairwise distinct, none of
/// them was live at the start, and each stands for one more live connection.
pub proof fn lemma_ids_are_distinct(start: Set<ConID>, ids: Seq<ConID>)
    requires
        each_was_free(start, ids),
    ensures
        forall|i: int, j: int| 0 <= i < j < ids.len() ==> ids[i] != ids[j],
        forall|i: int| 0 <= i < ids.len() ==> !start.contains(#[trigger] ids[i]),
        forall|id: ConID|
            live_after(start, ids).contains(id) <==> start.contains(id) || ids.contains(id),
        start.finite() ==> live_after(start, ids).finite() && live_after(start, ids).len()
            == start.len() + ids.len(),
    decreases ids.len(),
{
    if ids.len() > 0 {
        let before = ids.drop_last();
        lemma_ids_are_distinct(start, before);
        assert forall|id: ConID| live_after(start, ids).contains(id) <==> start.contains(id)
            || ids.contains(id) by {
            if ids.contains(id) {
                let i = choose|i: int| 0 <= i < ids.len() && ids[i] == id;
                if i < before.len() {
                    assert(before[i] == id);
                }
            }
            if before.contains(id) {
                let i = choose|i: int| 0 <= i < before.len() && before[i] == id;
                assert(ids[i] == id);
            }
            assert(ids[ids.len() - 1] == ids.last());
        }
        assert forall|i: int, j: int| 0 <= i < j < ids.len() implies ids[i] != ids[j] by {
            if j == ids.len() - 1 {
                assert(before[i] == ids[i]);
                assert(before.contains(ids[i]));
            } else {
                assert(before[i] == ids[i] && before[j] == ids[j]);
            }
        }
        assert forall|i: int| 0 <= i < ids.len() implies !start.contains(#[trigger] ids[i]) by {
            if i < before.len() {
                assert(before[i] == ids[i]);
            }
        }
    }
}

} // verus!
