//! The event router: a registry of engine names to inbound queues.
//! `route` appends an addressed event to the queue of the named engine;
//! an unknown target is dropped silently (a defined no-op, matching the
//! discard policy). Delivery through one router value preserves
//! per-producer, per-target FIFO order: `route` only ever appends.

use vstd::prelude::*;
use crate::event::Event;

verus! {

/// One engine's inbound queue, keyed by the engine's name.
pub struct Inbox {
    pub owner: String,
    pub queue: Vec<Event>,
}

/// The index of the first inbox owned by `target`, or `-1` when no
/// engine of that name is registered.
pub open spec fn inbox_index(bs: Seq<Inbox>, target: Seq<char>) -> int
    decreases bs.len(),
{
    if bs.len() == 0 {
        -1
    } else if bs[0].owner@ == target {
        0
    } else {
        let r = inbox_index(bs.drop_first(), target);
        if r == -1 {
            -1
        } else {
            r + 1
        }
    }
}

/// `inbox_index` returns `-1` exactly when no inbox is owned by
/// `target`, and otherwise the least index owned by it.
pub proof fn lemma_inbox_index_characterization(bs: Seq<Inbox>, target: Seq<char>)
    ensures
        inbox_index(bs, target) == -1 || 0 <= inbox_index(bs, target) < bs.len(),
        inbox_index(bs, target) == -1 ==> forall|j: int|
            0 <= j < bs.len() ==> bs[j].owner@ != target,
        inbox_index(bs, target) != -1 ==> bs[inbox_index(bs, target)].owner@ == target,
        inbox_index(bs, target) != -1 ==> forall|j: int|
            0 <= j < inbox_index(bs, target) ==> bs[j].owner@ != target,
    decreases bs.len(),
{
    if bs.len() == 0 {
    } else if bs[0].owner@ == target {
    } else {
        lemma_inbox_index_characterization(bs.drop_first(), target);
        let r = inbox_index(bs.drop_first(), target);
        if r == -1 {
            assert forall|j: int| 0 <= j < bs.len() implies bs[j].owner@ != target by {
                if j > 0 {
                    assert(bs.drop_first()[j - 1] == bs[j]);
                }
            }
        } else {
            assert(bs.drop_first()[r] == bs[r + 1]);
            assert forall|j: int| 0 <= j < r + 1 implies bs[j].owner@ != target by {
                if j > 0 {
                    assert(bs.drop_first()[j - 1] == bs[j]);
                }
            }
        }
    }
}

/// The registry of engine names to inbound queues.
pub struct Router {
    pub inboxes: Vec<Inbox>,
}

impl Router {
    /// An empty registry.
    pub fn new() -> (r: Router)
        ensures
            r.inboxes@.len() == 0,
    {
        Router { inboxes: Vec::new() }
    }

    /// Finds the first inbox owned by `target`.
    fn find_inbox(&self, target: &String) -> (r: Option<usize>)
        ensures
            match r {
                Option::Some(i) => inbox_index(self.inboxes@, target@) == i as int && (i as int)
                    < self.inboxes@.len(),
                Option::None => inbox_index(self.inboxes@, target@) == -1,
            },
    {
        let mut i: usize = 0;
        while i < self.inboxes.len()
            invariant
                i <= self.inboxes@.len(),
                forall|j: int| 0 <= j < i ==> self.inboxes@[j].owner@ != target@,
            decreases self.inboxes@.len() - i,
        {
            if self.inboxes[i].owner == *target {
                proof {
                    lemma_inbox_index_characterization(self.inboxes@, target@);
                }
                return Option::Some(i);
            }
            i = i + 1;
        }
        proof {
            lemma_inbox_index_characterization(self.inboxes@, target@);
        }
        Option::None
    }

    /// Registers an engine name with a fresh, empty inbound queue. A
    /// name that is already registered is left as it is.
    pub fn register(&mut self, name: String)
        ensures
            inbox_index(old(self).inboxes@, name@) != -1
                ==> final(self).inboxes == old(self).inboxes,
            inbox_index(old(self).inboxes@, name@) == -1 ==> ({
                let before = old(self).inboxes@;
                let after = final(self).inboxes@;
                &&& after.len() == before.len() + 1
                &&& forall|j: int| 0 <= j < before.len() ==> after[j] == before[j]
                &&& after[before.len() as int].owner == name
                &&& after[before.len() as int].queue@ == Seq::<Event>::empty()
            }),
    {
        match self.find_inbox(&name) {
            Option::Some(_) => {},
            Option::None => {
                self.inboxes.push(Inbox { owner: name, queue: Vec::new() });
            },
        }
    }

    /// Delivers an addressed event: appends it to the end of the queue
    /// of the first inbox owned by `target`, leaving every other inbox
    /// unchanged. An unknown target drops the event silently.
    pub fn route(&mut self, target: &String, event: Event)
        ensures
            inbox_index(old(self).inboxes@, target@) == -1
                ==> final(self).inboxes == old(self).inboxes,
            inbox_index(old(self).inboxes@, target@) != -1 ==> ({
                let i = inbox_index(old(self).inboxes@, target@);
                let before = old(self).inboxes@;
                let after = final(self).inboxes@;
                &&& after.len() == before.len()
                &&& forall|j: int| 0 <= j < before.len() && j != i ==> after[j] == before[j]
                &&& after[i].owner == before[i].owner
                &&& after[i].queue@ == before[i].queue@.push(event)
            }),
    {
        match self.find_inbox(target) {
            Option::None => {},
            Option::Some(i) => {
                self.inboxes[i].queue.push(event);
            },
        }
    }

    /// Takes the oldest queued event of the first inbox owned by
    /// `target`, in FIFO order; `None` when the target is unknown or
    /// its queue is empty.
    pub fn take_event(&mut self, target: &String) -> (r: Option<Event>)
        ensures
            inbox_index(old(self).inboxes@, target@) == -1
                ==> final(self).inboxes == old(self).inboxes && r is None,
            inbox_index(old(self).inboxes@, target@) != -1 ==> ({
                let i = inbox_index(old(self).inboxes@, target@);
                let before = old(self).inboxes@;
                let after = final(self).inboxes@;
                &&& after.len() == before.len()
                &&& forall|j: int| 0 <= j < before.len() && j != i ==> after[j] == before[j]
                &&& after[i].owner == before[i].owner
                &&& before[i].queue@.len() == 0
                    ==> r is None && after[i].queue@ == before[i].queue@
                &&& before[i].queue@.len() > 0
                    ==> r == Some(before[i].queue@[0])
                        && after[i].queue@ == before[i].queue@.drop_first()
            }),
    {
        match self.find_inbox(target) {
            Option::None => Option::None,
            Option::Some(i) => {
                if self.inboxes[i].queue.len() == 0 {
                    Option::None
                } else {
                    let e = self.inboxes[i].queue.remove(0);
                    proof {
                        assert(old(self).inboxes@[i as int].queue@.drop_first()
                            =~= self.inboxes@[i as int].queue@);
                    }
                    Option::Some(e)
                }
            },
        }
    }
}

/// Per-producer, per-target FIFO order: one producer routing `e1` and
/// then `e2` to the same registered target leaves the target's queue
/// with `e1` before `e2`, with nothing between them, and every other
/// inbox unchanged.
pub proof fn lemma_route_fifo(
    r0: Router,
    r1: Router,
    r2: Router,
    target: Seq<char>,
    e1: Event,
    e2: Event,
)
    requires
        inbox_index(r0.inboxes@, target) != -1,
        // r1 is r0 after routing e1 to target, r2 is r1 after routing e2 to target:
        r1.inboxes@.len() == r0.inboxes@.len(),
        forall|j: int|
            0 <= j < r0.inboxes@.len() && j != inbox_index(r0.inboxes@, target)
                ==> r1.inboxes@[j] == r0.inboxes@[j],
        r1.inboxes@[inbox_index(r0.inboxes@, target)].owner == r0.inboxes@[inbox_index(
            r0.inboxes@,
            target,
        )].owner,
        r1.inboxes@[inbox_index(r0.inboxes@, target)].queue@ == r0.inboxes@[inbox_index(
            r0.inboxes@,
            target,
        )].queue@.push(e1),
        r2.inboxes@.len() == r1.inboxes@.len(),
        forall|j: int|
            0 <= j < r1.inboxes@.len() && j != inbox_index(r1.inboxes@, target)
                ==> r2.inboxes@[j] == r1.inboxes@[j],
        r2.inboxes@[inbox_index(r1.inboxes@, target)].queue@ == r1.inboxes@[inbox_index(
            r1.inboxes@,
            target,
        )].queue@.push(e2),
    ensures
        inbox_index(r1.inboxes@, target) == inbox_index(r0.inboxes@, target),
        ({
            let i = inbox_index(r0.inboxes@, target);
            let n = r0.inboxes@[i].queue@.len();
            &&& r2.inboxes@[i].queue@ == r0.inboxes@[i].queue@.push(e1).push(e2)
            &&& r2.inboxes@[i].queue@[n as int] == e1
            &&& r2.inboxes@[i].queue@[n as int + 1] == e2
            &&& forall|j: int| 0 <= j < r0.inboxes@.len() && j != i ==> r2.inboxes@[j] == r0.inboxes@[j]
        }),
{
    lemma_inbox_index_characterization(r0.inboxes@, target);
    let i = inbox_index(r0.inboxes@, target);
    lemma_inbox_index_stable(r0.inboxes@, r1.inboxes@, target, i);
}

/// Routing to a target does not move any inbox: an update that keeps
/// every owner in place keeps the target's index.
pub proof fn lemma_inbox_index_stable(
    bs0: Seq<Inbox>,
    bs1: Seq<Inbox>,
    target: Seq<char>,
    i: int,
)
    requires
        0 <= i < bs0.len(),
        bs1.len() == bs0.len(),
        forall|j: int| 0 <= j < bs0.len() && j != i ==> bs1[j] == bs0[j],
        bs1[i].owner == bs0[i].owner,
        inbox_index(bs0, target) == i,
    ensures
        inbox_index(bs1, target) == i,
{
    lemma_inbox_index_characterization(bs0, target);
    lemma_inbox_index_from_first_match(bs1, target, i);
}

/// An index that is owned by `target`, below which no inbox is owned by
/// `target`, is the inbox index of `target`.
pub proof fn lemma_inbox_index_from_first_match(bs: Seq<Inbox>, target: Seq<char>, i: int)
    requires
        0 <= i < bs.len(),
        bs[i].owner@ == target,
        forall|j: int| 0 <= j < i ==> bs[j].owner@ != target,
    ensures
        inbox_index(bs, target) == i,
{
    lemma_inbox_index_characterization(bs, target);
    let r = inbox_index(bs, target);
    if r == -1 {
        assert(bs[i].owner@ != target);
    } else if r < i {
        assert(bs[r].owner@ != target);
    } else if r > i {
        assert(bs[i].owner@ != target);
    }
}

} // verus!
