//! The timer core: the pure logic of the timer service.
//!
//! A periodic timer emits one fixed addressed event per tick. A
//! one-shot deferred emission is a task with an absolute due time; the
//! queue of pending tasks is polled with the current time, and firing
//! delivers every due task exactly once, no earlier than its delay,
//! keeping the rest pending. The surrounding process supplies the clock
//! and the sleeping; nothing here blocks.

use vstd::prelude::*;
use vstd::seq_lib::group_to_multiset_ensures;
use crate::action::AddressedEvent;
use crate::event::Event;

verus! {

/// A fire-and-forget one-shot task: at or after `due`, emit `msg`
/// exactly once. Tasks are not cancellable: once scheduled, a task
/// stays pending until it fires.
pub struct DeferredTask {
    pub due: u64,
    pub msg: AddressedEvent,
}

impl Clone for DeferredTask {
    fn clone(&self) -> (r: Self)
        ensures
            r == *self,
    {
        DeferredTask { due: self.due, msg: self.msg.clone() }
    }
}

/// The tasks of `s` that are due at time `now`, in scheduling order.
pub open spec fn due_tasks(s: Seq<DeferredTask>, now: u64) -> Seq<DeferredTask>
    decreases s.len(),
{
    if s.len() == 0 {
        Seq::empty()
    } else {
        let rest = due_tasks(s.drop_last(), now);
        if s.last().due <= now {
            rest.push(s.last())
        } else {
            rest
        }
    }
}

/// The messages of the tasks of `s` that are due at time `now`, in
/// scheduling order.
pub open spec fn due_messages(s: Seq<DeferredTask>, now: u64) -> Seq<AddressedEvent>
    decreases s.len(),
{
    if s.len() == 0 {
        Seq::empty()
    } else {
        let rest = due_messages(s.drop_last(), now);
        if s.last().due <= now {
            rest.push(s.last().msg)
        } else {
            rest
        }
    }
}

/// The tasks of `s` not yet due at time `now`, in scheduling order.
pub open spec fn still_pending(s: Seq<DeferredTask>, now: u64) -> Seq<DeferredTask>
    decreases s.len(),
{
    if s.len() == 0 {
        Seq::empty()
    } else {
        let rest = still_pending(s.drop_last(), now);
        if s.last().due > now {
            rest.push(s.last())
        } else {
            rest
        }
    }
}

/// The queue of pending one-shot deferred emissions.
pub struct DeferredQueue {
    pub pending: Vec<DeferredTask>,
}

impl DeferredQueue {
    /// An empty queue: nothing pending.
    pub fn new() -> (q: DeferredQueue)
        ensures
            q.pending@.len() == 0,
    {
        DeferredQueue { pending: Vec::new() }
    }

    /// Schedules "after `delay_secs`, emit `msg` exactly once", taken
    /// at current time `now`: the task becomes due at `now + delay_secs`.
    pub fn schedule(&mut self, now: u64, delay_secs: u64, msg: AddressedEvent)
        requires
            now + delay_secs <= u64::MAX,
        ensures
            final(self).pending@ == old(self).pending@.push(
                DeferredTask { due: (now + delay_secs) as u64, msg },
            ),
    {
        self.pending.push(DeferredTask { due: now + delay_secs, msg });
    }

    /// Fires every task due at time `now`: returns their messages in
    /// scheduling order and keeps exactly the tasks not yet due. Each
    /// pending task is thus delivered at most once, and only at or
    /// after its due time.
    pub fn fire_due(&mut self, now: u64) -> (fired: Vec<AddressedEvent>)
        ensures
            fired@ == due_messages(old(self).pending@, now),
            final(self).pending@ == still_pending(old(self).pending@, now),
    {
        let mut fired: Vec<AddressedEvent> = Vec::new();
        let mut remaining: Vec<DeferredTask> = Vec::new();
        let mut i: usize = 0;
        while i < self.pending.len()
            invariant
                self.pending == old(self).pending,
                i <= self.pending@.len(),
                fired@ == due_messages(old(self).pending@.take(i as int), now),
                remaining@ == still_pending(old(self).pending@.take(i as int), now),
            decreases self.pending@.len() - i,
        {
            let t = self.pending[i].clone();
            proof {
                assert(old(self).pending@.take(i as int + 1).drop_last() =~= old(
                    self,
                ).pending@.take(i as int));
                assert(old(self).pending@.take(i as int + 1).last() == old(self).pending@[i as int]);
            }
            if t.due <= now {
                fired.push(t.msg);
            } else {
                remaining.push(t);
            }
            i = i + 1;
        }
        proof {
            assert(old(self).pending@.take(self.pending@.len() as int) =~= old(self).pending@);
        }
        self.pending = remaining;
        fired
    }
}

/// One-shot timing: a task scheduled with a due time later than the
/// poll time is never fired by that poll — it emits nothing early and
/// stays pending, and the poll treats every other task as before.
pub proof fn lemma_deferred_never_early(s: Seq<DeferredTask>, t: DeferredTask, poll: u64)
    requires
        poll < t.due,
    ensures
        due_messages(s.push(t), poll) == due_messages(s, poll),
        due_tasks(s.push(t), poll) == due_tasks(s, poll),
        still_pending(s.push(t), poll) == still_pending(s, poll).push(t),
{
    assert(s.push(t).drop_last() =~= s);
}

/// One-shot delivery is exact: a poll at time `now` partitions the
/// pending tasks — every task is either fired (once) or kept (once),
/// none is duplicated and none is lost — and the fired messages are
/// exactly the messages of the fired tasks, in order.
pub proof fn lemma_fire_partition(s: Seq<DeferredTask>, now: u64)
    ensures
        s.to_multiset() == due_tasks(s, now).to_multiset().add(
            still_pending(s, now).to_multiset(),
        ),
        due_tasks(s, now).len() + still_pending(s, now).len() == s.len(),
        due_messages(s, now) == due_tasks(s, now).map_values(|t: DeferredTask| t.msg),
    decreases s.len(),
{
    broadcast use group_to_multiset_ensures;

    if s.len() == 0 {
        assert(s.to_multiset() =~= due_tasks(s, now).to_multiset().add(
            still_pending(s, now).to_multiset(),
        ));
        assert(due_messages(s, now) =~= due_tasks(s, now).map_values(|t: DeferredTask| t.msg));
    } else {
        let d = s.drop_last();
        let l = s.last();
        lemma_fire_partition(d, now);
        assert(s =~= d.push(l));
        assert(s.to_multiset() == d.to_multiset().insert(l));
        if l.due <= now {
            assert(due_tasks(s, now).to_multiset() == due_tasks(d, now).to_multiset().insert(l));
            assert(s.to_multiset() =~= due_tasks(s, now).to_multiset().add(
                still_pending(s, now).to_multiset(),
            ));
            assert(due_messages(s, now) =~= due_tasks(s, now).map_values(
                |t: DeferredTask| t.msg,
            ));
        } else {
            assert(still_pending(s, now).to_multiset() == still_pending(
                d,
                now,
            ).to_multiset().insert(l));
            assert(s.to_multiset() =~= due_tasks(s, now).to_multiset().add(
                still_pending(s, now).to_multiset(),
            ));
            assert(due_messages(s, now) =~= due_tasks(s, now).map_values(
                |t: DeferredTask| t.msg,
            ));
        }
    }
}

/// The periodic half of the timer service: every fixed interval it
/// emits the same event to the same target, until its send fails
/// because the receiving side is gone.
pub struct PeriodicTimer {
    pub interval_secs: u64,
    pub target: String,
    pub event: Event,
}

impl PeriodicTimer {
    /// A periodic timer that emits `event` to `target` every
    /// `interval_secs` seconds.
    pub fn new(interval_secs: u64, target: String, event: Event) -> (t: PeriodicTimer)
        ensures
            t.interval_secs == interval_secs,
            t.target == target,
            t.event == event,
    {
        PeriodicTimer { interval_secs, target, event }
    }

    /// The addressed event emitted by every tick: each tick emits the
    /// same configured message.
    pub fn tick(&self) -> (m: AddressedEvent)
        ensures
            m.target@ == self.target@,
            m.event == self.event,
    {
        AddressedEvent { target: self.target.clone(), event: self.event }
    }
}

} // verus!
