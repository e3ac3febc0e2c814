//! The emission capability handed to action hooks, as one verified
//! step: every emission of a transition report is either delivered to
//! the router now (delay zero) or scheduled as a one-shot deferred
//! task, in order, and nothing else changes.

use vstd::prelude::*;
use crate::action::Emission;
use crate::event::Event;
use crate::router::{inbox_index, lemma_inbox_index_characterization, Inbox, Router};
use crate::timer::{DeferredQueue, DeferredTask};

verus! {

/// The events that dispatching `ems` appends to the queue of inbox `j`,
/// in emission order: the immediate emissions whose target resolves to
/// `j` in the registry `bs`.
pub open spec fn routed_events(ems: Seq<Emission>, bs: Seq<Inbox>, j: int) -> Seq<Event>
    decreases ems.len(),
{
    if ems.len() == 0 {
        Seq::empty()
    } else {
        let rest = routed_events(ems.drop_last(), bs, j);
        let em = ems.last();
        if em.delay_secs == 0 && inbox_index(bs, em.msg.target@) == j {
            rest.push(em.msg.event)
        } else {
            rest
        }
    }
}

/// The one-shot tasks that dispatching `ems` at time `now` schedules,
/// in emission order: one task per delayed emission, due after its
/// delay.
pub open spec fn scheduled_tasks(ems: Seq<Emission>, now: u64) -> Seq<DeferredTask>
    decreases ems.len(),
{
    if ems.len() == 0 {
        Seq::empty()
    } else {
        let rest = scheduled_tasks(ems.drop_last(), now);
        let em = ems.last();
        if em.delay_secs > 0 {
            rest.push(DeferredTask { due: (now + em.delay_secs) as u64, msg: em.msg })
        } else {
            rest
        }
    }
}

/// The index an emission's target resolves to depends only on the
/// owners of the registry, not on what the queues hold.
pub proof fn lemma_inbox_index_owners(bs1: Seq<Inbox>, bs2: Seq<Inbox>, target: Seq<char>)
    requires
        bs1.len() == bs2.len(),
        forall|j: int| 0 <= j < bs1.len() ==> bs1[j].owner == bs2[j].owner,
    ensures
        inbox_index(bs1, target) == inbox_index(bs2, target),
    decreases bs1.len(),
{
    if bs1.len() == 0 {
    } else {
        assert(bs1[0].owner == bs2[0].owner);
        assert forall|j: int| 0 <= j < bs1.drop_first().len() implies bs1.drop_first()[j].owner
            == bs2.drop_first()[j].owner by {
            assert(bs1.drop_first()[j] == bs1[j + 1]);
            assert(bs2.drop_first()[j] == bs2[j + 1]);
        }
        lemma_inbox_index_owners(bs1.drop_first(), bs2.drop_first(), target);
    }
}

/// Performs the emissions of one action hook or transition report, in
/// order: an emission with delay zero is delivered to the router now;
/// one with a positive delay becomes a one-shot deferred task, taken at
/// current time `now`. Unknown targets are dropped silently; every
/// inbox owner and every untargeted queue is left unchanged.
pub fn dispatch_emissions(
    router: &mut Router,
    deferred: &mut DeferredQueue,
    now: u64,
    emissions: &Vec<Emission>,
)
    requires
        forall|k: int|
            0 <= k < emissions@.len() ==> now + emissions@[k].delay_secs <= u64::MAX,
    ensures
        final(router).inboxes@.len() == old(router).inboxes@.len(),
        forall|j: int|
            0 <= j < old(router).inboxes@.len() ==> final(router).inboxes@[j].owner == old(
                router,
            ).inboxes@[j].owner,
        forall|j: int|
            0 <= j < old(router).inboxes@.len() ==> final(router).inboxes@[j].queue@ == old(
                router,
            ).inboxes@[j].queue@ + routed_events(emissions@, old(router).inboxes@, j),
        final(deferred).pending@ == old(deferred).pending@ + scheduled_tasks(emissions@, now),
{
    let ghost bs0 = old(router).inboxes@;
    let mut i: usize = 0;
    proof {
        assert(emissions@.take(0) =~= Seq::<Emission>::empty());
        assert forall|j: int| 0 <= j < bs0.len() implies router.inboxes@[j].queue@ == bs0[j].queue@
            + routed_events(emissions@.take(0), bs0, j) by {
            assert(routed_events(emissions@.take(0), bs0, j) =~= Seq::<Event>::empty());
            assert(bs0[j].queue@ + Seq::<Event>::empty() =~= bs0[j].queue@);
        }
        assert(deferred.pending@ =~= deferred.pending@ + scheduled_tasks(
            emissions@.take(0),
            now,
        ));
    }
    while i < emissions.len()
        invariant
            i <= emissions@.len(),
            forall|k: int|
                0 <= k < emissions@.len() ==> now + emissions@[k].delay_secs <= u64::MAX,
            router.inboxes@.len() == bs0.len(),
            forall|j: int| 0 <= j < bs0.len() ==> router.inboxes@[j].owner == bs0[j].owner,
            forall|j: int|
                0 <= j < bs0.len() ==> router.inboxes@[j].queue@ == bs0[j].queue@ + routed_events(
                    emissions@.take(i as int),
                    bs0,
                    j,
                ),
            deferred.pending@ == old(deferred).pending@ + scheduled_tasks(
                emissions@.take(i as int),
                now,
            ),
        decreases emissions@.len() - i,
    {
        let ghost pre = router.inboxes@;
        let em = &emissions[i];
        proof {
            assert(emissions@.take(i as int + 1).drop_last() =~= emissions@.take(i as int));
            assert(emissions@.take(i as int + 1).last() == emissions@[i as int]);
        }
        if em.delay_secs == 0 {
            proof {
                lemma_inbox_index_owners(pre, bs0, em.msg.target@);
                lemma_inbox_index_characterization(pre, em.msg.target@);
            }
            router.route(&em.msg.target, em.msg.event);
            proof {
                let idx = inbox_index(bs0, emissions@[i as int].msg.target@);
                assert forall|j: int| 0 <= j < bs0.len() implies router.inboxes@[j].queue@
                    == bs0[j].queue@ + routed_events(emissions@.take(i as int + 1), bs0, j) by {
                    if j == idx {
                        let e = emissions@[i as int].msg.event;
                        let r0 = routed_events(emissions@.take(i as int), bs0, j);
                        assert(router.inboxes@[j].queue@ == pre[j].queue@.push(e));
                        assert(pre[j].queue@ == bs0[j].queue@ + r0);
                        assert(routed_events(emissions@.take(i as int + 1), bs0, j) == r0.push(e));
                        assert((bs0[j].queue@ + r0).push(e) =~= bs0[j].queue@ + r0.push(e));
                    } else {
                        assert(routed_events(emissions@.take(i as int + 1), bs0, j)
                            == routed_events(emissions@.take(i as int), bs0, j));
                    }
                }
                assert(deferred.pending@ == old(deferred).pending@ + scheduled_tasks(
                    emissions@.take(i as int + 1),
                    now,
                ));
            }
        } else {
            let msg = em.msg.clone();
            deferred.schedule(now, em.delay_secs, msg);
            proof {
                assert(deferred.pending@ =~= old(deferred).pending@ + scheduled_tasks(
                    emissions@.take(i as int + 1),
                    now,
                ));
                assert forall|j: int| 0 <= j < bs0.len() implies router.inboxes@[j].queue@
                    == bs0[j].queue@ + routed_events(emissions@.take(i as int + 1), bs0, j) by {
                    assert(router.inboxes@[j].queue@ == bs0[j].queue@ + routed_events(
                        emissions@.take(i as int),
                        bs0,
                        j,
                    ));
                    assert(emissions@.take(i as int + 1).last().delay_secs > 0);
                    assert(routed_events(emissions@.take(i as int + 1), bs0, j) == routed_events(
                        emissions@.take(i as int),
                        bs0,
                        j,
                    ));
                }
            }
        }
        i = i + 1;
    }
    proof {
        assert(emissions@.take(emissions@.len() as int) =~= emissions@);
    }
}

} // verus!
