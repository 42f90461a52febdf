use vstd::prelude::*;

use crate::models::{addresses_for_port, decimal, port_rule};
use crate::reconcile::{
    accepts, next, spec_success, ActionView, EventView, Outcome, ReconcilerView, StageView,
};

verus! {

/// The state reached and the actions asked for when the loop, from `s`,
/// is handed the events `evs` in order.
pub open spec fn run(s: ReconcilerView, evs: Seq<EventView>) -> (ReconcilerView, Seq<ActionView>)
    decreases evs.len(),
{
    if evs.len() == 0 {
        (s, seq![])
    } else {
        let (t, acts) = run(s, evs.drop_last());
        let (u, a) = next(t, evs.last());
        (u, acts.push(a))
    }
}

/// Each event of `evs` answers the action that the loop was waiting on.
pub open spec fn accepted_run(s: ReconcilerView, evs: Seq<EventView>) -> bool
    decreases evs.len(),
{
    evs.len() == 0 || (accepted_run(s, evs.drop_last()) && accepts(
        run(s, evs.drop_last()).0,
        evs.last(),
    ))
}

/// The events of one tick that observed `o`: it starts from an observing loop,
/// answers each action in turn, and holds no wake-up, so it never passes the
/// end of the tick.
pub open spec fn one_tick(s: ReconcilerView, evs: Seq<EventView>, o: Seq<char>) -> bool {
    &&& s.stage is Observing
    &&& evs.len() > 0
    &&& evs[0] == EventView::Observed(o)
    &&& accepted_run(s, evs)
    &&& forall|i: int| 0 <= i < evs.len() ==> !(#[trigger] evs[i] is Woke)
}

/// Where a tick that observed `o` can stand, starting with `before` applied.
pub open spec fn tick_state(t: ReconcilerView, o: Seq<char>, before: Option<Seq<char>>) -> bool {
    match t.stage {
        StageView::Fetching(x) => x == o && t.last_applied == before && before != Some(o),
        StageView::Removing(x) => x == o && t.last_applied == before && before != Some(o),
        StageView::Adding(x) => x == o && t.last_applied == before && before != Some(o),
        StageView::Resting(out) => ended_with(t, out, o, before),
        StageView::Finished(out) => ended_with(t, out, o, before),
        StageView::Observing => false,
    }
}

pub open spec fn ended_with(
    t: ReconcilerView,
    out: Outcome,
    o: Seq<char>,
    before: Option<Seq<char>>,
) -> bool {
    if out == Outcome::Applied || out == Outcome::Unchanged {
        t.last_applied == Some(o)
    } else {
        t.last_applied == before
    }
}

/// A request to the firewall service other than address discovery.
pub open spec fn is_call(a: ActionView) -> bool {
    a is FetchRules || a is RemoveAddresses || a is AddAddress
}

/// The addresses allowed on `port` once the service has applied `a` to `remote`:
/// a deletion takes its addresses away, an addition joins them.
pub open spec fn apply_action(remote: Set<Seq<char>>, a: ActionView, port: nat) -> Set<Seq<char>> {
    match a {
        ActionView::RemoveAddresses(doc) => remote.difference(
            addresses_for_port(doc, decimal(port)).to_set(),
        ),
        ActionView::AddAddress(doc) => remote.union(addresses_for_port(doc, decimal(port)).to_set()),
        _ => remote,
    }
}

pub open spec fn apply_actions(remote: Set<Seq<char>>, acts: Seq<ActionView>, port: nat) -> Set<
    Seq<char>,
>
    decreases acts.len(),
{
    if acts.len() == 0 {
        remote
    } else {
        apply_action(apply_actions(remote, acts.drop_last(), port), acts.last(), port)
    }
}

proof fn lemma_run_push(s: ReconcilerView, evs: Seq<EventView>, e: EventView)
    ensures
        run(s, evs.push(e)) == ({
            let (t, acts) = run(s, evs);
            let (u, a) = next(t, e);
            (u, acts.push(a))
        }),
{
    assert(evs.push(e).drop_last() =~= evs);
}

proof fn lemma_run_len(s: ReconcilerView, evs: Seq<EventView>)
    ensures
        run(s, evs).1.len() == evs.len(),
        run(s, evs).0.port == s.port,
        run(s, evs).0.once == s.once,
    decreases evs.len(),
{
    if evs.len() > 0 {
        lemma_run_len(s, evs.drop_last());
    }
}

proof fn lemma_rule_addresses(list: Seq<Seq<char>>, port: nat)
    ensures
        addresses_for_port(seq![port_rule(list, port)], decimal(port)) == list,
{
    let rules = seq![port_rule(list, port)];
    assert(rules.drop_last() =~= Seq::<crate::models::RuleView>::empty());
    assert(addresses_for_port(rules.drop_last(), decimal(port)) == Seq::<Seq<char>>::empty());
    assert(Seq::<Seq<char>>::empty() + list =~= list);
}

/// Within one tick that observed `o`, the loop carries `o` until the tick ends,
/// records it only when the tick ends unchanged or applied, leaves the recorded
/// address as it was otherwise, and fetches the rules at most once, first.
pub proof fn lemma_tick(s: ReconcilerView, evs: Seq<EventView>, o: Seq<char>)
    requires
        one_tick(s, evs, o),
    ensures
        tick_state(run(s, evs).0, o, s.last_applied),
        run(s, evs).1.len() == evs.len(),
        forall|i: int| 1 <= i < evs.len() ==> !(#[trigger] run(s, evs).1[i] is FetchRules),
    decreases evs.len(),
{
    lemma_run_len(s, evs);
    let pre = evs.drop_last();
    if evs.len() == 1 {
        assert(pre =~= Seq::<EventView>::empty());
        assert(evs.last() == EventView::Observed(o));
    } else {
        assert(pre[0] == evs[0]);
        assert forall|i: int| 0 <= i < pre.len() implies !(#[trigger] pre[i] is Woke) by {
            assert(pre[i] == evs[i]);
        }
        lemma_tick(s, pre, o);
        lemma_run_len(s, pre);
        let t = run(s, pre).0;
        assert(!(evs[evs.len() - 1] is Woke));
        assert(accepts(t, evs.last()));
        let acts = run(s, evs).1;
        assert forall|i: int| 1 <= i < evs.len() implies !(#[trigger] acts[i] is FetchRules) by {
            if i < pre.len() {
                assert(acts[i] == run(s, pre).1[i]);
            }
        }
    }
}

/// When two consecutive observations give the same address, and the first tick
/// ended with that address applied or found unchanged, the second tick asks only
/// for the address and sends nothing to the firewall service.
pub proof fn lemma_repeated_address_is_quiet(
    s: ReconcilerView,
    first: Seq<EventView>,
    o: Seq<char>,
)
    requires
        one_tick(s, first, o),
        run(s, first).0.stage == StageView::Resting(Outcome::Applied) || run(s, first).0.stage
            == StageView::Resting(Outcome::Unchanged),
    ensures
        ({
            let all = run(s, first.push(EventView::Woke).push(EventView::Observed(o)));
            &&& all.1.len() == first.len() + 2
            &&& all.1[first.len() as int] == ActionView::ObserveIp
            &&& all.1[first.len() + 1int] == ActionView::Sleep(Outcome::Unchanged)
            &&& !is_call(all.1[first.len() + 1int])
            &&& all.0.last_applied == Some(o)
        }),
{
    lemma_tick(s, first, o);
    lemma_run_len(s, first);
    lemma_run_push(s, first, EventView::Woke);
    lemma_run_push(s, first.push(EventView::Woke), EventView::Observed(o));
}

/// Two ticks in immediate succession that observe the same address, the first
/// of which ends applied or unchanged, fetch the rules at most once between them,
/// so at most one fetch, remove and add sequence is run.
pub proof fn lemma_idempotent(s: ReconcilerView, first: Seq<EventView>, o: Seq<char>)
    requires
        one_tick(s, first, o),
        run(s, first).0.stage == StageView::Resting(Outcome::Applied) || run(s, first).0.stage
            == StageView::Resting(Outcome::Unchanged),
    ensures
        ({
            let acts = run(s, first.push(EventView::Woke).push(EventView::Observed(o))).1;
            forall|i: int, j: int|
                0 <= i < acts.len() && 0 <= j < acts.len() && #[trigger] acts[i] is FetchRules
                    && #[trigger] acts[j] is FetchRules ==> i == j
        }),
{
    lemma_tick(s, first, o);
    lemma_repeated_address_is_quiet(s, first, o);
    lemma_run_push(s, first, EventView::Woke);
    lemma_run_push(s, first.push(EventView::Woke), EventView::Observed(o));
    let acts = run(s, first.push(EventView::Woke).push(EventView::Observed(o))).1;
    let mid = run(s, first.push(EventView::Woke)).1;
    assert forall|i: int| 0 <= i < acts.len() && #[trigger] acts[i] is FetchRules implies i == 0 by {
        if i < first.len() {
            assert(acts[i] == mid[i]);
            assert(mid[i] == run(s, first).1[i]);
        }
    }
}

/// A tick that observes a new address `o`, fetches the addresses `listed` that the
/// port allows, and sees its removal (if any) and its addition succeed, records
/// `o`; applied by a service that removes and joins addresses as asked, it
/// leaves `o` as the one address allowed on the port.
pub proof fn lemma_applied_tick_leaves_one_address(
    s: ReconcilerView,
    o: Seq<char>,
    listed: Seq<Seq<char>>,
    removed: u16,
    added: u16,
)
    requires
        s.stage is Observing,
        s.last_applied != Some(o),
        spec_success(removed),
        spec_success(added),
    ensures
        ({
            let tick = if listed.len() > 0 {
                seq![
                    EventView::Observed(o),
                    EventView::Fetched(listed),
                    EventView::RemoveAnswered(removed),
                    EventView::AddAnswered(added),
                ]
            } else {
                seq![
                    EventView::Observed(o),
                    EventView::Fetched(listed),
                    EventView::AddAnswered(added),
                ]
            };
            &&& run(s, tick).0.last_applied == Some(o)
            &&& apply_actions(listed.to_set(), run(s, tick).1, s.port) == set![o]
        }),
{
    let e0 = seq![EventView::Observed(o)];
    let e1 = e0.push(EventView::Fetched(listed));
    lemma_run_push(s, Seq::<EventView>::empty(), EventView::Observed(o));
    assert(Seq::<EventView>::empty().push(EventView::Observed(o)) =~= e0);
    lemma_run_push(s, e0, EventView::Fetched(listed));
    lemma_rule_addresses(listed, s.port);
    lemma_rule_addresses(seq![o], s.port);
    assert(seq![o].to_set() =~= set![o]) by {
        assert(seq![o][0] == o);
    }
    let start = listed.to_set();
    let a0 = run(s, e0).1;
    assert(a0 == seq![ActionView::FetchRules]);
    assert(apply_actions(start, a0, s.port) == apply_action(
        apply_actions(start, a0.drop_last(), s.port),
        a0.last(),
        s.port,
    ));
    assert(a0.drop_last() =~= Seq::<ActionView>::empty());
    assert(apply_actions(start, a0, s.port) == start);
    let a1 = run(s, e1).1;
    assert(a1.drop_last() =~= a0);
    if listed.len() > 0 {
        let e2 = e1.push(EventView::RemoveAnswered(removed));
        let e3 = e2.push(EventView::AddAnswered(added));
        lemma_run_push(s, e1, EventView::RemoveAnswered(removed));
        lemma_run_push(s, e2, EventView::AddAnswered(added));
        assert(e3 =~= seq![
            EventView::Observed(o),
            EventView::Fetched(listed),
            EventView::RemoveAnswered(removed),
            EventView::AddAnswered(added),
        ]);
        let a2 = run(s, e2).1;
        let a3 = run(s, e3).1;
        assert(a2.drop_last() =~= a1);
        assert(a3.drop_last() =~= a2);
        assert(apply_actions(start, a1, s.port) =~= Set::<Seq<char>>::empty());
        assert(apply_actions(start, a2, s.port) =~= set![o]);
        assert(apply_actions(start, a3, s.port) =~= set![o]);
    } else {
        let e2 = e1.push(EventView::AddAnswered(added));
        lemma_run_push(s, e1, EventView::AddAnswered(added));
        assert(e2 =~= seq![
            EventView::Observed(o),
            EventView::Fetched(listed),
            EventView::AddAnswered(added),
        ]);
        let a2 = run(s, e2).1;
        assert(a2.drop_last() =~= a1);
        assert(listed =~= Seq::<Seq<char>>::empty());
        assert(start =~= Set::<Seq<char>>::empty());
        assert(apply_actions(start, a1, s.port) =~= set![o]);
        assert(apply_actions(start, a2, s.port) =~= set![o]);
    }
}

/// A tick whose addition fails after its removal succeeded leaves the recorded
/// address as it was, so observing the same address on the next tick starts the
/// fetch, remove and add sequence again.
pub proof fn lemma_failed_add_is_retried(
    s: ReconcilerView,
    o: Seq<char>,
    listed: Seq<Seq<char>>,
    removed: u16,
    failure: EventView,
)
    requires
        s.stage is Observing,
        !s.once,
        s.last_applied != Some(o),
        listed.len() > 0,
        spec_success(removed),
        failure is AddFailed || (failure is AddAnswered && !spec_success(
            failure->AddAnswered_0,
        )),
    ensures
        ({
            let tick = seq![
                EventView::Observed(o),
                EventView::Fetched(listed),
                EventView::RemoveAnswered(removed),
                failure,
            ];
            let again = run(s, tick.push(EventView::Woke).push(EventView::Observed(o)));
            &&& run(s, tick).0.last_applied == s.last_applied
            &&& run(s, tick).1.last() == ActionView::Sleep(Outcome::AddFailed)
            &&& again.1.last() == ActionView::FetchRules
        }),
{
    let e0 = seq![EventView::Observed(o)];
    lemma_run_push(s, Seq::<EventView>::empty(), EventView::Observed(o));
    assert(Seq::<EventView>::empty().push(EventView::Observed(o)) =~= e0);
    let e1 = e0.push(EventView::Fetched(listed));
    let e2 = e1.push(EventView::RemoveAnswered(removed));
    let e3 = e2.push(failure);
    lemma_run_push(s, e0, EventView::Fetched(listed));
    lemma_run_push(s, e1, EventView::RemoveAnswered(removed));
    lemma_run_push(s, e2, failure);
    lemma_run_push(s, e3, EventView::Woke);
    lemma_run_push(s, e3.push(EventView::Woke), EventView::Observed(o));
    assert(e3 =~= seq![
        EventView::Observed(o),
        EventView::Fetched(listed),
        EventView::RemoveAnswered(removed),
        failure,
    ]);
}

} // verus!
