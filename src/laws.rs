use vstd::prelude::*;
use crate::action::{failure_message, ok_trace, reason_or_default, run_outcome, Action};
use crate::condition::{observe, scan, HashStore, RegionCondition};
use crate::context::{assign, has_key, keys_unique, value_of, ActionContext};
use crate::domain::{EventView, MonitorState};
use crate::llm::LLMPromptGenerationAction;
use crate::llm::LLMPromptResponse;
use crate::monitor::{evict, state_changed, watchdog, Monitor, HOUR_MS};
use crate::trigger::{elapsed_ms, IntervalTrigger};

verus! {

/// The names of the actions started in an event log, in order.
pub open spec fn started_names(log: Seq<EventView>) -> Seq<Seq<char>>
    decreases log.len(),
{
    if log.len() == 0 {
        Seq::empty()
    } else {
        started_names(log.drop_last()) + match log.last() {
            EventView::ActionStarted { action } => seq![action],
            _ => Seq::empty(),
        }
    }
}

/// The names of the actions reported as failed in an event log, in order.
pub open spec fn failed_names(log: Seq<EventView>) -> Seq<Seq<char>>
    decreases log.len(),
{
    if log.len() == 0 {
        Seq::empty()
    } else {
        failed_names(log.drop_last()) + match log.last() {
            EventView::ActionCompleted { action, success } => if !success {
                seq![action]
            } else {
                Seq::empty()
            },
            _ => Seq::empty(),
        }
    }
}

proof fn lemma_names_concat(a: Seq<EventView>, b: Seq<EventView>)
    ensures
        started_names(a + b) == started_names(a) + started_names(b),
        failed_names(a + b) == failed_names(a) + failed_names(b),
    decreases b.len(),
{
    if b.len() == 0 {
        assert(a + b =~= a);
        assert(started_names(a) + started_names(b) =~= started_names(a));
        assert(failed_names(a) + failed_names(b) =~= failed_names(a));
    } else {
        lemma_names_concat(a, b.drop_last());
        assert((a + b).drop_last() =~= a + b.drop_last());
        assert((a + b).last() == b.last());
        assert(started_names(a + b) =~= started_names(a) + started_names(b));
        assert(failed_names(a + b) =~= failed_names(a) + failed_names(b));
    }
}

proof fn lemma_ok_trace_names(names: Seq<Seq<char>>, k: nat)
    requires
        k <= names.len(),
    ensures
        started_names(ok_trace(names, k)) == names.subrange(0, k as int),
        failed_names(ok_trace(names, k)) == Seq::<Seq<char>>::empty(),
        ok_trace(names, k).len() == 2 * k,
    decreases k,
{
    if k > 0 {
        lemma_ok_trace_names(names, (k - 1) as nat);
        let pair = seq![
            EventView::ActionStarted { action: names[k - 1] },
            EventView::ActionCompleted { action: names[k - 1], success: true },
        ];
        lemma_names_concat(ok_trace(names, (k - 1) as nat), pair);
        let s1 = seq![EventView::ActionStarted { action: names[k - 1] }];
        assert(s1.drop_last() =~= Seq::<EventView>::empty());
        assert(started_names(Seq::<EventView>::empty()) == Seq::<Seq<char>>::empty());
        assert(failed_names(Seq::<EventView>::empty()) == Seq::<Seq<char>>::empty());
        assert(started_names(s1) =~= seq![names[k - 1]]);
        assert(failed_names(s1) =~= Seq::<Seq<char>>::empty());
        assert(pair.drop_last() =~= s1);
        assert(started_names(pair) =~= started_names(s1));
        assert(failed_names(pair) =~= failed_names(s1));
        assert(names.subrange(0, k as int) =~= names.subrange(0, k - 1) + seq![names[k - 1]]);
    } else {
        assert(names.subrange(0, 0) =~= Seq::<Seq<char>>::empty());
    }
}

/// Abort law: when a run reports failure, some action `k` failed; exactly actions `0..=k` were
/// started, in order, and the only failed completion is that of action `k`.
pub proof fn law_sequence_aborts_at_first_failure(
    names: Seq<Seq<char>>,
    k: int,
    added: Seq<EventView>,
    after: ActionContext,
)
    requires
        run_outcome(names, k, added, false, after),
    ensures
        0 <= k < names.len(),
        started_names(added) == names.subrange(0, k + 1),
        failed_names(added) == seq![names[k]],
{
    lemma_ok_trace_names(names, k as nat);
    let tail = added.subrange(2 * k, added.len() as int);
    let e = choose|e: Seq<char>|
        tail == seq![
            EventView::ActionStarted { action: names[k] },
            EventView::Error { message: #[trigger] failure_message(names[k], e) },
            EventView::ActionCompleted { action: names[k], success: false },
        ];
    assert(added =~= added.subrange(0, 2 * k) + tail);
    lemma_names_concat(added.subrange(0, 2 * k), tail);
    let t1 = seq![EventView::ActionStarted { action: names[k] }];
    let t2 = seq![
        EventView::ActionStarted { action: names[k] },
        EventView::Error { message: failure_message(names[k], e) },
    ];
    assert(tail.drop_last() =~= t2);
    assert(t2.drop_last() =~= t1);
    assert(t1.drop_last() =~= Seq::<EventView>::empty());
    assert(started_names(Seq::<EventView>::empty()) == Seq::<Seq<char>>::empty());
    assert(failed_names(Seq::<EventView>::empty()) == Seq::<Seq<char>>::empty());
    assert(started_names(t1) =~= seq![names[k]]);
    assert(failed_names(t1) =~= Seq::<Seq<char>>::empty());
    assert(started_names(t2) =~= seq![names[k]]);
    assert(failed_names(t2) =~= Seq::<Seq<char>>::empty());
    assert(started_names(tail) =~= seq![names[k]]);
    assert(failed_names(tail) =~= seq![names[k]]);
    assert(names.subrange(0, k + 1) =~= names.subrange(0, k) + seq![names[k]]);
    assert(failed_names(added) =~= seq![names[k]]);
}

/// Trigger law: a fresh interval trigger fires at once; after firing at `t` it stays quiet
/// (and keeps `t`) for calls less than the interval later, and fires again from the interval on.
pub proof fn law_interval_trigger(d: u64, t: u64, later: u64)
    ensures
        (IntervalTrigger { interval_ms: d, last: None }).fires(t),
        ({
            let fired = (IntervalTrigger { interval_ms: d, last: None }).after(t);
            &&& fired.last == Some(t)
            &&& elapsed_ms(later, t) < d ==> !fired.fires(later) && fired.after(later) == fired
            &&& elapsed_ms(later, t) >= d ==> fired.fires(later) && fired.after(later).last == Some(later)
        }),
{
}

/// Stability law: a fresh detector that waits for 4 unchanged polls, watching one region whose
/// hash stays `h`, is met on the 4th poll and not on the first three.
pub proof fn law_condition_needs_consecutive_polls(
    c0: RegionCondition,
    c1: RegionCondition,
    c2: RegionCondition,
    c3: RegionCondition,
    c4: RegionCondition,
    id: Seq<char>,
    h: u64,
)
    requires
        c0.wf(),
        c0.consecutive_checks == 4,
        !c0.expect_change,
        c0.store().len() == 0,
        c0.last_had_change is None,
        c0.polled(c1, seq![id], seq![h]),
        c1.polled(c2, seq![id], seq![h]),
        c2.polled(c3, seq![id], seq![h]),
        c3.polled(c4, seq![id], seq![h]),
    ensures
        !c0.met_after(seq![id], seq![h]),
        !c1.met_after(seq![id], seq![h]),
        !c2.met_after(seq![id], seq![h]),
        c3.met_after(seq![id], seq![h]),
{
    let ids = seq![id];
    let hs = seq![h];
    assert(scan(c0.store(), ids, hs, 0) == (c0.store(), false));
    assert(!has_key(c0.store(), id));
    assert(!c0.sees_change(ids, hs));
    assert(has_key(c1.store(), id)) by {
        assert(c1.store() == scan(c0.store(), ids, hs, 1).0);
        assert(c1.store()[c1.store().len() - 1].0 == id);
    }
    lemma_stable_store(c1, c2, id, h);
    lemma_stable_store(c2, c3, id, h);
    lemma_stable_store(c3, c4, id, h);
}

proof fn lemma_stable_store(c: RegionCondition, next: RegionCondition, id: Seq<char>, h: u64)
    requires
        c.wf(),
        has_key(c.store(), id),
        value_of(c.store(), id) == Some(h),
        c.polled(next, seq![id], seq![h]),
    ensures
        !c.sees_change(seq![id], seq![h]),
        next.store() == c.store(),
{
    let ids = seq![id];
    let hs = seq![h];
    assert(scan(c.store(), ids, hs, 0) == (c.store(), false));
}

/// Reset law: a poll whose change flag differs from the tracked state restarts the streak at 1
/// for the new state.
pub proof fn law_condition_flip_resets(c: RegionCondition, next: RegionCondition, ids: Seq<Seq<char>>, hs: Seq<u64>)
    requires
        c.polled(next, ids, hs),
        c.last_had_change matches Some(prev) && prev != c.sees_change(ids, hs),
    ensures
        next.consecutive_same_state == 1,
        next.last_had_change == Some(c.sees_change(ids, hs)),
{
}

/// Vacuous case: with no regions nothing changes, so a fresh detector that expects no change and
/// needs one poll is met on its first poll.
pub proof fn law_condition_vacuous(c: RegionCondition)
    requires
        c.consecutive_checks == 1,
        !c.expect_change,
        c.last_had_change is None,
    ensures
        c.met_after(Seq::empty(), Seq::empty()),
{
    assert(scan(c.store(), Seq::empty(), Seq::empty(), 0) == (c.store(), false));
}

/// Cooldown law: once a tick has run the actions successfully and the monitor still runs, every
/// later time inside the cooldown finds the monitor cooling, where a tick only reports the
/// trigger and a tick event (no trip, no run).
pub proof fn law_cooldown_after_activation<X: Action>(
    old: Monitor<X>,
    new: Monitor<X>,
    now: u64,
    rest: Seq<EventView>,
    later: u64,
)
    requires
        Monitor::<X>::activated(old, new, now, rest),
        new.activations != old.activations,
        new.running(),
        now <= later,
        later - now < old.guardrails.cooldown_ms,
    ensures
        new.last_activation_at == Some(now),
        new.cooling(later),
{
}

/// Rate-limit windowing: with at most one activation per hour and one logged at `t0`, the limit
/// holds up to one hour after `t0` and is lifted after that.
pub proof fn law_rate_limit_window<X: Action>(m: Monitor<X>, t0: u64, now: u64)
    requires
        m.guardrails.max_activations_per_hour == Some(1u32),
        m.activation_log@ == seq![t0],
    ensures
        t0 <= now && now - t0 <= HOUR_MS ==> m.rate_limited(now),
        now > t0 + HOUR_MS ==> !m.rate_limited(now),
{
    let log = seq![t0];
    if now > t0 + HOUR_MS {
        assert(log.drop_first() =~= Seq::<u64>::empty());
        assert(evict(log.drop_first(), now) == Seq::<u64>::empty());
    }
}

/// A rate-limit trip keeps the run going: when the limit holds and no text scan is configured,
/// the step after a met condition only reports the trip.
pub proof fn law_rate_limit_is_not_fatal<X: Action>(
    old: Monitor<X>,
    new: Monitor<X>,
    now: u64,
    rest: Seq<EventView>,
)
    requires
        Monitor::<X>::activated(old, new, now, rest),
        old.rate_limited(now),
        !old.guardrails.scans_text(),
    ensures
        rest == seq![watchdog("max_activations_per_hour"@)],
        new.started_at == old.started_at,
        new.activations == old.activations,
{
}

/// Runtime and heartbeat guards are fatal: the state they leave is stopped, keeps its
/// activations, and a stopped monitor's tick changes nothing (see `Monitor::tick`).
pub proof fn law_guard_stops<X: Action>(m: Monitor<X>, now: u64)
    ensures
        !m.halted().running(),
        m.halted().activations == m.activations,
        !m.halted().runtime_exceeded(now),
{
}

/// A model answer that declares the task complete is never refused and always leaves a
/// termination request, whatever its continuation prompt holds.
pub proof fn law_llm_completion_requests_termination<S, L, O>(
    action: LLMPromptGenerationAction<S, L, O>,
    resp: LLMPromptResponse,
    before: ActionContext,
    after: ActionContext,
)
    requires
        resp.task_complete,
        action.applied(resp, before, after),
    ensures
        action.rejection(resp) is None,
        after.should_terminate,
{
}

/// A continuation whose risk exceeds the threshold is refused and leaves the context as it was,
/// so it asks for no termination by itself.
pub proof fn law_llm_high_risk_refused<S, L, O>(
    action: LLMPromptGenerationAction<S, L, O>,
    resp: LLMPromptResponse,
    before: ActionContext,
    after: ActionContext,
)
    requires
        !resp.task_complete,
        resp.continuation_prompt is Some,
        resp.continuation_prompt_risk > action.risk_threshold,
        action.applied(resp, before, after),
    ensures
        action.rejection(resp) is Some,
        after == before,
{
}

/// A termination request left by the actions stops the monitor in the same step, after a
/// trip that carries the request's reason.
pub proof fn law_termination_request_stops_monitor<X: Action>(
    old: Monitor<X>,
    new: Monitor<X>,
    now: u64,
    rest: Seq<EventView>,
)
    requires
        Monitor::<X>::activated(old, new, now, rest),
        !old.rate_limited(now),
        !old.guardrails.scans_text(),
        new.context.should_terminate,
    ensures
        !new.running(),
        rest.len() >= 2,
        rest[rest.len() - 2] == watchdog(reason_or_default(new.context)),
        rest[rest.len() - 1] == state_changed(MonitorState::Stopped),
{
}

/// Equal region ids come with equal hashes.
pub open spec fn consistent(ids: Seq<Seq<char>>, hs: Seq<u64>) -> bool {
    &&& hs.len() == ids.len()
    &&& forall|i: int, j: int| 0 <= i < ids.len() && 0 <= j < ids.len() && ids[i] == ids[j] ==> hs[i] == hs[j]
}

/// The store holds `hs[i]` for each of the first `n` ids.
pub open spec fn holds_all(store: HashStore, ids: Seq<Seq<char>>, hs: Seq<u64>, n: int) -> bool {
    forall|i: int| 0 <= i < n ==> #[trigger] value_of(store, ids[i]) == Some(hs[i])
}

proof fn lemma_push_new_key(s: HashStore, k: Seq<char>, v: u64)
    requires
        keys_unique(s),
        !has_key(s, k),
    ensures
        keys_unique(s.push((k, v))),
        value_of(s.push((k, v)), k) == Some(v),
        forall|q: Seq<char>| q != k ==> #[trigger] value_of(s.push((k, v)), q) == value_of(s, q),
        forall|q: Seq<char>| #[trigger] has_key(s.push((k, v)), q) ==> q == k || has_key(s, q),
{
    let t = s.push((k, v));
    assert(t[s.len() as int].0 == k);
    assert(has_key(t, k));
    assert forall|q: Seq<char>| q != k implies #[trigger] value_of(t, q) == value_of(s, q) by {
        if has_key(s, q) {
            let i = choose|i: int| 0 <= i < s.len() && #[trigger] s[i].0 == q;
            assert(t[i].0 == q);
        }
        if has_key(t, q) {
            let j = choose|j: int| 0 <= j < t.len() && #[trigger] t[j].0 == q;
            assert(s[j].0 == q);
        }
    }
    assert forall|q: Seq<char>| #[trigger] has_key(t, q) implies q == k || has_key(s, q) by {
        let j = choose|j: int| 0 <= j < t.len() && #[trigger] t[j].0 == q;
        if j < s.len() {
            assert(s[j].0 == q);
        }
    }
}

proof fn lemma_stable_scan(store: HashStore, ids: Seq<Seq<char>>, hs: Seq<u64>, n: nat)
    requires
        n <= ids.len(),
        holds_all(store, ids, hs, ids.len() as int),
    ensures
        scan(store, ids, hs, n) == (store, false),
    decreases n,
{
    if n > 0 {
        lemma_stable_scan(store, ids, hs, (n - 1) as nat);
        assert(value_of(store, ids[n - 1]) == Some(hs[n - 1]));
    }
}

proof fn lemma_first_scan(ids: Seq<Seq<char>>, hs: Seq<u64>, n: nat)
    requires
        n <= ids.len(),
        consistent(ids, hs),
    ensures
        !scan(Seq::empty(), ids, hs, n).1,
        keys_unique(scan(Seq::empty(), ids, hs, n).0),
        holds_all(scan(Seq::empty(), ids, hs, n).0, ids, hs, n as int),
        forall|q: Seq<char>| #[trigger] has_key(scan(Seq::empty(), ids, hs, n).0, q)
            ==> exists|i: int| 0 <= i < n && ids[i] == q,
    decreases n,
{
    if n > 0 {
        lemma_first_scan(ids, hs, (n - 1) as nat);
        let s1 = scan(Seq::empty(), ids, hs, (n - 1) as nat).0;
        let id = ids[n - 1];
        let h = hs[n - 1];
        if has_key(s1, id) {
            let i = choose|i: int| 0 <= i < n - 1 && ids[i] == id;
            assert(value_of(s1, ids[i]) == Some(hs[i]));
            assert(hs[i] == h);
            assert(observe(s1, id, h) == (s1, false));
            assert forall|q: Seq<char>| #[trigger] has_key(s1, q) implies exists|j: int| 0 <= j < n && ids[j] == q by {
                let j = choose|j: int| 0 <= j < n - 1 && ids[j] == q;
            }
        } else {
            lemma_push_new_key(s1, id, h);
            assert(assign(s1, id, h) == s1.push((id, h)));
            let s2 = s1.push((id, h));
            assert forall|j: int| 0 <= j < n implies #[trigger] value_of(s2, ids[j]) == Some(hs[j]) by {
                if j < n - 1 {
                    assert(value_of(s1, ids[j]) == Some(hs[j]));
                    if ids[j] == id {
                        assert(has_key(s1, id)) by {
                            let x = choose|x: int| 0 <= x < s1.len() && #[trigger] s1[x].0 == ids[j];
                        }
                    }
                }
            }
            assert forall|q: Seq<char>| #[trigger] has_key(s2, q) implies exists|j: int| 0 <= j < n && ids[j] == q by {
                if q != id {
                    assert(has_key(s1, q));
                    let j = choose|j: int| 0 <= j < n - 1 && ids[j] == q;
                } else {
                    assert(ids[n - 1] == q);
                }
            }
        }
    }
}

/// Stability law for any region list whose hashes stay constant: a fresh detector that waits
/// for 4 unchanged polls is not met on polls 1 to 3, is met on poll 4, and stays met after.
pub proof fn law_condition_stable_regions(
    c0: RegionCondition,
    c1: RegionCondition,
    c2: RegionCondition,
    c3: RegionCondition,
    c4: RegionCondition,
    ids: Seq<Seq<char>>,
    hs: Seq<u64>,
)
    requires
        c0.wf(),
        c0.consecutive_checks == 4,
        !c0.expect_change,
        c0.store() == Seq::<(Seq<char>, u64)>::empty(),
        c0.last_had_change is None,
        consistent(ids, hs),
        c0.polled(c1, ids, hs),
        c1.polled(c2, ids, hs),
        c2.polled(c3, ids, hs),
        c3.polled(c4, ids, hs),
    ensures
        !c0.met_after(ids, hs),
        !c1.met_after(ids, hs),
        !c2.met_after(ids, hs),
        c3.met_after(ids, hs),
        c4.met_after(ids, hs),
{
    lemma_first_scan(ids, hs, ids.len());
    lemma_stable_scan(c1.store(), ids, hs, ids.len());
    lemma_stable_scan(c2.store(), ids, hs, ids.len());
    lemma_stable_scan(c3.store(), ids, hs, ids.len());
    lemma_stable_scan(c4.store(), ids, hs, ids.len());
}

/// Once met on unchanged regions, the detector stays met while they stay unchanged: the
/// streak only grows.
pub proof fn law_condition_stays_met(c: RegionCondition, next: RegionCondition, ids: Seq<Seq<char>>, hs: Seq<u64>)
    requires
        hs.len() == ids.len(),
        holds_all(c.store(), ids, hs, ids.len() as int),
        !c.expect_change,
        c.last_had_change == Some(false),
        c.consecutive_same_state >= c.consecutive_checks,
        c.polled(next, ids, hs),
    ensures
        c.met_after(ids, hs),
        next.store() == c.store(),
        next.last_had_change == Some(false),
        next.consecutive_same_state >= next.consecutive_checks,
{
    lemma_stable_scan(c.store(), ids, hs, ids.len());
}

} // verus!
