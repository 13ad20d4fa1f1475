use vstd::prelude::*;
use std::collections::VecDeque;
use crate::action::{reason_or_default, run_outcome, Action, ActionSequence};
use crate::condition::RegionCondition;
use crate::context::ActionContext;
use crate::domain::{
    log_view, region_ids, Automation, Event, EventView, MonitorState, OCRCapture, Region,
    ScreenCapture,
};
use crate::guardrails::{opt_view, Guardrails};
use crate::llm::known;
use crate::text::text_eq;
use crate::trigger::{elapsed, elapsed_ms, IntervalTrigger};

verus! {

/// The rolling window of the activation rate limit.
pub const HOUR_MS: u64 = 3600000;

/// The activation log without the entries older than one hour at `now`, dropped from the front.
pub open spec fn evict(log: Seq<u64>, now: u64) -> Seq<u64>
    decreases log.len(),
{
    if log.len() > 0 && elapsed_ms(now, log[0]) > HOUR_MS {
        evict(log.drop_first(), now)
    } else {
        log
    }
}

pub open spec fn saturating_inc(n: u32) -> u32 {
    if n == u32::MAX { n } else { (n + 1) as u32 }
}

pub open spec fn watchdog(reason: Seq<char>) -> EventView {
    EventView::WatchdogTripped { reason }
}

/// Whether an event is a guardrail trip.
pub open spec fn is_trip(e: EventView) -> bool {
    e is WatchdogTripped
}

/// Whether the events of `log` from index `from` on include a guardrail trip.
pub open spec fn trips_after(log: Seq<EventView>, from: int) -> bool {
    exists|j: int| from <= j < log.len() && #[trigger] is_trip(log[j])
}

pub open spec fn state_changed(state: MonitorState) -> EventView {
    EventView::MonitorStateChanged { state }
}

/// The control loop: one trigger, one condition, one action sequence and the guardrails, with
/// the state of the current run.
pub struct Monitor<X> {
    pub trigger: IntervalTrigger,
    pub condition: RegionCondition,
    pub actions: ActionSequence<X>,
    pub guardrails: Guardrails,
    /// When the current run started; `None` when stopped.
    pub started_at: Option<u64>,
    pub activations: u32,
    pub last_activation_at: Option<u64>,
    /// Activation times inside the rate-limit window, oldest first.
    pub activation_log: VecDeque<u64>,
    pub context: ActionContext,
    /// Heartbeat: when the action sequence was last started.
    pub last_action_progress: Option<u64>,
}

impl<X: Action> Monitor<X> {
    pub open spec fn wf(&self) -> bool {
        self.condition.wf() && self.context.wf()
    }

    pub open spec fn running(&self) -> bool {
        self.started_at is Some
    }

    pub open spec fn runtime_exceeded(&self, now: u64) -> bool {
        match (self.started_at, self.guardrails.max_runtime_ms) {
            (Some(s), Some(m)) => elapsed_ms(now, s) > m,
            _ => false,
        }
    }

    pub open spec fn heartbeat_stalled(&self, now: u64) -> bool {
        match (self.guardrails.heartbeat_timeout_ms, self.last_action_progress) {
            (Some(t), Some(p)) => elapsed_ms(now, p) > t,
            _ => false,
        }
    }

    /// Whether the last activation is more recent than the cooldown.
    pub open spec fn cooling(&self, now: u64) -> bool {
        match self.last_activation_at {
            Some(l) => elapsed_ms(now, l) < self.guardrails.cooldown_ms,
            None => false,
        }
    }

    pub open spec fn cooldown_left(&self, now: u64) -> nat {
        match self.last_activation_at {
            Some(l) => if elapsed_ms(now, l) < self.guardrails.cooldown_ms {
                (self.guardrails.cooldown_ms - elapsed_ms(now, l)) as nat
            } else {
                0
            },
            None => 0,
        }
    }

    /// The activation log as the rate limit sees it at `now`.
    pub open spec fn window(&self, now: u64) -> Seq<u64> {
        evict(self.activation_log@, now)
    }

    pub open spec fn rate_limited(&self, now: u64) -> bool {
        match self.guardrails.max_activations_per_hour {
            Some(m) => self.window(now).len() >= m,
            None => false,
        }
    }

    /// The timing event of a tick at `now`.
    pub open spec fn tick_event(&self, now: u64, met: bool) -> EventView {
        EventView::MonitorTick {
            next_check_ms: self.trigger.wait_ms(now) as u64,
            cooldown_remaining_ms: self.cooldown_left(now) as u64,
            condition_met: met,
        }
    }

    /// `self` after `stop`.
    pub open spec fn halted(&self) -> Monitor<X> {
        Monitor { started_at: None, last_activation_at: None, ..*self }
    }

    pub fn new(trigger: IntervalTrigger, condition: RegionCondition, actions: ActionSequence<X>, guardrails: Guardrails) -> (r: Monitor<X>)
        requires
            condition.wf(),
        ensures
            r.wf(),
            !r.running(),
            r.trigger == trigger,
            r.condition == condition,
            r.actions == actions,
            r.guardrails == guardrails,
            r.activations == 0,
            r.last_activation_at is None,
            r.activation_log@.len() == 0,
            r.last_action_progress is None,
            r.context.entries().len() == 0,
            !r.context.should_terminate,
    {
        Monitor {
            trigger,
            condition,
            actions,
            guardrails,
            started_at: None,
            activations: 0,
            last_activation_at: None,
            activation_log: VecDeque::new(),
            context: ActionContext::new(),
            last_action_progress: None,
        }
    }

    /// Starts a run at `now` with fresh run state.
    pub fn start(&mut self, now: u64, events: &mut Vec<Event>)
        requires
            old(self).wf(),
        ensures
            final(self).wf(),
            final(self).started_at == Some(now),
            final(self).activations == 0,
            final(self).last_activation_at is None,
            final(self).activation_log@.len() == 0,
            final(self).last_action_progress is None,
            final(self).context.entries().len() == 0,
            !final(self).context.should_terminate,
            final(self).context.termination_reason is None,
            final(self).trigger == old(self).trigger,
            final(self).condition == old(self).condition,
            final(self).actions == old(self).actions,
            final(self).guardrails == old(self).guardrails,
            log_view(final(events)@) == log_view(old(events)@).push(state_changed(MonitorState::Running)),
    {
        self.started_at = Some(now);
        self.activations = 0;
        self.last_activation_at = None;
        self.activation_log.clear();
        self.context = ActionContext::new();
        self.last_action_progress = None;
        let ghost before = events@;
        events.push(Event::MonitorStateChanged { state: MonitorState::Running });
        proof {
            assert(log_view(events@) =~= log_view(before).push(state_changed(MonitorState::Running)));
        }
    }

    /// Ends the run; activations and context stay for inspection.
    pub fn stop(&mut self, events: &mut Vec<Event>)
        ensures
            *final(self) == old(self).halted(),
            log_view(final(events)@) == log_view(old(events)@).push(state_changed(MonitorState::Stopped)),
    {
        self.started_at = None;
        self.last_activation_at = None;
        let ghost before = events@;
        events.push(Event::MonitorStateChanged { state: MonitorState::Stopped });
        proof {
            assert(log_view(events@) =~= log_view(before).push(state_changed(MonitorState::Stopped)));
        }
    }

    fn emit(events: &mut Vec<Event>, e: Event)
        ensures
            log_view(final(events)@) == log_view(old(events)@).push(e@),
    {
        let ghost before = events@;
        events.push(e);
        proof {
            assert(log_view(events@) =~= log_view(before).push(e@));
        }
    }

    fn watchdog_event(reason: &str) -> (e: Event)
        ensures
            e@ == watchdog(reason@),
    {
        Event::WatchdogTripped { reason: String::from_str(reason) }
    }

    fn cooldown_remaining(&self, now: u64) -> (r: u64)
        ensures
            r as nat == self.cooldown_left(now),
    {
        match self.last_activation_at {
            Some(l) => {
                let e = elapsed(now, l);
                if e < self.guardrails.cooldown_ms {
                    self.guardrails.cooldown_ms - e
                } else {
                    0
                }
            },
            None => 0,
        }
    }

    /// Reads the text of the first region carrying each configured id, in the configured
    /// order (`None` where no region carries the id or the read fails), and returns the first
    /// verdict among them.
    fn ocr_termination<S: ScreenCapture, O: OCRCapture>(&self, regions: &[Region], capture: &S, ocr: &O) -> (r: Option<String>)
        ensures
            exists|ts: Seq<Option<Seq<char>>>| {
                &&& ts.len() == self.guardrails.ocr_region_ids@.len()
                &&& forall|i: int| 0 <= i < ts.len() && !known(regions@, self.guardrails.ocr_region_ids@[i]@)
                    ==> #[trigger] ts[i] is None
                &&& opt_view(r) == self.guardrails.first_verdict_from(ts, 0)
            },
            match r {
                Some(reason) => exists|text: Seq<char>| self.guardrails.verdict(text) == Some(reason@),
                None => true,
            },
    {
        let ids = &self.guardrails.ocr_region_ids;
        let n = ids.len();
        let mut texts: Vec<Option<String>> = Vec::new();
        let mut i: usize = 0;
        while i < n
            invariant
                n == ids@.len(),
                i <= n,
                texts@.len() == i,
                forall|k: int| 0 <= k < i && !known(regions@, ids@[k]@) ==> #[trigger] texts@[k] is None,
            decreases n - i,
        {
            let mut j: usize = 0;
            let mut found: Option<usize> = None;
            while j < regions.len() && found.is_none()
                invariant
                    n == ids@.len(),
                    i < n,
                    j <= regions@.len(),
                    found matches Some(f) ==> f < regions@.len() && regions@[f as int].id@ == ids@[i as int]@,
                decreases regions@.len() - j + (if found is None { 1int } else { 0int }),
            {
                if text_eq(regions[j].id.as_str(), ids[i].as_str()) {
                    found = Some(j);
                } else {
                    j = j + 1;
                }
            }
            let mut text: Option<String> = None;
            if let Some(f) = found {
                let region = &regions[f];
                let h = capture.hash_region(region, 1);
                if let Ok(t) = ocr.extract_text_cached(region, h) {
                    text = Some(t);
                }
                proof {
                    assert(known(regions@, ids@[i as int]@));
                }
            }
            texts.push(text);
            i = i + 1;
        }
        self.guardrails.first_verdict(texts.as_slice())
    }

    /// Whether `new` follows `old` through steps after a met condition, with `rest` the events
    /// appended: a text-scan trip, a rate-limit trip, or a run of the action sequence followed by
    /// the termination check.
    pub open spec fn activated(old: Monitor<X>, new: Monitor<X>, now: u64, rest: Seq<EventView>) -> bool {
        &&& new.trigger == old.trigger
        &&& new.condition == old.condition
        &&& new.actions == old.actions
        &&& new.guardrails == old.guardrails
        &&& new.wf()
        &&& {
            ||| (old.guardrails.scans_text() && exists|reason: Seq<char>|
                (exists|text: Seq<char>| old.guardrails.verdict(text) == Some(reason))
                && rest == seq![#[trigger] watchdog(reason), state_changed(MonitorState::Stopped)]
                && new == old.halted())
            ||| (old.rate_limited(now)
                && rest == seq![watchdog("max_activations_per_hour"@)]
                && new.started_at == old.started_at
                && new.activations == old.activations
                && new.last_activation_at == old.last_activation_at
                && new.activation_log@ == old.window(now)
                && new.context == old.context
                && new.last_action_progress == old.last_action_progress)
            ||| (!old.rate_limited(now) && new.last_action_progress == Some(now)
                && exists|k: int, ok: bool, ran: Seq<EventView>, after: ActionContext|
                    #[trigger] run_outcome(old.actions.names(), k, ran, ok, after)
                    && new.context == after
                    && new.activations == (if ok { saturating_inc(old.activations) } else { old.activations })
                    && new.activation_log@ == (if old.guardrails.max_activations_per_hour is Some {
                        if ok { old.window(now).push(now) } else { old.window(now) }
                    } else {
                        old.activation_log@
                    })
                    && (if after.should_terminate {
                        &&& rest == ran + seq![watchdog(reason_or_default(after)), state_changed(MonitorState::Stopped)]
                        &&& new.started_at is None
                        &&& new.last_activation_at is None
                    } else {
                        &&& rest == ran
                        &&& new.started_at == old.started_at
                        &&& new.last_activation_at == (if ok { Some(now) } else { old.last_activation_at })
                    }))
        }
    }

    fn activate<S: ScreenCapture, O: OCRCapture, A: Automation>(
        &mut self,
        now: u64,
        regions: &[Region],
        capture: &S,
        ocr: &O,
        automation: &A,
        events: &mut Vec<Event>,
    )
        requires
            old(self).wf(),
        ensures
            exists|rest: Seq<EventView>|
                log_view(final(events)@) == log_view(old(events)@) + rest
                && #[trigger] Self::activated(*old(self), *final(self), now, rest),
            old(self).running() && !final(self).running() ==> trips_after(
                log_view(final(events)@),
                old(events)@.len() as int,
            ),
    {
        let ghost start = *self;
        let ghost base = log_view(events@);
        if self.guardrails.scans_text_exec() {
            let verdict = self.ocr_termination(regions, capture, ocr);
            if let Some(reason) = verdict {
                let ghost r = reason@;
                Self::emit(events, Event::WatchdogTripped { reason });
                self.stop(events);
                proof {
                    let rest = seq![watchdog(r), state_changed(MonitorState::Stopped)];
                    assert(log_view(events@) =~= base + rest);
                    assert(Self::activated(start, *self, now, rest));
                    assert(is_trip(log_view(events@)[base.len() as int]));
                }
                return;
            }
        }
        if let Some(max) = self.guardrails.max_activations_per_hour {
            loop
                invariant
                    self.wf(),
                    evict(self.activation_log@, now) == start.window(now),
                    self.trigger == start.trigger,
                    self.condition == start.condition,
                    self.actions == start.actions,
                    self.guardrails == start.guardrails,
                    self.started_at == start.started_at,
                    self.activations == start.activations,
                    self.last_activation_at == start.last_activation_at,
                    self.context == start.context,
                    self.last_action_progress == start.last_action_progress,
                    log_view(events@) == base,
                ensures
                    self.activation_log@ == start.window(now),
                decreases self.activation_log@.len(),
            {
                if self.activation_log.len() == 0 {
                    proof {
                        assert(evict(self.activation_log@, now) == self.activation_log@);
                    }
                    break;
                }
                let oldest = self.activation_log[0];
                if elapsed(now, oldest) > HOUR_MS {
                    let ghost before = self.activation_log@;
                    self.activation_log.pop_front();
                    proof {
                        assert(self.activation_log@ =~= before.drop_first());
                    }
                } else {
                    proof {
                        assert(evict(self.activation_log@, now) == self.activation_log@);
                    }
                    break;
                }
            }
            proof {
                assert(self.activation_log@ == start.window(now));
            }
            if self.activation_log.len() >= max as usize {
                Self::emit(events, Self::watchdog_event("max_activations_per_hour"));
                proof {
                    let rest = seq![watchdog("max_activations_per_hour"@)];
                    assert(log_view(events@) =~= base + rest);
                    assert(Self::activated(start, *self, now, rest));
                }
                return;
            }
        }
        let ghost window_log = self.activation_log@;
        proof {
            assert(!start.rate_limited(now));
            if start.guardrails.max_activations_per_hour is Some {
                assert(window_log == start.window(now));
            } else {
                assert(window_log == start.activation_log@);
            }
        }
        self.last_action_progress = Some(now);
        let ghost mid = events@;
        let ok = self.actions.run(automation, &mut self.context, events);
        let ghost ran = log_view(events@).subrange(mid.len() as int, events@.len() as int);
        let ghost k = choose|k: int| run_outcome(start.actions.names(), k, ran, ok, self.context);
        proof {
            assert(log_view(events@) =~= log_view(mid) + ran);
            assert(log_view(mid) == base);
        }
        if ok {
            self.activations = self.activations.saturating_add(1);
            self.last_activation_at = Some(now);
            if self.guardrails.max_activations_per_hour.is_some() {
                self.activation_log.push_back(now);
            }
        }
        if self.context.is_termination_requested() {
            let reason = match &self.context.termination_reason {
                Some(r) => r.clone(),
                None => String::from_str("termination_requested"),
            };
            let ghost after = self.context;
            Self::emit(events, Event::WatchdogTripped { reason });
            self.stop(events);
            proof {
                let rest = ran + seq![watchdog(reason_or_default(after)), state_changed(MonitorState::Stopped)];
                assert(log_view(events@) =~= base + rest);
                assert(is_trip(log_view(events@)[(base.len() + ran.len()) as int]));
                assert(run_outcome(start.actions.names(), k, ran, ok, self.context));
                assert(Self::activated(start, *self, now, rest));
            }
        } else {
            proof {
                assert(run_outcome(start.actions.names(), k, ran, ok, self.context));
                assert(Self::activated(start, *self, now, ran));
            }
        }
    }

    /// One scheduling step at `now`; does nothing when stopped.
    pub fn tick<S: ScreenCapture, O: OCRCapture, A: Automation>(
        &mut self,
        now: u64,
        regions: &[Region],
        capture: &S,
        ocr: &O,
        automation: &A,
        events: &mut Vec<Event>,
    )
        requires
            old(self).wf(),
        ensures
            final(self).wf(),
            !old(self).running() ==> *final(self) == *old(self) && final(events)@ == old(events)@,
            old(self).running() && old(self).runtime_exceeded(now) ==> {
                &&& *final(self) == old(self).halted()
                &&& log_view(final(events)@) == log_view(old(events)@) + seq![
                    watchdog("max_runtime"@),
                    state_changed(MonitorState::Stopped),
                ]
            },
            old(self).running() && !old(self).runtime_exceeded(now) && old(self).heartbeat_stalled(now) ==> {
                &&& *final(self) == old(self).halted()
                &&& log_view(final(events)@) == log_view(old(events)@) + seq![
                    watchdog("heartbeat_stalled"@),
                    state_changed(MonitorState::Stopped),
                ]
            },
            old(self).running() && !old(self).runtime_exceeded(now) && !old(self).heartbeat_stalled(now)
                && !old(self).trigger.fires(now) ==> {
                &&& *final(self) == *old(self)
                &&& log_view(final(events)@) == log_view(old(events)@).push(old(self).tick_event(now, false))
            },
            old(self).running() && !old(self).runtime_exceeded(now) && !old(self).heartbeat_stalled(now)
                && old(self).trigger.fires(now) && old(self).cooling(now) ==> {
                &&& *final(self) == Monitor { trigger: old(self).trigger.after(now), ..*old(self) }
                &&& log_view(final(events)@) == log_view(old(events)@) + seq![
                    EventView::TriggerFired,
                    old(self).tick_event(now, false),
                ]
            },
            old(self).running() && !old(self).runtime_exceeded(now) && !old(self).heartbeat_stalled(now)
                && old(self).trigger.fires(now) && !old(self).cooling(now) ==> exists|hs: Seq<u64>, rest: Seq<EventView>|
                #![trigger old(self).condition.polled(final(self).condition, region_ids(regions@), hs), rest.len()] {
                let ids = region_ids(regions@);
                let met = old(self).condition.met_after(ids, hs);
                let polled = Monitor {
                    trigger: old(self).trigger.after(now),
                    condition: final(self).condition,
                    ..*old(self)
                };
                &&& hs.len() == regions@.len()
                &&& old(self).condition.polled(final(self).condition, ids, hs)
                &&& log_view(final(events)@) == log_view(old(events)@) + seq![
                    EventView::TriggerFired,
                    EventView::ConditionEvaluated { result: met },
                    old(self).tick_event(now, met),
                ] + rest
                &&& !met ==> rest.len() == 0 && *final(self) == polled
                &&& met ==> Self::activated(polled, *final(self), now, rest)
            },
            old(self).running() && !final(self).running() ==> trips_after(
                log_view(final(events)@),
                old(events)@.len() as int,
            ),
    {
        if self.started_at.is_none() {
            return;
        }
        let ghost start = *self;
        let ghost base = log_view(events@);
        let next_check_ms = self.trigger.time_until_next_ms(now);
        let cooldown_remaining_ms = self.cooldown_remaining(now);
        let runtime_exceeded = match (self.started_at, self.guardrails.max_runtime_ms) {
            (Some(s), Some(m)) => elapsed(now, s) > m,
            _ => false,
        };
        if runtime_exceeded {
            Self::emit(events, Self::watchdog_event("max_runtime"));
            self.stop(events);
            proof {
                assert(log_view(events@) =~= base + seq![watchdog("max_runtime"@), state_changed(MonitorState::Stopped)]);
                assert(is_trip(log_view(events@)[base.len() as int]));
            }
            return;
        }
        let stalled = match (self.guardrails.heartbeat_timeout_ms, self.last_action_progress) {
            (Some(t), Some(p)) => elapsed(now, p) > t,
            _ => false,
        };
        if stalled {
            Self::emit(events, Self::watchdog_event("heartbeat_stalled"));
            self.stop(events);
            proof {
                assert(log_view(events@) =~= base + seq![watchdog("heartbeat_stalled"@), state_changed(MonitorState::Stopped)]);
                assert(is_trip(log_view(events@)[base.len() as int]));
            }
            return;
        }
        if !self.trigger.should_fire(now) {
            Self::emit(events, Event::MonitorTick { next_check_ms, cooldown_remaining_ms, condition_met: false });
            return;
        }
        Self::emit(events, Event::TriggerFired);
        let cooling = match self.last_activation_at {
            Some(l) => elapsed(now, l) < self.guardrails.cooldown_ms,
            None => false,
        };
        if cooling {
            Self::emit(events, Event::MonitorTick { next_check_ms, cooldown_remaining_ms, condition_met: false });
            proof {
                assert(log_view(events@) =~= base + seq![EventView::TriggerFired, start.tick_event(now, false)]);
            }
            return;
        }
        let cond = self.condition.evaluate(now, regions, capture);
        let ghost ids = region_ids(regions@);
        let ghost hs = choose|hs: Seq<u64>|
            hs.len() == regions@.len()
            && #[trigger] start.condition.polled(self.condition, ids, hs)
            && cond == start.condition.met_after(ids, hs);
        Self::emit(events, Event::ConditionEvaluated { result: cond });
        Self::emit(events, Event::MonitorTick { next_check_ms, cooldown_remaining_ms, condition_met: cond });
        let ghost head = seq![
            EventView::TriggerFired,
            EventView::ConditionEvaluated { result: cond },
            start.tick_event(now, cond),
        ];
        proof {
            assert(log_view(events@) =~= base + head);
        }
        if !cond {
            proof {
                assert(log_view(events@) =~= base + head + Seq::<EventView>::empty());
            }
            return;
        }
        let ghost polled = *self;
        let ghost mid = events@;
        self.activate(now, regions, capture, ocr, automation, events);
        proof {
            if start.running() && !self.running() {
                let j = choose|j: int| mid.len() <= j < log_view(events@).len() && #[trigger] is_trip(log_view(events@)[j]);
                assert(base.len() <= j);
            }
            let rest = choose|rest: Seq<EventView>|
                log_view(events@) == log_view(mid) + rest
                && #[trigger] Self::activated(polled, *self, now, rest);
            assert(log_view(events@) =~= base + head + rest);
        }
    }
}

/// Ends a run from outside the loop: a forced stop is reported as a `panic_stop` trip first;
/// the monitor is stopped if it was running. Returns the events.
pub fn finalize_monitor_shutdown<X: Action>(mon: &mut Monitor<X>, panic_stop: bool) -> (r: Vec<Event>)
    ensures
        *final(mon) == (if old(mon).running() { old(mon).halted() } else { *old(mon) }),
        log_view(r@) == (if panic_stop { seq![watchdog("panic_stop"@)] } else { Seq::empty() }) + (
        if old(mon).running() {
            seq![state_changed(MonitorState::Stopped)]
        } else {
            Seq::empty()
        }),
{
    let mut events: Vec<Event> = Vec::new();
    if panic_stop {
        events.push(Event::WatchdogTripped { reason: String::from_str("panic_stop") });
    }
    let ghost mid = events@;
    if mon.started_at.is_some() {
        mon.stop(&mut events);
    }
    proof {
        assert(log_view(events@) =~= (if panic_stop { seq![watchdog("panic_stop"@)] } else { Seq::empty() }) + (
        if old(mon).running() {
            seq![state_changed(MonitorState::Stopped)]
        } else {
            Seq::empty()
        }));
    }
    events
}

} // verus!
