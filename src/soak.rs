use vstd::prelude::*;
use crate::action::{ActionSequence, TypeText};
use crate::condition::RegionCondition;
use crate::domain::{Event, NoOcr, Rect, Region};
use crate::fakes::{FakeAutomation, FakeCapture};
use crate::guardrails::Guardrails;
use crate::domain::log_view;
use crate::monitor::{finalize_monitor_shutdown, is_trip, Monitor};
use crate::trigger::IntervalTrigger;

verus! {

/// A long simulated run against the fake backends; times are in milliseconds.
#[derive(Debug, Clone, Copy)]
pub struct SoakConfig {
    /// Most ticks to run.
    pub ticks: u64,
    /// Simulated time between ticks.
    pub interval_ms: u64,
    /// Trigger interval.
    pub check_interval_ms: u64,
    pub cooldown_ms: u64,
    pub max_runtime_ms: u64,
}

impl Default for SoakConfig {
    fn default() -> (r: SoakConfig)
        ensures
            r.ticks == 25000,
            r.interval_ms == 100,
            r.check_interval_ms == 100,
            r.cooldown_ms == 50,
            r.max_runtime_ms == 2000,
    {
        SoakConfig { ticks: 25000, interval_ms: 100, check_interval_ms: 100, cooldown_ms: 50, max_runtime_ms: 2000 }
    }
}

/// What a soak run observed.
#[derive(Debug, Clone)]
pub struct SoakReport {
    pub tick_budget: u64,
    pub ticks_executed: u64,
    pub activations: u32,
    /// Reasons of the guardrail trips, in order.
    pub guardrail_trips: Vec<String>,
    /// Messages of the error events, in order.
    pub error_events: Vec<String>,
    pub action_failures: u32,
    pub runtime_ms_simulated: u128,
}

/// The reasons of the watchdog trips among `events`, in order.
pub open spec fn trip_reasons(events: Seq<Event>) -> Seq<Seq<char>>
    decreases events.len(),
{
    if events.len() == 0 {
        Seq::empty()
    } else {
        trip_reasons(events.drop_last()) + match events.last() {
            Event::WatchdogTripped { reason } => seq![reason@],
            _ => Seq::empty(),
        }
    }
}

/// The messages of the error events among `events`, in order.
pub open spec fn error_messages(events: Seq<Event>) -> Seq<Seq<char>>
    decreases events.len(),
{
    if events.len() == 0 {
        Seq::empty()
    } else {
        error_messages(events.drop_last()) + match events.last() {
            Event::Error { message } => seq![message@],
            _ => Seq::empty(),
        }
    }
}

/// How many actions among `events` completed without success.
pub open spec fn failure_count(events: Seq<Event>) -> nat
    decreases events.len(),
{
    if events.len() == 0 {
        0
    } else {
        failure_count(events.drop_last()) + match events.last() {
            Event::ActionCompleted { success, .. } => if !success { 1nat } else { 0nat },
            _ => 0nat,
        }
    }
}

pub open spec fn texts_of(v: Seq<String>) -> Seq<Seq<char>> {
    v.map_values(|s: String| s@)
}

proof fn lemma_trip_is_reported(events: Seq<Event>, j: int)
    requires
        0 <= j < events.len(),
        events[j] is WatchdogTripped,
    ensures
        trip_reasons(events).len() > 0,
    decreases events.len(),
{
    if j < events.len() - 1 {
        lemma_trip_is_reported(events.drop_last(), j);
    }
}

impl SoakReport {
    pub fn new(budget: u64) -> (r: SoakReport)
        ensures
            r.tick_budget == budget,
            r.ticks_executed == 0,
            r.activations == 0,
            r.guardrail_trips@.len() == 0,
            r.error_events@.len() == 0,
            r.action_failures == 0,
            r.runtime_ms_simulated == 0,
    {
        SoakReport {
            tick_budget: budget,
            ticks_executed: 0,
            activations: 0,
            guardrail_trips: Vec::new(),
            error_events: Vec::new(),
            action_failures: 0,
            runtime_ms_simulated: 0,
        }
    }
}

/// Adds the trips, errors and failed actions among `events` to the report; the failure count
/// saturates.
pub fn process_events(report: &mut SoakReport, events: Vec<Event>)
    ensures
        texts_of(final(report).guardrail_trips@) == texts_of(old(report).guardrail_trips@) + trip_reasons(events@),
        texts_of(final(report).error_events@) == texts_of(old(report).error_events@) + error_messages(events@),
        final(report).action_failures as nat == if old(report).action_failures as nat + failure_count(events@) > u32::MAX {
            u32::MAX as nat
        } else {
            old(report).action_failures as nat + failure_count(events@)
        },
        final(report).tick_budget == old(report).tick_budget,
        final(report).ticks_executed == old(report).ticks_executed,
        final(report).activations == old(report).activations,
        final(report).runtime_ms_simulated == old(report).runtime_ms_simulated,
{
    let n = events.len();
    let mut i: usize = 0;
    while i < n
        invariant
            n == events@.len(),
            i <= n,
            texts_of(report.guardrail_trips@) == texts_of(old(report).guardrail_trips@) + trip_reasons(events@.subrange(0, i as int)),
            texts_of(report.error_events@) == texts_of(old(report).error_events@) + error_messages(events@.subrange(0, i as int)),
            report.action_failures as nat == if old(report).action_failures as nat + failure_count(events@.subrange(0, i as int)) > u32::MAX {
                u32::MAX as nat
            } else {
                old(report).action_failures as nat + failure_count(events@.subrange(0, i as int))
            },
            report.tick_budget == old(report).tick_budget,
            report.ticks_executed == old(report).ticks_executed,
            report.activations == old(report).activations,
            report.runtime_ms_simulated == old(report).runtime_ms_simulated,
        decreases n - i,
    {
        let ghost pre = events@.subrange(0, i as int);
        let ghost cur = events@.subrange(0, i + 1);
        proof {
            assert(cur.drop_last() =~= pre);
            assert(cur.last() == events@[i as int]);
        }
        let ghost trips = report.guardrail_trips@;
        let ghost errs = report.error_events@;
        match &events[i] {
            Event::WatchdogTripped { reason } => {
                report.guardrail_trips.push(reason.clone());
                proof {
                    assert(texts_of(report.guardrail_trips@) =~= texts_of(trips).push(reason@));
                }
            },
            Event::Error { message } => {
                report.error_events.push(message.clone());
                proof {
                    assert(texts_of(report.error_events@) =~= texts_of(errs).push(message@));
                }
            },
            Event::ActionCompleted { success, .. } => {
                if !*success {
                    report.action_failures = report.action_failures.saturating_add(1);
                }
            },
            _ => {},
        }
        proof {
            assert(texts_of(report.guardrail_trips@) =~= texts_of(old(report).guardrail_trips@) + trip_reasons(cur));
            assert(texts_of(report.error_events@) =~= texts_of(old(report).error_events@) + error_messages(cur));
        }
        i = i + 1;
    }
    proof {
        assert(events@.subrange(0, n as int) =~= events@);
    }
}

fn soak_monitor(config: &SoakConfig) -> (r: Monitor<TypeText>)
    ensures
        r.wf(),
        !r.running(),
{
    let interval = if config.check_interval_ms < 100 {
        100
    } else if config.check_interval_ms > 86400000 {
        86400000
    } else {
        config.check_interval_ms
    };
    let per_hour_wide = 3600000u64 / (if config.cooldown_ms >= 1 { config.cooldown_ms } else { 1 });
    let per_hour: u32 = if per_hour_wide < 1 {
        1
    } else if per_hour_wide > u32::MAX as u64 {
        u32::MAX
    } else {
        per_hour_wide as u32
    };
    let mut guardrails = Guardrails::default();
    guardrails.max_runtime_ms = Some(config.max_runtime_ms);
    guardrails.max_activations_per_hour = Some(per_hour);
    guardrails.cooldown_ms = config.cooldown_ms;
    let mut actions: Vec<TypeText> = Vec::new();
    actions.push(TypeText { text: String::from_str("continue") });
    actions.push(TypeText { text: String::from_str("{Key:Enter}") });
    Monitor::new(
        IntervalTrigger::new(interval),
        RegionCondition::new(1, false),
        ActionSequence::new(actions),
        guardrails,
    )
}

/// Runs a monitor on fake backends for up to `config.ticks` ticks of simulated time, stopping
/// early once the monitor stops, and reports what happened.
pub fn run_soak(config: &SoakConfig) -> (r: SoakReport)
    ensures
        r.tick_budget == config.ticks,
        r.ticks_executed <= config.ticks,
        config.ticks > 0 ==> r.ticks_executed > 0,
        r.ticks_executed < config.ticks ==> r.guardrail_trips@.len() > 0,
        r.runtime_ms_simulated == r.ticks_executed as u128 * config.interval_ms as u128,
{
    let mut monitor = soak_monitor(config);
    let mut regions: Vec<Region> = Vec::new();
    regions.push(Region {
        id: String::from_str("soak-region"),
        rect: Rect { x: 0, y: 0, width: 640, height: 400 },
        name: Some(String::from_str("Soak")),
    });
    let capture = FakeCapture;
    let automation = FakeAutomation;
    let ocr = NoOcr;
    let mut report = SoakReport::new(config.ticks);
    let mut events: Vec<Event> = Vec::new();
    let mut now: u64 = 0;
    monitor.start(now, &mut events);
    process_events(&mut report, events);
    let mut t: u64 = 0;
    while t < config.ticks && monitor.started_at.is_some()
        invariant
            monitor.wf(),
            t <= config.ticks,
            report.ticks_executed == t,
            report.tick_budget == config.ticks,
            t == 0 ==> monitor.running(),
            !monitor.running() ==> report.guardrail_trips@.len() > 0,
        decreases config.ticks - t,
    {
        let mut tick_events: Vec<Event> = Vec::new();
        monitor.tick(now, regions.as_slice(), &capture, &ocr, &automation, &mut tick_events);
        proof {
            if !monitor.running() {
                let j = choose|j: int| 0 <= j < log_view(tick_events@).len() && #[trigger] is_trip(log_view(tick_events@)[j]);
                assert(log_view(tick_events@)[j] == tick_events@[j]@);
                lemma_trip_is_reported(tick_events@, j);
            }
        }
        let ghost ev = tick_events@;
        report.ticks_executed = report.ticks_executed + 1;
        process_events(&mut report, tick_events);
        proof {
            assert(texts_of(report.guardrail_trips@).len() == report.guardrail_trips@.len());
            if !monitor.running() {
                assert(trip_reasons(ev).len() > 0);
            }
        }
        t = t + 1;
        now = now.saturating_add(config.interval_ms);
    }
    if monitor.started_at.is_some() {
        let shutdown = finalize_monitor_shutdown(&mut monitor, false);
        let ghost trips = report.guardrail_trips@;
        process_events(&mut report, shutdown);
        proof {
            assert(texts_of(report.guardrail_trips@).len() == report.guardrail_trips@.len());
            assert(texts_of(trips).len() == trips.len());
        }
    }
    report.activations = monitor.activations;
    proof {
        let a = report.ticks_executed as int;
        let b = config.interval_ms as int;
        assert(a * b <= u128::MAX) by (nonlinear_arith)
            requires 0 <= a <= u64::MAX, 0 <= b <= u64::MAX;
    }
    report.runtime_ms_simulated = report.ticks_executed as u128 * config.interval_ms as u128;
    report
}

} // verus!
