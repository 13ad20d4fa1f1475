use std::sync::Mutex;

use loopautoma::{
    build_monitor_from_profile, finalize_monitor_shutdown, ActionConfig, ActionContext,
    ActionSequence, Automation, BackendError, ConditionConfig, DisplayInfo, Event, Guardrails,
    GuardrailsConfig, IntervalTrigger, MockLLMClient, Monitor, MonitorState, MouseButton, NoOcr,
    OcrMode, Profile, Rect, Region, RegionCondition, ScreenCapture, ScreenFrame, TriggerConfig,
    TypeText,
};

struct Cap(u64);

impl ScreenCapture for Cap {
    fn hash_region(&self, _r: &Region, _d: u32) -> u64 {
        self.0
    }
    fn capture_region(&self, _region: &Region) -> Result<ScreenFrame, BackendError> {
        Err(BackendError::new("fake_capture", "hash-only test capture stub"))
    }
    fn displays(&self) -> Result<Vec<DisplayInfo>, BackendError> {
        Ok(vec![])
    }
}

#[derive(Clone)]
struct CloneCap(u64);

impl ScreenCapture for CloneCap {
    fn hash_region(&self, _r: &Region, _d: u32) -> u64 {
        self.0
    }
    fn capture_region(&self, _region: &Region) -> Result<ScreenFrame, BackendError> {
        Err(BackendError::new("fake_capture", "hash-only test capture stub"))
    }
    fn displays(&self) -> Result<Vec<DisplayInfo>, BackendError> {
        Ok(vec![])
    }
}

struct FakeAuto {
    calls: Mutex<Vec<String>>,
}

impl FakeAuto {
    fn new() -> Self {
        Self { calls: Mutex::new(vec![]) }
    }
}

impl Automation for FakeAuto {
    fn move_cursor(&self, x: u32, y: u32) -> Result<(), String> {
        self.calls.lock().unwrap().push(format!("move:{x},{y}"));
        Ok(())
    }
    fn click(&self, button: MouseButton) -> Result<(), String> {
        self.calls.lock().unwrap().push(format!("click:{:?}", button));
        Ok(())
    }
    fn type_text(&self, text: &str) -> Result<(), String> {
        self.calls.lock().unwrap().push(format!("type:{text}"));
        Ok(())
    }
    fn key(&self, key: &str) -> Result<(), String> {
        self.calls.lock().unwrap().push(format!("key:{key}"));
        Ok(())
    }
}

/// A trigger that fires on every tick.
fn always_trigger() -> IntervalTrigger {
    IntervalTrigger::new(0)
}

fn guardrails(cooldown_ms: u64, max_runtime_ms: Option<u64>, max_per_hour: Option<u32>) -> Guardrails {
    Guardrails {
        cooldown_ms,
        max_runtime_ms,
        max_activations_per_hour: max_per_hour,
        heartbeat_timeout_ms: None,
        ocr_mode: OcrMode::default(),
        success_keywords: vec![],
        failure_keywords: vec![],
        ocr_termination_pattern: None,
        ocr_region_ids: vec![],
    }
}

fn typing(texts: &[&str]) -> ActionSequence<TypeText> {
    ActionSequence::new(texts.iter().map(|t| TypeText { text: t.to_string() }).collect())
}

fn small_region(id: &str) -> Region {
    Region { id: id.into(), rect: Rect { x: 0, y: 0, width: 1, height: 1 }, name: None }
}

fn profile(id: &str, name: &str, cooldown_ms: u64) -> Profile {
    Profile {
        id: id.into(),
        name: name.into(),
        regions: vec![Region {
            id: "r1".into(),
            rect: Rect { x: 0, y: 0, width: 10, height: 10 },
            name: None,
        }],
        trigger: TriggerConfig { kind: "IntervalTrigger".into(), check_interval_ms: 100 },
        condition: ConditionConfig {
            kind: "RegionCondition".into(),
            consecutive_checks: 1,
            expect_change: false,
        },
        actions: vec![
            ActionConfig::Type { text: "continue".into() },
            ActionConfig::Type { text: "{Key:Enter}".into() },
        ],
        guardrails: Some(GuardrailsConfig {
            max_runtime_ms: Some(10_000),
            max_activations_per_hour: Some(5),
            cooldown_ms,
            heartbeat_timeout_ms: None,
            success_keywords: vec![],
            failure_keywords: vec![],
            ocr_termination_pattern: None,
            ocr_region_ids: vec![],
            ocr_mode: OcrMode::default(),
        }),
    }
}

#[test]
fn monitor_activates_once_when_condition_true() {
    let mut monitor = Monitor::new(
        always_trigger(),
        RegionCondition::new(4, false),
        typing(&["continue", "{Key:Enter}"]),
        guardrails(0, None, Some(10)),
    );
    let r = Region { id: "r1".into(), rect: Rect { x: 0, y: 0, width: 10, height: 10 }, name: None };
    let cap = Cap(123);
    let auto = FakeAuto::new();
    let mut events = vec![];
    let t0 = 0;
    monitor.start(t0, &mut events);
    monitor.tick(t0, &[r.clone()], &cap, &NoOcr, &auto, &mut events);
    monitor.tick(t0 + 20, &[r.clone()], &cap, &NoOcr, &auto, &mut events);
    monitor.tick(t0 + 40, &[r.clone()], &cap, &NoOcr, &auto, &mut events);
    monitor.tick(t0 + 60, &[r], &cap, &NoOcr, &auto, &mut events);
    assert_eq!(monitor.activations, 1);
    let calls = auto.calls.lock().unwrap().clone();
    assert_eq!(calls, vec!["type:continue", "key:Enter"]);
}

#[test]
fn profile_driven_monitor_emits_events_and_respects_cooldown() {
    let p = profile("p1", "MVP", 100);
    let (mut mon, regions) = build_monitor_from_profile(&p, CloneCap(1), MockLLMClient::new(), NoOcr);
    let cap = Cap(1);
    let auto = FakeAuto::new();
    let mut events = vec![];
    mon.start(0, &mut events);
    assert!(matches!(events.last(), Some(Event::MonitorStateChanged { .. })));
    let t0 = 0;
    mon.tick(t0, &regions, &cap, &NoOcr, &auto, &mut events);
    mon.tick(t0 + 200, &regions, &cap, &NoOcr, &auto, &mut events);
    mon.tick(t0 + 400, &regions, &cap, &NoOcr, &auto, &mut events);
    mon.tick(t0 + 700, &regions, &cap, &NoOcr, &auto, &mut events);
    assert!(events.iter().any(|e| matches!(e, Event::TriggerFired)));
    assert!(events.iter().any(|e| matches!(e, Event::ConditionEvaluated { .. })));
    assert!(events.iter().any(|e| matches!(e, Event::ActionStarted { .. })));
    assert!(events.iter().any(|e| matches!(e, Event::ActionCompleted { success: true, .. })));
}

#[test]
fn guardrail_trips_on_max_runtime() {
    let mut m = Monitor::new(
        always_trigger(),
        RegionCondition::new(1, false),
        typing(&[]),
        guardrails(0, Some(1), None),
    );
    let r = small_region("r");
    let cap = Cap(0);
    let auto = FakeAuto::new();
    let mut evs = vec![];
    let t0 = 0;
    m.start(t0, &mut evs);
    m.tick(t0, &[r.clone()], &cap, &NoOcr, &auto, &mut evs);
    m.tick(t0 + 2, &[r], &cap, &NoOcr, &auto, &mut evs);
    assert!(evs.iter().any(|e| match e {
        Event::WatchdogTripped { reason } if reason == "max_runtime" => true,
        _ => false,
    }));
}

#[test]
fn guardrail_trips_on_max_activations_per_hour() {
    let mut m = Monitor::new(
        always_trigger(),
        RegionCondition::new(1, false),
        typing(&["x"]),
        guardrails(0, None, Some(1)),
    );
    let r = small_region("r");
    let cap = Cap(0);
    let auto = FakeAuto::new();
    let mut evs = vec![];
    let t0 = 0;
    m.start(t0, &mut evs);
    m.tick(t0, &[r.clone()], &cap, &NoOcr, &auto, &mut evs);
    m.tick(t0 + 1, &[r.clone()], &cap, &NoOcr, &auto, &mut evs);
    m.tick(t0 + 2, &[r], &cap, &NoOcr, &auto, &mut evs);
    assert!(evs.iter().any(|e| match e {
        Event::WatchdogTripped { reason } if reason == "max_activations_per_hour" => true,
        _ => false,
    }));
}

#[test]
fn max_activations_window_resets_after_an_hour() {
    let mut m = Monitor::new(
        always_trigger(),
        RegionCondition::new(1, false),
        typing(&["x"]),
        guardrails(0, None, Some(1)),
    );
    let r = small_region("r");
    let cap = Cap(0);
    let auto = FakeAuto::new();
    let mut evs = vec![];
    let t0 = 0;
    m.start(t0, &mut evs);
    m.tick(t0, &[r.clone()], &cap, &NoOcr, &auto, &mut evs);
    m.tick(t0 + 1, &[r.clone()], &cap, &NoOcr, &auto, &mut evs);
    m.tick(t0 + 2, &[r.clone()], &cap, &NoOcr, &auto, &mut evs);
    assert!(evs
        .iter()
        .any(|e| matches!(e, Event::WatchdogTripped { reason } if reason == "max_activations_per_hour")));
    let before = m.activations;
    m.tick(t0 + 3_600_000 + 5, &[r], &cap, &NoOcr, &auto, &mut evs);
    assert!(m.activations > before, "activation count should increase after one hour window");
}

#[test]
fn rate_limit_trip_keeps_monitor_running() {
    let mut m = Monitor::new(
        always_trigger(),
        RegionCondition::new(1, false),
        typing(&["x"]),
        guardrails(0, None, Some(1)),
    );
    let r = small_region("r");
    let cap = Cap(0);
    let auto = FakeAuto::new();
    let mut evs = vec![];
    m.start(0, &mut evs);
    m.tick(0, &[r.clone()], &cap, &NoOcr, &auto, &mut evs);
    m.tick(1, &[r.clone()], &cap, &NoOcr, &auto, &mut evs);
    assert_eq!(m.activations, 1);
    let mut evs = vec![];
    m.tick(2, &[r], &cap, &NoOcr, &auto, &mut evs);
    assert!(m.started_at.is_some());
    assert_eq!(m.activations, 1);
    assert!(matches!(evs.last(), Some(Event::WatchdogTripped { reason }) if reason == "max_activations_per_hour"));
    assert!(!evs.iter().any(|e| matches!(e, Event::MonitorStateChanged { .. })));
}

#[test]
fn e2e_happy_path_emits_expected_sequence() {
    let p = profile("p-e2e", "E2E Happy", 0);
    let (mut mon, regions) = build_monitor_from_profile(&p, CloneCap(42), MockLLMClient::new(), NoOcr);
    let cap = Cap(42);
    let auto = FakeAuto::new();
    let mut events = vec![];
    mon.start(0, &mut events);
    let t0 = 0;
    mon.tick(t0, &regions, &cap, &NoOcr, &auto, &mut events);
    mon.tick(t0 + 200, &regions, &cap, &NoOcr, &auto, &mut events);
    let idx_running = events
        .iter()
        .position(|e| matches!(e, Event::MonitorStateChanged { state } if *state == MonitorState::Running))
        .expect("running event");
    let idx_trigger = events.iter().position(|e| matches!(e, Event::TriggerFired)).expect("trigger");
    let idx_condition_true = events
        .iter()
        .position(|e| matches!(e, Event::ConditionEvaluated { result } if *result))
        .expect("condition true");
    let idx_action_start = events
        .iter()
        .position(|e| matches!(e, Event::ActionStarted { .. }))
        .expect("action started");
    let idx_action_done = events
        .iter()
        .position(|e| matches!(e, Event::ActionCompleted { success, .. } if *success))
        .expect("action completed");
    assert!(idx_running < idx_trigger, "Monitor should start before first trigger");
    assert!(idx_trigger <= idx_condition_true, "Trigger precedes condition evaluation true");
    assert!(idx_condition_true <= idx_action_start, "Condition true precedes first action start");
    assert!(idx_action_start <= idx_action_done, "Action start precedes completed");
}

#[test]
fn e2e_scenario_events_and_single_activation() {
    let p = profile("p-e2e", "E2E Scenario", 0);
    let (mut mon, regions) = build_monitor_from_profile(&p, CloneCap(42), MockLLMClient::new(), NoOcr);
    let cap = Cap(42);
    let auto = FakeAuto::new();
    let mut events = vec![];
    mon.start(0, &mut events);
    mon.tick(0, &regions, &cap, &NoOcr, &auto, &mut events);
    mon.tick(50, &regions, &cap, &NoOcr, &auto, &mut events);
    let kinds: Vec<String> = events
        .iter()
        .filter(|e| !matches!(e, Event::MonitorTick { .. }))
        .map(|e| match e {
            Event::MonitorStateChanged { state } => format!("state:{:?}", state),
            Event::TriggerFired => "trigger".to_string(),
            Event::ConditionEvaluated { result } => format!("cond:{result}"),
            Event::ActionStarted { action } => format!("start:{action}"),
            Event::ActionCompleted { action, success } => format!("done:{action}:{success}"),
            other => format!("{:?}", other),
        })
        .collect();
    assert_eq!(
        kinds,
        vec![
            "state:Running",
            "trigger",
            "cond:true",
            "start:Type",
            "done:Type:true",
            "start:Type",
            "done:Type:true",
        ]
    );
    assert_eq!(mon.activations, 1);
}

#[test]
fn soak_run_time_dilated_with_guardrails_stable() {
    let mut m = Monitor::new(
        always_trigger(),
        RegionCondition::new(1, false),
        typing(&["tick"]),
        guardrails(1, Some(5), Some(1_000_000)),
    );
    let r = small_region("r1");
    let cap = Cap(0);
    let auto = FakeAuto::new();
    let mut evs = vec![];
    m.start(0, &mut evs);
    let t0 = 0u64;
    for i in 0..100u64 {
        m.tick(t0 + i.min(10), &[r.clone()], &cap, &NoOcr, &auto, &mut evs);
    }
    assert!(evs.iter().any(|e| matches!(e, Event::WatchdogTripped { reason } if reason == "max_runtime")));
    assert!(evs
        .iter()
        .rev()
        .any(|e| matches!(e, Event::MonitorStateChanged { state } if *state == MonitorState::Stopped)));
    assert!(m.started_at.is_none(), "monitor should be fully stopped after guardrail trip");
}

#[test]
fn stopped_monitor_ignores_ticks() {
    let mut m = Monitor::new(always_trigger(), RegionCondition::new(1, false), typing(&["x"]), guardrails(0, Some(1), None));
    let r = small_region("r1");
    let cap = Cap(0);
    let auto = FakeAuto::new();
    let mut evs = vec![];
    m.start(0, &mut evs);
    m.tick(5, &[r.clone()], &cap, &NoOcr, &auto, &mut evs);
    assert!(m.started_at.is_none());
    let mut later = vec![];
    for t in 6..20 {
        m.tick(t, &[r.clone()], &cap, &NoOcr, &auto, &mut later);
    }
    assert!(later.is_empty());
    assert_eq!(m.activations, 0);
}

#[test]
fn heartbeat_stall_stops_monitor() {
    let mut g = guardrails(0, None, None);
    g.heartbeat_timeout_ms = Some(10);
    let mut m = Monitor::new(always_trigger(), RegionCondition::new(1, false), typing(&["x"]), g);
    let r = small_region("r1");
    let cap = Cap(0);
    let auto = FakeAuto::new();
    let mut evs = vec![];
    m.start(0, &mut evs);
    m.tick(0, &[r.clone()], &cap, &NoOcr, &auto, &mut evs);
    m.tick(1, &[r.clone()], &cap, &NoOcr, &auto, &mut evs);
    assert_eq!(m.last_action_progress, Some(1));
    let mut evs = vec![];
    m.tick(20, &[r], &cap, &NoOcr, &auto, &mut evs);
    assert!(m.started_at.is_none());
    assert!(matches!(&evs[0], Event::WatchdogTripped { reason } if reason == "heartbeat_stalled"));
    assert!(matches!(&evs[1], Event::MonitorStateChanged { state: MonitorState::Stopped }));
}

#[test]
fn panic_stop_helper_emits_watchdog_and_stop_state() {
    let mut m = Monitor::new(always_trigger(), RegionCondition::new(1, false), typing(&[]), guardrails(0, None, None));
    let mut evs = vec![];
    m.start(0, &mut evs);
    assert!(m.started_at.is_some());
    let shutdown_events = finalize_monitor_shutdown(&mut m, true);
    assert!(shutdown_events
        .iter()
        .any(|e| matches!(e, Event::WatchdogTripped { reason } if reason == "panic_stop")));
    assert!(shutdown_events
        .iter()
        .any(|e| matches!(e, Event::MonitorStateChanged { state } if *state == MonitorState::Stopped)));
    assert!(m.started_at.is_none());
    let graceful_events = finalize_monitor_shutdown(&mut m, false);
    assert!(graceful_events.iter().all(|e| !matches!(e, Event::WatchdogTripped { .. })));
}

#[test]
fn monitor_cooldown_prevents_immediate_reactivation() {
    let mut m = Monitor::new(always_trigger(), RegionCondition::new(1, false), typing(&["x"]), guardrails(100, None, None));
    let r = small_region("r");
    let cap = Cap(0);
    let auto = FakeAuto::new();
    let mut evs = vec![];
    m.start(0, &mut evs);
    let t0 = 0;
    m.tick(t0, &[r.clone()], &cap, &NoOcr, &auto, &mut evs);
    m.tick(t0 + 1, &[r.clone()], &cap, &NoOcr, &auto, &mut evs);
    assert_eq!(m.activations, 1);
    m.tick(t0 + 50, &[r.clone()], &cap, &NoOcr, &auto, &mut evs);
    assert_eq!(m.activations, 1);
    m.tick(t0 + 110, &[r], &cap, &NoOcr, &auto, &mut evs);
    assert_eq!(m.activations, 2);
}

#[test]
fn cooldown_suppression_emits_no_trip() {
    let mut m = Monitor::new(always_trigger(), RegionCondition::new(1, false), typing(&["x"]), guardrails(100, None, None));
    let r = small_region("r");
    let cap = Cap(0);
    let auto = FakeAuto::new();
    let mut evs = vec![];
    m.start(0, &mut evs);
    m.tick(0, &[r.clone()], &cap, &NoOcr, &auto, &mut evs);
    m.tick(1, &[r.clone()], &cap, &NoOcr, &auto, &mut evs);
    let mut evs = vec![];
    m.tick(50, &[r], &cap, &NoOcr, &auto, &mut evs);
    assert_eq!(evs.len(), 2);
    assert!(matches!(&evs[0], Event::TriggerFired));
    assert!(matches!(
        &evs[1],
        Event::MonitorTick { next_check_ms: 0, cooldown_remaining_ms: 50, condition_met: false }
    ));
}

#[test]
fn monitor_resets_context_on_start() {
    let mut mon = Monitor::new(
        IntervalTrigger::new(1000),
        RegionCondition::new(1, false),
        typing(&[]),
        Guardrails::default(),
    );
    mon.context.set("test", "value");
    assert_eq!(mon.context.get("test"), Some("value"));
    let mut events = vec![];
    mon.start(0, &mut events);
    assert_eq!(mon.context.get("test"), None, "Context should be reset on start");
}

#[test]
fn stop_keeps_activations_and_context() {
    let mut m = Monitor::new(always_trigger(), RegionCondition::new(1, false), typing(&["x"]), guardrails(0, None, None));
    let r = small_region("r");
    let cap = Cap(0);
    let auto = FakeAuto::new();
    let mut evs = vec![];
    m.start(0, &mut evs);
    m.tick(0, &[r], &cap, &NoOcr, &auto, &mut evs);
    m.context.set("note", "kept");
    m.stop(&mut evs);
    assert!(m.started_at.is_none());
    assert!(m.last_activation_at.is_none());
    assert_eq!(m.activations, 1);
    assert_eq!(m.context.get("note"), Some("kept"));
    assert!(matches!(evs.last(), Some(Event::MonitorStateChanged { state: MonitorState::Stopped })));
}

#[test]
fn guardrails_ocr_fields_default_to_empty() {
    let guardrails = Guardrails::default();
    assert!(guardrails.success_keywords.is_empty());
    assert!(guardrails.failure_keywords.is_empty());
    assert!(guardrails.ocr_termination_pattern.is_none());
    assert!(guardrails.ocr_region_ids.is_empty());
    assert!(matches!(guardrails.ocr_mode, OcrMode::Local));
}

#[test]
fn guardrails_text_verdict_orders_checks() {
    let mut g = Guardrails::default();
    g.success_keywords = vec!["done".into()];
    g.failure_keywords = vec!["FAIL(".into()];
    g.ocr_termination_pattern = Some("stop[0-9]".into());
    assert_eq!(g.text_verdict("all done here"), Some("ocr_success_pattern: done".to_string()));
    assert_eq!(g.text_verdict("it will fail(now)"), Some("ocr_failure_keyword: FAIL(".to_string()));
    assert_eq!(g.text_verdict("stop7"), Some("ocr_termination_pattern: stop[0-9]".to_string()));
    assert_eq!(g.text_verdict("nothing"), None);
}

#[test]
fn ocr_scan_stops_monitor_in_local_mode() {
    struct Ocr;
    impl loopautoma::OCRCapture for Ocr {
        fn extract_text(&self, _region: &Region) -> Result<String, BackendError> {
            Ok("BUILD SUCCESS".into())
        }
    }
    let mut g = Guardrails::default();
    g.success_keywords = vec!["SUCCESS".into()];
    g.ocr_region_ids = vec!["r1".into()];
    let mut m = Monitor::new(always_trigger(), RegionCondition::new(1, false), typing(&["x"]), g);
    let r = small_region("r1");
    let cap = Cap(0);
    let auto = FakeAuto::new();
    let mut evs = vec![];
    m.start(0, &mut evs);
    m.tick(0, &[r], &cap, &Ocr, &auto, &mut evs);
    assert!(m.started_at.is_none());
    assert!(evs
        .iter()
        .any(|e| matches!(e, Event::WatchdogTripped { reason } if reason == "ocr_success_pattern: SUCCESS")));
    assert_eq!(m.activations, 0);
    assert!(auto.calls.lock().unwrap().is_empty());
}

#[test]
fn context_default_is_empty() {
    let c = ActionContext::new();
    assert!(c.variables.is_empty());
    assert!(!c.should_terminate);
}
