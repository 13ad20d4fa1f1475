use std::sync::Mutex;

use loopautoma::{
    Action, ActionContext, ActionSequence, Automation, BackendError, Click, DisplayInfo, Event,
    IntervalTrigger, MouseButton, MoveCursor, Rect, Region, RegionCondition, ScreenCapture,
    ScreenFrame, TypeText,
};

struct FakeCap {
    seq: Vec<u64>,
}

impl ScreenCapture for FakeCap {
    fn hash_region(&self, _region: &Region, _downscale: u32) -> u64 {
        self.seq[0]
    }
    fn capture_region(&self, _region: &Region) -> Result<ScreenFrame, BackendError> {
        Err(BackendError::new("fake_capture", "hash-only test capture stub"))
    }
    fn displays(&self) -> Result<Vec<DisplayInfo>, BackendError> {
        Ok(vec![])
    }
}

struct FakeAuto {
    calls: Mutex<Vec<String>>,
}

impl FakeAuto {
    fn new() -> Self {
        Self { calls: Mutex::new(vec![]) }
    }
}

impl Automation for FakeAuto {
    fn move_cursor(&self, x: u32, y: u32) -> Result<(), String> {
        self.calls.lock().unwrap().push(format!("move:{x},{y}"));
        Ok(())
    }
    fn click(&self, button: MouseButton) -> Result<(), String> {
        self.calls.lock().unwrap().push(format!("click:{:?}", button));
        Ok(())
    }
    fn type_text(&self, text: &str) -> Result<(), String> {
        self.calls.lock().unwrap().push(format!("type:{text}"));
        Ok(())
    }
    fn key(&self, key: &str) -> Result<(), String> {
        self.calls.lock().unwrap().push(format!("key:{key}"));
        Ok(())
    }
}

/// Records pauses as well as input.
struct PausingAuto {
    calls: Mutex<Vec<String>>,
}

impl Automation for PausingAuto {
    fn move_cursor(&self, x: u32, y: u32) -> Result<(), String> {
        self.calls.lock().unwrap().push(format!("move:{x},{y}"));
        Ok(())
    }
    fn click(&self, _button: MouseButton) -> Result<(), String> {
        Ok(())
    }
    fn type_text(&self, text: &str) -> Result<(), String> {
        self.calls.lock().unwrap().push(format!("type:{text}"));
        Ok(())
    }
    fn key(&self, key: &str) -> Result<(), String> {
        self.calls.lock().unwrap().push(format!("key:{key}"));
        Ok(())
    }
    fn settle(&self, ms: u64) {
        self.calls.lock().unwrap().push(format!("settle:{ms}"));
    }
}

fn region(id: &str) -> Region {
    Region { id: id.into(), rect: Rect { x: 0, y: 0, width: 10, height: 10 }, name: None }
}

/// The steps used by the sequence tests, including one that always fails.
enum Step {
    Move(MoveCursor),
    Click(Click),
    Type(TypeText),
    Fail,
}

impl Action for Step {
    fn name(&self) -> &'static str {
        match self {
            Step::Move(a) => a.name(),
            Step::Click(a) => a.name(),
            Step::Type(a) => a.name(),
            Step::Fail => "Fail",
        }
    }
    fn execute<A: Automation>(&self, automation: &A, context: &mut ActionContext) -> Result<(), String> {
        match self {
            Step::Move(a) => a.execute(automation, context),
            Step::Click(a) => a.execute(automation, context),
            Step::Type(a) => a.execute(automation, context),
            Step::Fail => Err("intentional failure".into()),
        }
    }
}

#[test]
fn interval_trigger_fires_on_interval() {
    let mut t = IntervalTrigger::new(100);
    let t0 = 1_000;
    assert!(t.should_fire(t0));
    assert!(!t.should_fire(t0 + 50));
    assert!(t.should_fire(t0 + 100));
}

#[test]
fn interval_trigger_reports_time_until_next() {
    let mut t = IntervalTrigger::new(100);
    assert_eq!(t.time_until_next_ms(0), 0);
    assert!(t.should_fire(0));
    assert_eq!(t.time_until_next_ms(30), 70);
    assert_eq!(t.time_until_next_ms(100), 0);
    assert_eq!(t.time_until_next_ms(250), 0);
}

#[test]
fn region_condition_reports_stable_after_consecutive_checks() {
    let mut c = RegionCondition::new(4, false);
    let r = region("r1");
    let cap = FakeCap { seq: vec![42] };
    let t0 = 0;
    assert!(!c.evaluate(t0, &[r.clone()], &cap));
    assert!(!c.evaluate(t0 + 50, &[r.clone()], &cap));
    assert!(!c.evaluate(t0 + 100, &[r.clone()], &cap));
    assert!(c.evaluate(t0 + 150, &[r], &cap));
}

#[test]
fn region_condition_handles_empty_regions() {
    let mut c = RegionCondition::new(1, false);
    let cap = FakeCap { seq: vec![42] };
    assert!(c.evaluate(0, &[], &cap));
}

#[test]
fn region_condition_resets_on_hash_change() {
    let mut c = RegionCondition::new(4, false);
    let r = region("r1");
    let cap1 = FakeCap { seq: vec![42] };
    let t0 = 0;
    assert!(!c.evaluate(t0, &[r.clone()], &cap1));
    assert!(!c.evaluate(t0 + 50, &[r.clone()], &cap1));
    assert!(!c.evaluate(t0 + 100, &[r.clone()], &cap1));
    let cap2 = FakeCap { seq: vec![99] };
    assert!(!c.evaluate(t0 + 150, &[r.clone()], &cap2));
    assert!(!c.evaluate(t0 + 200, &[r.clone()], &cap2));
    assert!(!c.evaluate(t0 + 250, &[r.clone()], &cap2));
    assert!(!c.evaluate(t0 + 300, &[r.clone()], &cap2));
    assert!(c.evaluate(t0 + 350, &[r], &cap2));
}

#[test]
fn region_condition_expecting_change_fires_on_ongoing_change() {
    let mut c = RegionCondition::new(2, true);
    let r = [region("r1")];
    assert!(!c.evaluate_hashes(&r, &[1]));
    assert!(!c.evaluate_hashes(&r, &[2]));
    assert!(c.evaluate_hashes(&r, &[3]));
    assert!(!c.evaluate_hashes(&r, &[3]));
}

#[test]
fn region_condition_zero_checks_count_as_one() {
    let c = RegionCondition::new(0, false);
    assert_eq!(c.consecutive_checks, 1);
}

#[test]
fn action_sequence_runs_all_actions() {
    let auto = FakeAuto::new();
    let seq = ActionSequence::new(vec![
        Step::Move(MoveCursor { x: 10, y: 20 }),
        Step::Click(Click { button: MouseButton::Left }),
        Step::Type(TypeText { text: "continue".into() }),
        Step::Type(TypeText { text: "{Key:Enter}".into() }),
    ]);
    let mut events = vec![];
    let mut context = ActionContext::new();
    let ok = seq.run(&auto, &mut context, &mut events);
    assert!(ok);
    let calls = auto.calls.lock().unwrap().clone();
    assert_eq!(calls, vec!["move:10,20", "click:Left", "type:continue", "key:Enter"]);
    assert_eq!(events.iter().filter(|e| matches!(e, Event::ActionStarted { .. })).count(), 4);
    assert_eq!(
        events.iter().filter(|e| matches!(e, Event::ActionCompleted { success: true, .. })).count(),
        4
    );
}

#[test]
fn action_sequence_stops_on_first_failure() {
    let auto = FakeAuto::new();
    let seq = ActionSequence::new(vec![
        Step::Type(TypeText { text: "before".into() }),
        Step::Fail,
        Step::Type(TypeText { text: "after".into() }),
    ]);
    let mut events = vec![];
    let mut context = ActionContext::new();
    let ok = seq.run(&auto, &mut context, &mut events);
    assert!(!ok);
    let calls = auto.calls.lock().unwrap().clone();
    assert_eq!(calls, vec!["type:before"]);
    assert!(events.iter().any(|e| matches!(e, Event::Error { .. })));
    assert!(events
        .iter()
        .any(|e| matches!(e, Event::ActionCompleted { action, success: false } if action == "Fail")));
}

#[test]
fn action_sequence_failure_events_in_order() {
    let auto = FakeAuto::new();
    let seq = ActionSequence::new(vec![
        Step::Type(TypeText { text: "a".into() }),
        Step::Fail,
        Step::Type(TypeText { text: "b".into() }),
    ]);
    let mut events = vec![];
    let mut context = ActionContext::new();
    assert!(!seq.run(&auto, &mut context, &mut events));
    assert_eq!(events.len(), 5);
    assert!(matches!(&events[0], Event::ActionStarted { action } if action == "Type"));
    assert!(matches!(&events[1], Event::ActionCompleted { action, success: true } if action == "Type"));
    assert!(matches!(&events[2], Event::ActionStarted { action } if action == "Fail"));
    assert!(matches!(&events[3], Event::Error { message } if message == "action 'Fail': intentional failure"));
    assert!(matches!(&events[4], Event::ActionCompleted { action, success: false } if action == "Fail"));
}

#[test]
fn empty_action_sequence_succeeds_without_events() {
    let auto = FakeAuto::new();
    let seq: ActionSequence<Step> = ActionSequence::new(vec![]);
    let mut events = vec![];
    let mut context = ActionContext::new();
    assert!(seq.run(&auto, &mut context, &mut events));
    assert!(events.is_empty());
}

#[test]
fn type_action_expands_variables() {
    let auto = FakeAuto::new();
    let mut context = ActionContext::new();
    context.set("prompt", "test value");
    let action = TypeText { text: "$prompt".to_string() };
    let result = action.execute(&auto, &mut context);
    assert!(result.is_ok());
    let calls = auto.calls.lock().unwrap().clone();
    assert_eq!(calls, vec!["type:test value"]);
}

#[test]
fn type_action_expands_multiple_variables() {
    let auto = FakeAuto::new();
    let mut context = ActionContext::new();
    context.set("prompt", "hello");
    context.set("suffix", "world");
    let action = TypeText { text: "$prompt $suffix".to_string() };
    let result = action.execute(&auto, &mut context);
    assert!(result.is_ok());
    let calls = auto.calls.lock().unwrap().clone();
    assert_eq!(calls, vec!["type:hello world"]);
}

#[test]
fn type_action_key_syntax_through_variable() {
    let auto = FakeAuto::new();
    let mut context = ActionContext::new();
    context.set("submit", "{Key:Enter}");
    let action = TypeText { text: "$submit".to_string() };
    assert!(action.execute(&auto, &mut context).is_ok());
    let calls = auto.calls.lock().unwrap().clone();
    assert_eq!(calls, vec!["key:Enter"]);
}

#[test]
fn keystroke_for_classifies_text() {
    assert!(matches!(loopautoma::action::keystroke_for("{Key:Tab}"), loopautoma::Keystroke::Key(k) if k == "Tab"));
    assert!(matches!(loopautoma::action::keystroke_for("{Key:}"), loopautoma::Keystroke::Key(k) if k.is_empty()));
    assert!(matches!(loopautoma::action::keystroke_for("{Key:Tab"), loopautoma::Keystroke::Text(t) if t == "{Key:Tab"));
    assert!(matches!(loopautoma::action::keystroke_for("x{Key:Tab}"), loopautoma::Keystroke::Text(t) if t == "x{Key:Tab}"));
}

#[test]
fn action_context_stores_and_retrieves_variables() {
    let mut context = ActionContext::new();
    context.set("prompt", "test prompt");
    context.set("risk", "0.5");
    assert_eq!(context.get("prompt"), Some("test prompt"));
    assert_eq!(context.get("risk"), Some("0.5"));
    assert_eq!(context.get("nonexistent"), None);
}

#[test]
fn action_context_overwrites_existing_key() {
    let mut context = ActionContext::new();
    context.set("k", "one");
    context.set("k", "two");
    assert_eq!(context.get("k"), Some("two"));
    assert_eq!(context.variables.len(), 1);
}

#[test]
fn action_context_termination_request() {
    let mut context = ActionContext::new();
    assert!(!context.is_termination_requested());
    assert_eq!(context.termination_reason, None);
    context.request_termination("test reason");
    assert!(context.is_termination_requested());
    assert_eq!(context.termination_reason, Some("test reason".to_string()));
}

#[test]
fn action_context_expand_handles_missing_variables() {
    let context = ActionContext::new();
    let result = context.expand("Hello $prompt world");
    assert_eq!(result, "Hello $prompt world");
}

#[test]
fn action_context_expand_is_not_recursive() {
    let mut context = ActionContext::new();
    context.set("a", "$a$a");
    assert_eq!(context.expand("[$a]"), "[$a$a]");
}

#[test]
fn action_sequence_pauses_between_actions_only() {
    let auto = PausingAuto { calls: Mutex::new(vec![]) };
    let seq = ActionSequence::new(vec![
        Step::Move(MoveCursor { x: 1, y: 2 }),
        Step::Type(TypeText { text: "go".into() }),
    ]);
    let mut events = vec![];
    let mut context = ActionContext::new();
    assert!(seq.run(&auto, &mut context, &mut events));
    let calls = auto.calls.lock().unwrap().clone();
    assert_eq!(calls, vec!["move:1,2", "settle:50", "type:go"]);
}

#[test]
fn action_context_expand_single_pass() {
    let mut context = ActionContext::new();
    context.set("a", "$b");
    context.set("b", "x");
    assert_eq!(context.expand("$a"), "$b");
    assert_eq!(context.expand("$b-$a"), "x-$b");
    assert_eq!(context.expand("$$b"), "$x");
}
