use vstd::prelude::*;
use crate::action::{Action, ActionSequence, Click, MoveCursor, TypeText};
use crate::condition::RegionCondition;
use crate::context::ActionContext;
use crate::domain::{Automation, MouseButton, OCRCapture, OcrMode, Rect, Region, ScreenCapture};
use crate::guardrails::Guardrails;
use crate::llm::{copy_region, LLMClient, LLMPromptGenerationAction};
use crate::monitor::Monitor;
use crate::termination::TerminationCheckAction;
use crate::trigger::IntervalTrigger;

verus! {

/// Shortest trigger interval a profile can ask for.
pub const MIN_INTERVAL_MS: u64 = 100;

/// Longest trigger interval a profile can ask for: one day.
pub const MAX_INTERVAL_MS: u64 = 86400000;

#[derive(Debug, Clone)]
pub struct TriggerConfig {
    pub kind: String,
    pub check_interval_ms: u64,
}

#[derive(Debug, Clone)]
pub struct ConditionConfig {
    pub kind: String,
    pub consecutive_checks: u32,
    pub expect_change: bool,
}

/// One configured step of a profile. The risk threshold is in millionths.
#[derive(Debug, Clone)]
pub enum ActionConfig {
    Click { x: u32, y: u32, button: MouseButton },
    Type { text: String },
    LLMPromptGeneration {
        region_ids: Vec<String>,
        risk_threshold: u64,
        system_prompt: Option<String>,
        variable_name: Option<String>,
        ocr_mode: OcrMode,
    },
    TerminationCheck {
        check_type: String,
        context_vars: Vec<String>,
        ocr_region_ids: Vec<String>,
        ai_query_prompt: Option<String>,
        termination_condition: String,
    },
}

#[derive(Debug, Clone)]
pub struct GuardrailsConfig {
    pub max_runtime_ms: Option<u64>,
    pub max_activations_per_hour: Option<u32>,
    pub cooldown_ms: u64,
    pub heartbeat_timeout_ms: Option<u64>,
    pub ocr_mode: OcrMode,
    pub success_keywords: Vec<String>,
    pub failure_keywords: Vec<String>,
    pub ocr_termination_pattern: Option<String>,
    pub ocr_region_ids: Vec<String>,
}

/// A stored automation profile.
#[derive(Debug, Clone)]
pub struct Profile {
    pub id: String,
    pub name: String,
    pub regions: Vec<Region>,
    pub trigger: TriggerConfig,
    pub condition: ConditionConfig,
    pub actions: Vec<ActionConfig>,
    pub guardrails: Option<GuardrailsConfig>,
}

/// The actions a profile can hold.
pub enum ProfileAction<S, L, O> {
    MoveCursor(MoveCursor),
    Click(Click),
    Type(TypeText),
    LLMPromptGeneration(LLMPromptGenerationAction<S, L, O>),
    TerminationCheck(TerminationCheckAction<S, L, O>),
}

impl<S: ScreenCapture, L: LLMClient, O: OCRCapture> Action for ProfileAction<S, L, O> {
    open spec fn label(&self) -> Seq<char> {
        match self {
            ProfileAction::MoveCursor(a) => a.label(),
            ProfileAction::Click(a) => a.label(),
            ProfileAction::Type(a) => a.label(),
            ProfileAction::LLMPromptGeneration(a) => a.label(),
            ProfileAction::TerminationCheck(a) => a.label(),
        }
    }

    fn name(&self) -> (r: &'static str) {
        match self {
            ProfileAction::MoveCursor(a) => a.name(),
            ProfileAction::Click(a) => a.name(),
            ProfileAction::Type(a) => a.name(),
            ProfileAction::LLMPromptGeneration(a) => a.name(),
            ProfileAction::TerminationCheck(a) => a.name(),
        }
    }

    fn execute<A: Automation>(&self, automation: &A, context: &mut ActionContext) -> (r: Result<(), String>) {
        match self {
            ProfileAction::MoveCursor(a) => a.execute(automation, context),
            ProfileAction::Click(a) => a.execute(automation, context),
            ProfileAction::Type(a) => a.execute(automation, context),
            ProfileAction::LLMPromptGeneration(a) => a.execute(automation, context),
            ProfileAction::TerminationCheck(a) => a.execute(automation, context),
        }
    }
}

/// The action names that a list of configured steps expands to; a click is a move then a click.
pub open spec fn config_names(cfgs: Seq<ActionConfig>) -> Seq<Seq<char>>
    decreases cfgs.len(),
{
    if cfgs.len() == 0 {
        Seq::empty()
    } else {
        config_names(cfgs.drop_last()) + match cfgs.last() {
            ActionConfig::Click { .. } => seq!["MoveCursor"@, "Click"@],
            ActionConfig::Type { .. } => seq!["Type"@],
            ActionConfig::LLMPromptGeneration { .. } => seq!["LLMPromptGeneration"@],
            ActionConfig::TerminationCheck { .. } => seq!["TerminationCheck"@],
        }
    }
}

/// The trigger interval a profile asks for, held between 100 ms and one day.
pub open spec fn clamped_interval(ms: u64) -> u64 {
    if ms < MIN_INTERVAL_MS {
        MIN_INTERVAL_MS
    } else if ms > MAX_INTERVAL_MS {
        MAX_INTERVAL_MS
    } else {
        ms
    }
}

fn copy_strings(v: &Vec<String>) -> (r: Vec<String>)
    ensures
        r@ == v@,
{
    let mut out: Vec<String> = Vec::new();
    let n = v.len();
    let mut i: usize = 0;
    while i < n
        invariant
            n == v@.len(),
            i <= n,
            out@ == v@.subrange(0, i as int),
        decreases n - i,
    {
        out.push(v[i].clone());
        proof {
            assert(out@ =~= v@.subrange(0, i + 1));
        }
        i = i + 1;
    }
    proof {
        assert(out@ =~= v@);
    }
    out
}

fn copy_regions(v: &Vec<Region>) -> (r: Vec<Region>)
    ensures
        r@ == v@,
{
    let mut out: Vec<Region> = Vec::new();
    let n = v.len();
    let mut i: usize = 0;
    while i < n
        invariant
            n == v@.len(),
            i <= n,
            out@ == v@.subrange(0, i as int),
        decreases n - i,
    {
        out.push(copy_region(&v[i]));
        proof {
            assert(out@ =~= v@.subrange(0, i + 1));
        }
        i = i + 1;
    }
    proof {
        assert(out@ =~= v@);
    }
    out
}

fn copy_text(o: &Option<String>) -> (r: Option<String>)
    ensures
        r == *o,
{
    match o {
        Some(t) => Some(t.clone()),
        None => None,
    }
}

/// `g` holds the guardrails that `cfg` configures, or the defaults when it configures none.
pub open spec fn guardrails_of(cfg: Option<GuardrailsConfig>, g: Guardrails) -> bool {
    match cfg {
        Some(c) => {
            &&& g.cooldown_ms == c.cooldown_ms
            &&& g.max_runtime_ms == c.max_runtime_ms
            &&& g.max_activations_per_hour == c.max_activations_per_hour
            &&& g.heartbeat_timeout_ms == c.heartbeat_timeout_ms
            &&& g.ocr_mode == c.ocr_mode
            &&& g.success_keywords@ == c.success_keywords@
            &&& g.failure_keywords@ == c.failure_keywords@
            &&& g.ocr_termination_pattern == c.ocr_termination_pattern
            &&& g.ocr_region_ids@ == c.ocr_region_ids@
        },
        None => {
            &&& g.cooldown_ms == 0
            &&& g.max_runtime_ms is None
            &&& g.max_activations_per_hour is None
            &&& g.heartbeat_timeout_ms is None
            &&& g.ocr_mode == OcrMode::Local
            &&& g.success_keywords@.len() == 0
            &&& g.failure_keywords@.len() == 0
            &&& g.ocr_termination_pattern is None
            &&& g.ocr_region_ids@.len() == 0
        },
    }
}

/// How many actions a configured step becomes.
pub open spec fn step_count(cfg: ActionConfig) -> int {
    match cfg {
        ActionConfig::Click { .. } => 2,
        _ => 1,
    }
}

/// `steps` are the actions built from the configured step `cfg`, over the profile's `regions`.
pub open spec fn built_step<S, L, O>(cfg: ActionConfig, steps: Seq<ProfileAction<S, L, O>>, regions: Seq<Region>) -> bool {
    match cfg {
        ActionConfig::Click { x, y, button } => steps.len() == 2 && steps[0] == ProfileAction::<S, L, O>::MoveCursor(
            MoveCursor { x, y },
        ) && steps[1] == ProfileAction::<S, L, O>::Click(Click { button }),
        ActionConfig::Type { text } => steps.len() == 1 && (steps[0] matches ProfileAction::Type(t) && t.text == text),
        ActionConfig::LLMPromptGeneration { region_ids, risk_threshold, system_prompt, variable_name, ocr_mode } =>
            steps.len() == 1 && (steps[0] matches ProfileAction::LLMPromptGeneration(a)
            && a.region_ids@ == region_ids@ && a.risk_threshold == risk_threshold
            && a.system_prompt == system_prompt && a.variable_name@ == (match variable_name {
                Some(v) => v@,
                None => "prompt"@,
            }) && a.ocr_mode == ocr_mode && a.all_regions@ == regions),
        ActionConfig::TerminationCheck { check_type, context_vars, ocr_region_ids, ai_query_prompt, termination_condition } =>
            steps.len() == 1 && (steps[0] matches ProfileAction::TerminationCheck(a)
            && a.check_type == check_type && a.context_vars@ == context_vars@
            && a.ocr_region_ids@ == ocr_region_ids@ && a.ai_query_prompt == ai_query_prompt
            && a.termination_condition == termination_condition && a.all_regions@ == regions),
    }
}

/// `acts` are the actions built, in order, from the configured steps `cfgs`.
pub open spec fn built_from<S, L, O>(cfgs: Seq<ActionConfig>, acts: Seq<ProfileAction<S, L, O>>, regions: Seq<Region>) -> bool
    decreases cfgs.len(),
{
    if cfgs.len() == 0 {
        acts.len() == 0
    } else {
        let k = step_count(cfgs.last());
        &&& acts.len() >= k
        &&& built_from(cfgs.drop_last(), acts.subrange(0, acts.len() - k), regions)
        &&& built_step(cfgs.last(), acts.subrange(acts.len() - k, acts.len() as int), regions)
    }
}

/// The guardrails a profile configures, or the defaults when it configures none.
pub fn guardrails_from(cfg: &Option<GuardrailsConfig>) -> (g: Guardrails)
    ensures
        guardrails_of(*cfg, g),
{
    match cfg {
        Some(c) => Guardrails {
            cooldown_ms: c.cooldown_ms,
            max_runtime_ms: c.max_runtime_ms,
            max_activations_per_hour: c.max_activations_per_hour,
            heartbeat_timeout_ms: c.heartbeat_timeout_ms,
            ocr_mode: c.ocr_mode,
            success_keywords: copy_strings(&c.success_keywords),
            failure_keywords: copy_strings(&c.failure_keywords),
            ocr_termination_pattern: copy_text(&c.ocr_termination_pattern),
            ocr_region_ids: copy_strings(&c.ocr_region_ids),
        },
        None => Guardrails::default(),
    }
}

/// Builds a stopped monitor and its region list from a profile. Each collaborator is handed,
/// as a copy, to the steps that need it.
pub fn build_monitor_from_profile<S: ScreenCapture + Clone, L: LLMClient + Clone, O: OCRCapture + Clone>(
    p: &Profile,
    capture: S,
    llm_client: L,
    ocr: O,
) -> (r: (Monitor<ProfileAction<S, L, O>>, Vec<Region>))
    ensures
        r.0.wf(),
        !r.0.running(),
        r.0.trigger.interval_ms == clamped_interval(p.trigger.check_interval_ms),
        r.0.trigger.last is None,
        r.0.condition.consecutive_checks == (if p.condition.consecutive_checks >= 1 {
            p.condition.consecutive_checks
        } else {
            1
        }),
        r.0.condition.expect_change == p.condition.expect_change,
        r.0.condition.last_had_change is None,
        r.0.actions.names() == config_names(p.actions@),
        built_from(p.actions@, r.0.actions.actions@, p.regions@),
        guardrails_of(p.guardrails, r.0.guardrails),
        r.0.activations == 0,
        r.1@ == p.regions@,
{
    let ms = p.trigger.check_interval_ms;
    let interval = if ms < MIN_INTERVAL_MS {
        MIN_INTERVAL_MS
    } else if ms > MAX_INTERVAL_MS {
        MAX_INTERVAL_MS
    } else {
        ms
    };
    let trigger = IntervalTrigger::new(interval);
    let condition = RegionCondition::new(p.condition.consecutive_checks, p.condition.expect_change);
    let mut acts: Vec<ProfileAction<S, L, O>> = Vec::new();
    let n = p.actions.len();
    let mut i: usize = 0;
    while i < n
        invariant
            n == p.actions@.len(),
            i <= n,
            acts@.map_values(|a: ProfileAction<S, L, O>| a.label()) == config_names(p.actions@.subrange(0, i as int)),
            built_from(p.actions@.subrange(0, i as int), acts@, p.regions@),
        decreases n - i,
    {
        let ghost before = acts@;
        match &p.actions[i] {
            ActionConfig::Click { x, y, button } => {
                acts.push(ProfileAction::MoveCursor(MoveCursor { x: *x, y: *y }));
                acts.push(ProfileAction::Click(Click { button: *button }));
            },
            ActionConfig::Type { text } => {
                acts.push(ProfileAction::Type(TypeText { text: text.clone() }));
            },
            ActionConfig::LLMPromptGeneration { region_ids, risk_threshold, system_prompt, variable_name, ocr_mode } => {
                let var = match variable_name {
                    Some(v) => v.clone(),
                    None => String::from_str("prompt"),
                };
                acts.push(ProfileAction::LLMPromptGeneration(LLMPromptGenerationAction {
                    region_ids: copy_strings(region_ids),
                    risk_threshold: *risk_threshold,
                    system_prompt: copy_text(system_prompt),
                    variable_name: var,
                    ocr_mode: *ocr_mode,
                    all_regions: copy_regions(&p.regions),
                    capture: capture.clone(),
                    llm_client: llm_client.clone(),
                    ocr: ocr.clone(),
                }));
            },
            ActionConfig::TerminationCheck { check_type, context_vars, ocr_region_ids, ai_query_prompt, termination_condition } => {
                acts.push(ProfileAction::TerminationCheck(TerminationCheckAction {
                    check_type: check_type.clone(),
                    context_vars: copy_strings(context_vars),
                    ocr_region_ids: copy_strings(ocr_region_ids),
                    ai_query_prompt: copy_text(ai_query_prompt),
                    termination_condition: termination_condition.clone(),
                    all_regions: copy_regions(&p.regions),
                    capture: capture.clone(),
                    llm_client: llm_client.clone(),
                    ocr: ocr.clone(),
                }));
            },
        }
        proof {
            let cfgs = p.actions@.subrange(0, i + 1);
            assert(cfgs.drop_last() =~= p.actions@.subrange(0, i as int));
            assert(cfgs.last() == p.actions@[i as int]);
            assert(acts@.map_values(|a: ProfileAction<S, L, O>| a.label()) =~= config_names(cfgs));
            let k = step_count(cfgs.last());
            assert(acts@.subrange(0, acts@.len() - k) =~= before);
            assert(built_step(cfgs.last(), acts@.subrange(acts@.len() - k, acts@.len() as int), p.regions@));
        }
        i = i + 1;
    }
    proof {
        assert(p.actions@.subrange(0, n as int) =~= p.actions@);
    }
    let guardrails = guardrails_from(&p.guardrails);
    let monitor = Monitor::new(trigger, condition, ActionSequence::new(acts), guardrails);
    let regions = copy_regions(&p.regions);
    (monitor, regions)
}

/// The profile offered when none is stored: keep a chat agent going by clicking its input,
/// typing "continue" and pressing Enter once the chat output stops changing.
pub fn default_profile() -> (p: Profile)
    ensures
        p.id@ == "keep-agent-001"@,
        p.regions@.len() == 2,
        p.regions@[0].id@ == "chat-out"@,
        p.regions@[1].id@ == "chat-in"@,
        p.trigger.check_interval_ms == 60000,
        p.condition.consecutive_checks == 1,
        !p.condition.expect_change,
        config_names(p.actions@) == seq!["MoveCursor"@, "Click"@, "Type"@, "Type"@],
        p.guardrails matches Some(g) && g.max_runtime_ms == Some(10800000u64)
            && g.max_activations_per_hour == Some(120u32) && g.cooldown_ms == 5000
            && g.heartbeat_timeout_ms is None && g.ocr_mode == OcrMode::Local
            && g.success_keywords@.len() == 0 && g.failure_keywords@.len() == 0
            && g.ocr_termination_pattern is None && g.ocr_region_ids@.len() == 0,
{
    let mut regions: Vec<Region> = Vec::new();
    regions.push(Region {
        id: String::from_str("chat-out"),
        rect: Rect { x: 80, y: 100, width: 1000, height: 450 },
        name: Some(String::from_str("Chat Output")),
    });
    regions.push(Region {
        id: String::from_str("chat-in"),
        rect: Rect { x: 80, y: 560, width: 1000, height: 150 },
        name: Some(String::from_str("Chat Input")),
    });
    let mut actions: Vec<ActionConfig> = Vec::new();
    actions.push(ActionConfig::Click { x: 960, y: 980, button: MouseButton::Left });
    actions.push(ActionConfig::Type { text: String::from_str("continue") });
    actions.push(ActionConfig::Type { text: String::from_str("{Key:Enter}") });
    let p = Profile {
        id: String::from_str("keep-agent-001"),
        name: String::from_str("Keep AI Agent Active"),
        regions,
        trigger: TriggerConfig { kind: String::from_str("IntervalTrigger"), check_interval_ms: 60000 },
        condition: ConditionConfig { kind: String::from_str("RegionCondition"), consecutive_checks: 1, expect_change: false },
        actions,
        guardrails: Some(GuardrailsConfig {
            max_runtime_ms: Some(10800000),
            max_activations_per_hour: Some(120),
            cooldown_ms: 5000,
            heartbeat_timeout_ms: None,
            ocr_mode: OcrMode::Local,
            success_keywords: Vec::new(),
            failure_keywords: Vec::new(),
            ocr_termination_pattern: None,
            ocr_region_ids: Vec::new(),
        }),
    };
    proof {
        let a = p.actions@;
        assert(a.len() == 3);
        assert(a.drop_last().drop_last().drop_last() =~= Seq::<ActionConfig>::empty());
        assert(a[0] is Click && a[1] is Type && a[2] is Type);
        assert(a.drop_last().drop_last().last() == a[0]);
        assert(a.drop_last().last() == a[1]);
        assert(config_names(Seq::<ActionConfig>::empty()) == Seq::<Seq<char>>::empty());
        assert(config_names(a.drop_last().drop_last()) =~= seq!["MoveCursor"@, "Click"@]);
        assert(config_names(a.drop_last()) =~= seq!["MoveCursor"@, "Click"@, "Type"@]);
        assert(config_names(a) =~= seq!["MoveCursor"@, "Click"@, "Type"@, "Type"@]);
    }
    p
}

/// The stored set of profiles, with its format version.
#[derive(Debug, Clone)]
pub struct ProfilesConfig {
    pub version: Option<u32>,
    pub profiles: Vec<Profile>,
}

impl ProfilesConfig {
    /// Fills what a stored set may lack: an empty set gets the default profile, a missing
    /// version becomes 1.
    pub fn normalize(self) -> (r: ProfilesConfig)
        ensures
            r.version == (match self.version {
                Some(v) => Some(v),
                None => Some(1u32),
            }),
            self.profiles@.len() > 0 ==> r.profiles@ == self.profiles@,
            self.profiles@.len() == 0 ==> r.profiles@.len() == 1 && r.profiles@[0].id@ == "keep-agent-001"@,
    {
        let mut cfg = self;
        if cfg.profiles.len() == 0 {
            cfg.profiles.push(default_profile());
        }
        if cfg.version.is_none() {
            cfg.version = Some(1);
        }
        cfg
    }
}

} // verus!
