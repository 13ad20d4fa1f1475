//! Supervisory control loop for unattended desktop automation.
//!
//! A [`Monitor`] owns an [`IntervalTrigger`], a debounced [`RegionCondition`], an
//! [`ActionSequence`] and its [`Guardrails`]; each `tick` decides, from the time and the screen
//! as the collaborators report it, whether to run the actions, and reports every decision as an
//! [`Event`]. Screen capture, text extraction, input synthesis and the language model are
//! collaborators behind traits ([`ScreenCapture`], [`OCRCapture`], [`Automation`],
//! [`LLMClient`]); times are milliseconds on the caller's clock.

pub mod action;
pub mod cli;
pub mod condition;
pub mod context;
pub mod domain;
pub mod fakes;
pub mod geometry;
pub mod guardrails;
pub mod keys;
pub mod laws;
pub mod llm;
pub mod monitor;
pub mod pixels;
pub mod profile;
pub mod soak;
pub mod termination;
pub mod text;
pub mod trigger;

pub use action::{Action, ActionSequence, Click, Keystroke, MoveCursor, TypeText};
pub use cli::{parse_u32, parse_u64, soak_config_from_args};
pub use condition::RegionCondition;
pub use context::ActionContext;
pub use domain::{
    Automation, BackendError, DisplayInfo, Event, EventView, MonitorState, MouseButton, NoOcr,
    OCRCapture, OcrMode, Rect, Region, ScreenCapture, ScreenFrame,
};
pub use fakes::{FakeAutomation, FakeCapture};
pub use geometry::{contains_region, normalize_rect, relative_coord, PickPoint};
pub use guardrails::Guardrails;
pub use keys::{classify_key, KeySpec, NamedKey};
pub use llm::{
    build_risk_guidance, capture_region_images, LLMClient, LLMPromptGenerationAction,
    LLMPromptResponse, MockLLMClient, OpenAIClient,
};
pub use monitor::{finalize_monitor_shutdown, Monitor};
pub use pixels::hash_pixels;
pub use profile::{
    build_monitor_from_profile, default_profile, ActionConfig, ConditionConfig, GuardrailsConfig,
    Profile, ProfileAction, ProfilesConfig, TriggerConfig,
};
pub use soak::{process_events, run_soak, SoakConfig, SoakReport};
pub use termination::TerminationCheckAction;
pub use trigger::{IntervalTrigger, Trigger};
