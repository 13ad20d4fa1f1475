use vstd::prelude::*;

verus! {

/// How text is taken from screen regions before it reaches a language model.
#[derive(Debug, Clone, Copy, PartialEq, Eq, Structural)]
pub enum OcrMode {
    /// Extract text locally and send only text.
    Local,
    /// Send captured images.
    Vision,
}

impl Default for OcrMode {
    fn default() -> (r: OcrMode)
        ensures
            r == OcrMode::Local,
    {
        OcrMode::Local
    }
}

/// A rectangle in screen pixels.
#[derive(Debug, Clone, Copy, PartialEq, Eq, Structural)]
pub struct Rect {
    pub x: u32,
    pub y: u32,
    pub width: u32,
    pub height: u32,
}

/// A named rectangular area of the screen, identified by `id` within a profile.
#[derive(Debug, Clone)]
pub struct Region {
    pub id: String,
    pub rect: Rect,
    pub name: Option<String>,
}

/// Metadata of one display; the scale factor is kept in thousandths.
#[derive(Debug, Clone)]
pub struct DisplayInfo {
    pub id: u32,
    pub name: Option<String>,
    pub x: i32,
    pub y: i32,
    pub width: u32,
    pub height: u32,
    pub scale_permille: u32,
    pub is_primary: bool,
}

/// Pixels captured from a region, four bytes per pixel.
#[derive(Debug, Clone)]
pub struct ScreenFrame {
    pub display: DisplayInfo,
    pub width: u32,
    pub height: u32,
    pub stride: u32,
    pub bytes: Vec<u8>,
    pub timestamp_ms: u64,
}

#[derive(Debug, Clone, Copy, PartialEq, Eq, Structural)]
pub enum MonitorState {
    Stopped,
    Running,
    Stopping,
}

#[derive(Debug, Clone, Copy, PartialEq, Eq, Structural)]
pub enum MouseButton {
    Left,
    Right,
    Middle,
}

/// Observability events; the only channel through which the core reports.
#[derive(Debug, Clone)]
pub enum Event {
    TriggerFired,
    ConditionEvaluated { result: bool },
    ActionStarted { action: String },
    ActionCompleted { action: String, success: bool },
    MonitorStateChanged { state: MonitorState },
    WatchdogTripped { reason: String },
    Error { message: String },
    MonitorTick { next_check_ms: u64, cooldown_remaining_ms: u64, condition_met: bool },
    TerminationCheckTriggered { reason: String },
}

/// The mathematical value of an [`Event`], with text as character sequences.
pub enum EventView {
    TriggerFired,
    ConditionEvaluated { result: bool },
    ActionStarted { action: Seq<char> },
    ActionCompleted { action: Seq<char>, success: bool },
    MonitorStateChanged { state: MonitorState },
    WatchdogTripped { reason: Seq<char> },
    Error { message: Seq<char> },
    MonitorTick { next_check_ms: u64, cooldown_remaining_ms: u64, condition_met: bool },
    TerminationCheckTriggered { reason: Seq<char> },
}

impl View for Event {
    type V = EventView;

    open spec fn view(&self) -> EventView {
        match self {
            Event::TriggerFired => EventView::TriggerFired,
            Event::ConditionEvaluated { result } => EventView::ConditionEvaluated { result: *result },
            Event::ActionStarted { action } => EventView::ActionStarted { action: action@ },
            Event::ActionCompleted { action, success } => EventView::ActionCompleted {
                action: action@,
                success: *success,
            },
            Event::MonitorStateChanged { state } => EventView::MonitorStateChanged { state: *state },
            Event::WatchdogTripped { reason } => EventView::WatchdogTripped { reason: reason@ },
            Event::Error { message } => EventView::Error { message: message@ },
            Event::MonitorTick { next_check_ms, cooldown_remaining_ms, condition_met } =>
                EventView::MonitorTick {
                next_check_ms: *next_check_ms,
                cooldown_remaining_ms: *cooldown_remaining_ms,
                condition_met: *condition_met,
            },
            Event::TerminationCheckTriggered { reason } => EventView::TerminationCheckTriggered {
                reason: reason@,
            },
        }
    }
}

/// The events of a log, as values.
pub open spec fn log_view(events: Seq<Event>) -> Seq<EventView> {
    events.map_values(|e: Event| e@)
}

/// An error reported by a platform collaborator.
#[derive(Debug, Clone)]
pub struct BackendError {
    pub code: &'static str,
    pub message: String,
}

impl BackendError {
    pub fn new(code: &'static str, message: &str) -> (r: BackendError)
        ensures
            r.code == code,
            r.message@ == message@,
    {
        BackendError { code, message: String::from_str(message) }
    }
}

/// The ids of a list of regions, in order.
pub open spec fn region_ids(regions: Seq<Region>) -> Seq<Seq<char>> {
    regions.map_values(|r: Region| r.id@)
}

/// Screen capture collaborator: hashing, pixel capture and display listing.
pub trait ScreenCapture {
    /// A cheap hash of the region's pixels.
    fn hash_region(&self, region: &Region, downscale: u32) -> u64;

    fn capture_region(&self, region: &Region) -> Result<ScreenFrame, BackendError>;

    fn displays(&self) -> Result<Vec<DisplayInfo>, BackendError>;
}

/// Text extraction collaborator.
pub trait OCRCapture {
    fn extract_text(&self, region: &Region) -> Result<String, BackendError>;

    /// Text extraction that may reuse an earlier result for the same region hash.
    fn extract_text_cached(&self, region: &Region, region_hash: u64) -> Result<String, BackendError> {
        self.extract_text(region)
    }
}

/// Input synthesis collaborator.
pub trait Automation {
    fn move_cursor(&self, x: u32, y: u32) -> Result<(), String>;

    fn click(&self, button: MouseButton) -> Result<(), String>;

    fn type_text(&self, text: &str) -> Result<(), String>;

    fn key(&self, key: &str) -> Result<(), String>;

    fn mouse_down(&self, button: MouseButton) -> Result<(), String> {
        self.click(button)
    }

    fn mouse_up(&self, button: MouseButton) -> Result<(), String> {
        Ok(())
    }

    fn key_down(&self, key: &str) -> Result<(), String> {
        self.key(key)
    }

    fn key_up(&self, key: &str) -> Result<(), String> {
        Ok(())
    }

    /// Raises an audible or visible alarm about `message`; a backend without one does nothing.
    fn alarm(&self, message: &str) {
    }

    /// Waits `ms` milliseconds so that the desktop can take in the previous input; a backend
    /// without a clock waits for nothing.
    fn settle(&self, ms: u64) {
    }
}

/// A collaborator that extracts no text; used where local text extraction is unavailable.
#[derive(Debug, Clone, Copy)]
pub struct NoOcr;

impl OCRCapture for NoOcr {
    fn extract_text(&self, region: &Region) -> Result<String, BackendError> {
        Err(BackendError::new("ocr_unavailable", "local text extraction is not available"))
    }
}

} // verus!
