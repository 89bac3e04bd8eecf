//! Data model of a tool session.

use crate::text::{same_text, texts};
use vstd::prelude::*;
use vstd::string::StringExecFns;

verus! {

/// Settings of a tool session.
#[derive(Debug, Clone)]
pub struct MCPSessionConfig {
    pub require_approval: bool,
    pub session_timeout_seconds: u64,
    pub enable_logging: bool,
    pub server_name: String,
    pub server_version: String,
}

impl Default for MCPSessionConfig {
    /// Approval required, a timeout of five minutes, logging on.
    fn default() -> (r: Self)
        ensures
            r.require_approval,
            r.session_timeout_seconds == 300,
            r.enable_logging,
            r.server_name@ == "enteract-mcp-server"@,
            r.server_version@ == "1.0.0"@,
    {
        MCPSessionConfig {
            require_approval: true,
            session_timeout_seconds: 300,
            enable_logging: true,
            server_name: String::from_str("enteract-mcp-server"),
            server_version: String::from_str("1.0.0"),
        }
    }
}

/// The user's answer to a request for approval.
#[derive(Debug, Clone)]
pub struct ToolApprovalResponse {
    pub session_id: String,
    pub approved: bool,
    pub reason: Option<String>,
}

/// Where a tool session stands.
#[derive(Debug, Clone)]
pub enum SessionStatus {
    Initializing,
    Active,
    WaitingForApproval,
    Completed,
    Error(String),
}

/// How much harm a tool can do.
#[derive(Debug, Copy, Clone, PartialEq, Eq, Structural)]
pub enum DangerLevel {
    /// Reading data.
    Low,
    /// Clicking, typing, scrolling.
    Medium,
    /// File operations, system commands.
    High,
    /// Destructive operations.
    Critical,
}

impl DangerLevel {
    /// Every level above `Low` needs the user's approval.
    pub open spec fn spec_requires_approval(self) -> bool {
        self != DangerLevel::Low
    }

    /// Whether a tool of this level needs the user's approval.
    pub fn requires_approval(&self) -> (r: bool)
        ensures
            r == self.spec_requires_approval(),
    {
        match self {
            DangerLevel::Low => false,
            _ => true,
        }
    }

    /// Place of the level in the order from `Low` to `Critical`.
    pub open spec fn spec_severity(self) -> nat {
        match self {
            DangerLevel::Low => 0,
            DangerLevel::Medium => 1,
            DangerLevel::High => 2,
            DangerLevel::Critical => 3,
        }
    }

    /// Place of the level in the order from `Low` to `Critical`.
    pub fn severity(&self) -> (r: u8)
        ensures
            r == self.spec_severity(),
    {
        match self {
            DangerLevel::Low => 0,
            DangerLevel::Medium => 1,
            DangerLevel::High => 2,
            DangerLevel::Critical => 3,
        }
    }
}

/// The user's answer to a whole plan.
#[derive(Debug, Clone)]
pub struct ExecutionPlanApproval {
    pub plan_id: String,
    pub approved: bool,
    /// Ids of the steps that are approved.
    pub approved_steps: Vec<String>,
    pub reason: Option<String>,
    pub timestamp: String,
}

#[derive(Debug, Clone, Copy, PartialEq, Eq, Structural)]
pub enum LogLevel {
    Info,
    Warning,
    Error,
    Debug,
}

#[derive(Debug, Clone)]
pub struct ClickParams {
    pub x: Option<i32>,
    pub y: Option<i32>,
    pub button: Option<MouseButton>,
}

#[derive(Debug, Clone)]
pub struct TypeParams {
    pub text: String,
    pub delay_ms: Option<u64>,
}

#[derive(Debug, Clone)]
pub struct ScrollParams {
    pub x: Option<i32>,
    pub y: Option<i32>,
    pub direction: ScrollDirection,
    pub amount: Option<i32>,
}

#[derive(Debug, Clone)]
pub struct KeyPressParams {
    pub key: String,
    pub modifiers: Option<Vec<KeyModifier>>,
}

#[derive(Debug, Copy, Clone, PartialEq, Eq, Structural)]
pub enum MouseButton {
    Left,
    Right,
    Middle,
}

#[derive(Debug, Copy, Clone, PartialEq, Eq, Structural)]
pub enum ScrollDirection {
    Up,
    Down,
    Left,
    Right,
}

#[derive(Debug, Copy, Clone, PartialEq, Eq, Structural)]
pub enum KeyModifier {
    Ctrl,
    Alt,
    Shift,
    Meta,
}

#[derive(Debug, Clone, Copy, PartialEq, Eq, Structural)]
pub struct CursorPosition {
    pub x: i32,
    pub y: i32,
}

#[derive(Debug, Clone)]
pub struct ScreenshotParams {
    /// "png" or "jpeg".
    pub format: Option<String>,
    /// 1 to 100, for jpeg.
    pub quality: Option<u8>,
    pub region: Option<ScreenRegion>,
}

#[derive(Debug, Clone, Copy, PartialEq, Eq, Structural)]
pub struct ScreenRegion {
    pub x: i32,
    pub y: i32,
    pub width: u32,
    pub height: u32,
}

#[derive(Debug, Clone)]
pub struct ScreenshotResult {
    pub image_base64: String,
    pub width: u32,
    pub height: u32,
    pub format: String,
}

/// Steps of the mouse wheel for one unit of scrolling.
pub const WHEEL_DELTA: i64 = 120;

impl ClickParams {
    /// Where to click: the given point where both coordinates are given,
    /// else where the cursor is.
    pub fn target(&self, cursor: CursorPosition) -> (r: CursorPosition)
        ensures
            r == if self.x is Some && self.y is Some {
                (CursorPosition { x: self.x->Some_0, y: self.y->Some_0 })
            } else {
                cursor
            },
    {
        match (self.x, self.y) {
            (Some(x), Some(y)) => CursorPosition { x, y },
            _ => cursor,
        }
    }

    /// The button to click with: the left one where none is given.
    pub fn button_or_default(&self) -> (r: MouseButton)
        ensures
            r == match self.button {
                Some(b) => b,
                None => MouseButton::Left,
            },
    {
        match self.button {
            Some(b) => b,
            None => MouseButton::Left,
        }
    }
}

impl TypeParams {
    /// The pause between two keys in milliseconds: 10 where none is given.
    pub fn delay_or_default(&self) -> (r: u64)
        ensures
            r == match self.delay_ms {
                Some(d) => d,
                None => 10,
            },
    {
        match self.delay_ms {
            Some(d) => d,
            None => 10,
        }
    }
}

impl ScrollParams {
    /// How far to scroll: 3 units where nothing is given.
    pub fn amount_or_default(&self) -> (r: i32)
        ensures
            r == match self.amount {
                Some(a) => a,
                None => 3,
            },
    {
        match self.amount {
            Some(a) => a,
            None => 3,
        }
    }

    /// The turn of the mouse wheel for the scroll: up is positive, down is
    /// negative, and sideways cannot be done.
    pub fn wheel_delta(&self) -> (r: Option<i64>)
        ensures
            r == match self.direction {
                ScrollDirection::Up => Some(
                    (WHEEL_DELTA * match self.amount {
                        Some(a) => a,
                        None => 3,
                    }) as i64,
                ),
                ScrollDirection::Down => Some(
                    (-WHEEL_DELTA * match self.amount {
                        Some(a) => a,
                        None => 3,
                    }) as i64,
                ),
                _ => None::<i64>,
            },
    {
        let amount = self.amount_or_default() as i64;
        match self.direction {
            ScrollDirection::Up => Some(WHEEL_DELTA * amount),
            ScrollDirection::Down => Some(0 - WHEEL_DELTA * amount),
            _ => None,
        }
    }
}

impl ScreenshotParams {
    /// The parameters of a screenshot where none can be read: a PNG of the
    /// whole screen at quality 90.
    pub fn fallback() -> (r: Self)
        ensures
            r.format is Some && r.format->Some_0@ == "png"@,
            r.quality == Some(90u8),
            r.region is None,
    {
        ScreenshotParams { format: Some(String::from_str("png")), quality: Some(90), region: None }
    }
}

/// What a tool reported, as far as the planning context reads it: the
/// numbers found under `x`, `y`, `width` and `height` in its result.
#[derive(Debug, Clone)]
pub struct ToolExecutionResult {
    pub success: bool,
    pub error: Option<String>,
    pub execution_time_ms: u64,
    pub tool_name: String,
    pub x: Option<i64>,
    pub y: Option<i64>,
    pub width: Option<u64>,
    pub height: Option<u64>,
}

/// What the planner knows of the screen, and the last actions taken.
#[derive(Debug, Clone)]
pub struct ExecutionContext {
    pub session_id: String,
    pub screen_width: u32,
    pub screen_height: u32,
    pub cursor_x: i32,
    pub cursor_y: i32,
    pub previous_actions: Vec<String>,
}

/// Number of actions that the planning context remembers.
pub const REMEMBERED_ACTIONS: usize = 5;

/// The remembered actions after one more: the new one is added at the end,
/// and of more than five the oldest goes.
pub open spec fn spec_remember(actions: Seq<Seq<char>>, entry: Seq<char>) -> Seq<Seq<char>> {
    let all = actions.push(entry);
    if all.len() > REMEMBERED_ACTIONS {
        all.subrange(1, all.len() as int)
    } else {
        all
    }
}

/// The entry that stands for one step among the remembered actions.
pub open spec fn spec_action_entry(step_id: Seq<char>, tool_name: Seq<char>) -> Seq<char> {
    step_id + ": "@ + tool_name
}

/// Whether a result reports where the cursor is.
pub open spec fn reports_cursor(result: ToolExecutionResult) -> bool {
    result.tool_name@ == "get_cursor_position"@ && result.x is Some && result.y is Some
}

/// Whether a result reports how large the screen is.
pub open spec fn reports_screen(result: ToolExecutionResult) -> bool {
    result.tool_name@ == "get_screen_info"@ && result.width is Some && result.height is Some
}

/// A coordinate of the cursor after a result: the reported one, cut to 32
/// bits, where the result reports the cursor.
pub open spec fn spec_cursor_after(before: i32, reported: Option<i64>, result: ToolExecutionResult) -> i32 {
    if reports_cursor(result) {
        reported->Some_0 as i32
    } else {
        before
    }
}

/// A side of the screen after a result: the reported one, cut to 32 bits,
/// where the result reports the screen.
pub open spec fn spec_side_after(before: u32, reported: Option<u64>, result: ToolExecutionResult) -> u32 {
    if reports_screen(result) {
        reported->Some_0 as u32
    } else {
        before
    }
}

impl ExecutionContext {
    /// A context for a screen of 1920 by 1080 with the cursor at the origin.
    pub fn new() -> (r: Self)
        ensures
            r.session_id@ == Seq::<char>::empty(),
            r.screen_width == 1920,
            r.screen_height == 1080,
            r.cursor_x == 0,
            r.cursor_y == 0,
            r.previous_actions@ == Seq::<String>::empty(),
    {
        ExecutionContext {
            session_id: String::new(),
            screen_width: 1920,
            screen_height: 1080,
            cursor_x: 0,
            cursor_y: 0,
            previous_actions: Vec::new(),
        }
    }

    /// Takes in what a step reported. The cursor follows a report of
    /// `get_cursor_position` that holds both coordinates, the screen size one
    /// of `get_screen_info` that holds both sides; numbers that do not fit are
    /// cut to their low 32 bits. The step is then remembered.
    pub fn update_from_result(&mut self, step_id: &str, result: &ToolExecutionResult)
        ensures
            final(self).session_id == old(self).session_id,
            texts(final(self).previous_actions@) == spec_remember(
                texts(old(self).previous_actions@),
                spec_action_entry(step_id@, result.tool_name@),
            ),
            final(self).cursor_x == spec_cursor_after(old(self).cursor_x, result.x, *result),
            final(self).cursor_y == spec_cursor_after(old(self).cursor_y, result.y, *result),
            final(self).screen_width == spec_side_after(
                old(self).screen_width,
                result.width,
                *result,
            ),
            final(self).screen_height == spec_side_after(
                old(self).screen_height,
                result.height,
                *result,
            ),
    {
        if same_text(result.tool_name.as_str(), "get_cursor_position") {
            match (result.x, result.y) {
                (Some(x), Some(y)) => {
                    self.cursor_x = #[verifier::truncate]
                    (x as i32);
                    self.cursor_y = #[verifier::truncate]
                    (y as i32);
                },
                _ => {},
            }
        } else if same_text(result.tool_name.as_str(), "get_screen_info") {
            match (result.width, result.height) {
                (Some(w), Some(h)) => {
                    self.screen_width = #[verifier::truncate]
                    (w as u32);
                    self.screen_height = #[verifier::truncate]
                    (h as u32);
                },
                _ => {},
            }
        }
        proof {
            reveal_strlit("get_cursor_position");
            reveal_strlit("get_screen_info");
        }
        let entry = String::from_str(step_id).concat(": ").concat(result.tool_name.as_str());
        let ghost before = texts(self.previous_actions@);
        self.previous_actions.push(entry);
        assert(texts(self.previous_actions@) =~= before.push(
            spec_action_entry(step_id@, result.tool_name@),
        ));
        if self.previous_actions.len() > REMEMBERED_ACTIONS {
            let ghost all = texts(self.previous_actions@);
            self.previous_actions.remove(0);
            assert(texts(self.previous_actions@) =~= all.subrange(1, all.len() as int));
        }
    }
}

/// The remembered actions never grow beyond five.
pub proof fn lemma_remembered_actions_bounded(actions: Seq<Seq<char>>, entry: Seq<char>)
    requires
        actions.len() <= REMEMBERED_ACTIONS,
    ensures
        spec_remember(actions, entry).len() <= REMEMBERED_ACTIONS,
        spec_remember(actions, entry).last() == entry,
{
}

#[derive(Debug, Clone)]
pub struct PlanningProgress {
    pub session_id: String,
    pub iteration: u32,
    pub max_iterations: u32,
    pub status: PlanningStatus,
    pub message: String,
}

#[derive(Debug, Clone, Copy, PartialEq, Eq, Structural)]
pub enum PlanningStatus {
    Analyzing,
    Questioning,
    Planning,
    Validating,
    Complete,
    Failed,
}

#[derive(Debug, Clone)]
pub struct ExecutionProgress {
    pub session_id: String,
    pub step_number: usize,
    pub total_steps: usize,
    pub step_description: String,
    pub tool_name: String,
    pub status: ExecutionStepStatus,
}

#[derive(Debug, Clone, Copy, PartialEq, Eq, Structural)]
pub enum ExecutionStepStatus {
    Pending,
    Executing,
    WaitingApproval,
    Complete,
    Failed,
}

} // verus!
