//! What is fixed about each computer-use tool: its name, what it is for and
//! how dangerous it is.

use crate::mcp::types::DangerLevel;
use vstd::prelude::*;
use vstd::string::StringExecFns;

verus! {

/// A mouse click at given coordinates or at the cursor.
#[derive(Debug, Clone, Copy)]
pub struct ClickTool;

/// Typing text at the cursor.
#[derive(Debug, Clone, Copy)]
pub struct TypeTool;

/// Scrolling.
#[derive(Debug, Clone, Copy)]
pub struct ScrollTool;

/// Pressing a key, with modifiers.
#[derive(Debug, Clone, Copy)]
pub struct KeyPressTool;

/// Reading the position of the cursor.
#[derive(Debug, Clone, Copy)]
pub struct GetCursorPositionTool;

/// Reading the size of the screen.
#[derive(Debug, Clone, Copy)]
pub struct GetScreenInfoTool;

/// Taking a screenshot.
#[derive(Debug, Clone, Copy)]
pub struct ScreenshotTool;

/// Finding a text on the screen.
#[derive(Debug, Clone, Copy)]
pub struct FindTextTool;

/// A click at given coordinates.
#[derive(Debug, Clone, Copy)]
pub struct ClickAtTool;

/// A click on a text found on the screen.
#[derive(Debug, Clone, Copy)]
pub struct ClickOnTextTool;

impl ClickTool {
    pub fn name(&self) -> (r: &'static str)
        ensures
            r@ == "click"@,
    {
        "click"
    }

    pub fn description(&self) -> (r: String)
        ensures
            r@ == "Perform a mouse click at specified coordinates or current cursor position"@,
    {
        String::from_str("Perform a mouse click at specified coordinates or current cursor position")
    }

    pub fn danger_level(&self) -> (r: DangerLevel)
        ensures
            r == DangerLevel::Medium,
    {
        DangerLevel::Medium
    }

    pub fn requires_approval(&self) -> (r: bool)
        ensures
            r,
    {
        self.danger_level().requires_approval()
    }
}

impl TypeTool {
    pub fn name(&self) -> (r: &'static str)
        ensures
            r@ == "type"@,
    {
        "type"
    }

    pub fn description(&self) -> (r: String)
        ensures
            r@ == "Type text at the current cursor/focus position"@,
    {
        String::from_str("Type text at the current cursor/focus position")
    }

    pub fn danger_level(&self) -> (r: DangerLevel)
        ensures
            r == DangerLevel::Medium,
    {
        DangerLevel::Medium
    }

    pub fn requires_approval(&self) -> (r: bool)
        ensures
            r,
    {
        self.danger_level().requires_approval()
    }
}

impl ScrollTool {
    pub fn name(&self) -> (r: &'static str)
        ensures
            r@ == "scroll"@,
    {
        "scroll"
    }

    pub fn description(&self) -> (r: String)
        ensures
            r@ == "Scroll in a specified direction"@,
    {
        String::from_str("Scroll in a specified direction")
    }

    pub fn danger_level(&self) -> (r: DangerLevel)
        ensures
            r == DangerLevel::Low,
    {
        DangerLevel::Low
    }

    pub fn requires_approval(&self) -> (r: bool)
        ensures
            !r,
    {
        self.danger_level().requires_approval()
    }
}

impl KeyPressTool {
    pub fn name(&self) -> (r: &'static str)
        ensures
            r@ == "key_press"@,
    {
        "key_press"
    }

    pub fn description(&self) -> (r: String)
        ensures
            r@ == "Press a key or key combination"@,
    {
        String::from_str("Press a key or key combination")
    }

    pub fn danger_level(&self) -> (r: DangerLevel)
        ensures
            r == DangerLevel::Medium,
    {
        DangerLevel::Medium
    }

    pub fn requires_approval(&self) -> (r: bool)
        ensures
            r,
    {
        self.danger_level().requires_approval()
    }
}

impl GetCursorPositionTool {
    pub fn name(&self) -> (r: &'static str)
        ensures
            r@ == "get_cursor_position"@,
    {
        "get_cursor_position"
    }

    pub fn description(&self) -> (r: String)
        ensures
            r@ == "Get the current mouse cursor position"@,
    {
        String::from_str("Get the current mouse cursor position")
    }

    pub fn danger_level(&self) -> (r: DangerLevel)
        ensures
            r == DangerLevel::Low,
    {
        DangerLevel::Low
    }

    pub fn requires_approval(&self) -> (r: bool)
        ensures
            !r,
    {
        self.danger_level().requires_approval()
    }
}

impl GetScreenInfoTool {
    pub fn name(&self) -> (r: &'static str)
        ensures
            r@ == "get_screen_info"@,
    {
        "get_screen_info"
    }

    pub fn description(&self) -> (r: String)
        ensures
            r@ == "Get screen information (width, height, scale factor)"@,
    {
        String::from_str("Get screen information (width, height, scale factor)")
    }

    pub fn danger_level(&self) -> (r: DangerLevel)
        ensures
            r == DangerLevel::Low,
    {
        DangerLevel::Low
    }

    pub fn requires_approval(&self) -> (r: bool)
        ensures
            !r,
    {
        self.danger_level().requires_approval()
    }
}

impl ScreenshotTool {
    pub fn name(&self) -> (r: &'static str)
        ensures
            r@ == "take_screenshot"@,
    {
        "take_screenshot"
    }

    pub fn description(&self) -> (r: String)
        ensures
            r@ == "Take a screenshot of the screen or a region"@,
    {
        String::from_str("Take a screenshot of the screen or a region")
    }

    pub fn danger_level(&self) -> (r: DangerLevel)
        ensures
            r == DangerLevel::Low,
    {
        DangerLevel::Low
    }

    pub fn requires_approval(&self) -> (r: bool)
        ensures
            !r,
    {
        self.danger_level().requires_approval()
    }
}

impl FindTextTool {
    pub fn name(&self) -> (r: &'static str)
        ensures
            r@ == "find_text"@,
    {
        "find_text"
    }

    pub fn description(&self) -> (r: String)
        ensures
            r@ == "Find text on screen using OCR and return its location and confidence"@,
    {
        String::from_str("Find text on screen using OCR and return its location and confidence")
    }

    pub fn danger_level(&self) -> (r: DangerLevel)
        ensures
            r == DangerLevel::Low,
    {
        DangerLevel::Low
    }

    pub fn requires_approval(&self) -> (r: bool)
        ensures
            !r,
    {
        self.danger_level().requires_approval()
    }
}

impl ClickAtTool {
    pub fn name(&self) -> (r: &'static str)
        ensures
            r@ == "click_at"@,
    {
        "click_at"
    }

    pub fn description(&self) -> (r: String)
        ensures
            r@ == "Click at specific coordinates on screen"@,
    {
        String::from_str("Click at specific coordinates on screen")
    }

    pub fn danger_level(&self) -> (r: DangerLevel)
        ensures
            r == DangerLevel::Medium,
    {
        DangerLevel::Medium
    }

    pub fn requires_approval(&self) -> (r: bool)
        ensures
            r,
    {
        self.danger_level().requires_approval()
    }
}

impl ClickOnTextTool {
    pub fn name(&self) -> (r: &'static str)
        ensures
            r@ == "click_on_text"@,
    {
        "click_on_text"
    }

    pub fn description(&self) -> (r: String)
        ensures
            r@ == "Find text on screen using OCR and click on it (compound tool)"@,
    {
        String::from_str("Find text on screen using OCR and click on it (compound tool)")
    }

    pub fn danger_level(&self) -> (r: DangerLevel)
        ensures
            r == DangerLevel::Medium,
    {
        DangerLevel::Medium
    }

    pub fn requires_approval(&self) -> (r: bool)
        ensures
            r,
    {
        self.danger_level().requires_approval()
    }
}

} // verus!
