//! The instructions that the automation VM executes, the conditions they
//! test, and the description of data to extract.

use vstd::prelude::*;

use crate::element::Rect;
use crate::target::Target;
use crate::value::Value;

verus! {

/// Mouse button of a click.
#[derive(Debug, Clone, Copy, PartialEq, Eq, Structural)]
pub enum MouseButton {
    Left,
    Right,
    Middle,
}

/// Keyboard modifier keys.
#[derive(Debug, Clone, Copy, PartialEq, Eq, Structural)]
pub enum ModifierKey {
    Ctrl,
    Alt,
    Shift,
    Super,
}

/// Direction of a scroll.
#[derive(Debug, Clone, Copy, PartialEq, Eq, Structural)]
pub enum ScrollDirection {
    Up,
    Down,
    Left,
    Right,
}

/// Level of a log instruction.
#[derive(Debug, Clone, Copy, PartialEq, Eq, Structural)]
pub enum LogLevel {
    Trace,
    Debug,
    Info,
    Warn,
    Error,
}

/// What to extract from a UI element.
#[derive(Debug, Clone, Copy, PartialEq, Eq, Structural)]
pub enum ExtractAttribute {
    /// The text of the element.
    Text,
    /// The value of the element (for inputs).
    Value,
    /// The bounding rectangle of the element.
    Bounds,
    /// Whether a checkbox or toggle is checked.
    Checked,
    /// Whether a dropdown option is selected.
    Selected,
}

/// One field to extract from a UI element.
#[derive(Debug, PartialEq, Eq)]
pub struct FieldSpec {
    /// Variable that receives the extracted value.
    pub name: String,
    /// Element to extract from.
    pub selector: Target,
    /// What to extract.
    pub attribute: ExtractAttribute,
}

/// Specification of the data to extract from UI elements.
#[derive(Debug, PartialEq, Eq)]
pub struct DataSpec {
    pub fields: Vec<FieldSpec>,
}

/// A condition tested by `If` and `Loop`.
#[derive(Debug)]
pub enum Condition {
    /// The target element exists on screen.
    ElementExists { target: Target },
    /// The target element is visible on screen.
    ElementVisible { target: Target },
    /// A context variable equals a value.
    VarEquals { var: String, value: Value },
    /// A context variable is set and not null.
    VarNotEmpty { var: String },
    /// A script expression.
    Expression { js: String },
    /// All conditions hold.
    And(Vec<Condition>),
    /// At least one condition holds.
    Or(Vec<Condition>),
    /// The condition does not hold.
    Not(Box<Condition>),
}

/// One operation of the VM.
#[allow(inconsistent_fields)]
#[derive(Debug)]
pub enum Instruction {
    /// Click on a UI element.
    Click { target: Target, button: MouseButton },
    /// Double-click on a UI element.
    DoubleClick { target: Target },
    /// Type text into a UI element.
    Input { target: Target, text: String, clear_first: bool },
    /// Press a key with modifiers.
    KeyPress { key: String, modifiers: Vec<ModifierKey> },
    /// Extract data from a UI element into a context variable.
    Extract { target: Target, spec: DataSpec, into_var: String },
    /// Wait for a fixed time, in milliseconds.
    Wait { duration_ms: u64 },
    /// Wait for a UI element to appear.
    WaitFor { target: Target, timeout_ms: u64, interval_ms: u64 },
    /// Call a workflow by name with arguments.
    Call { workflow: String, args: Vec<(String, Value)> },
    /// Run a body repeatedly.
    Loop { max: Option<u32>, condition: Option<Condition>, body: Vec<Instruction> },
    /// Run one of two bodies.
    If { condition: Condition, then_body: Vec<Instruction>, else_body: Option<Vec<Instruction>> },
    /// Leave the innermost loop.
    Break,
    /// Return a value from the workflow.
    Return(Value),
    /// Log a message.
    Log { message: String, level: LogLevel },
    /// Scroll on a UI element.
    Scroll { target: Target, direction: ScrollDirection, amount: u32 },
    /// Move the mouse to a screen position.
    MouseMove { x: i32, y: i32 },
    /// Press a mouse button at a screen position.
    MouseDown { button: MouseButton, x: i32, y: i32 },
    /// Release a mouse button at a screen position.
    MouseUp { button: MouseButton, x: i32, y: i32 },
    /// Drag from one element to another.
    Drag { from: Target, to: Target, button: MouseButton },
    /// Bring a window to the foreground.
    SetForeground { target: Target },
    /// Move a window.
    MoveWindow { target: Target, x: i32, y: i32 },
    /// Take a screenshot, optionally of a region, optionally saved to a file.
    Screenshot { target: Option<Target>, region: Option<Rect>, save_path: Option<String> },
    /// Read the text of a region of a window into a variable.
    OcrRegion { target: Target, region: Rect, into_var: String },
}

} // verus!
