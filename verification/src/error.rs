//! The error type of the automation system and its messages.

use vstd::prelude::*;

use crate::fmt::{decimal, prefixed, push_decimal, push_str, string_of};

verus! {

/// Errors raised while locating elements, acting on them or running workflows.
#[derive(Debug, PartialEq, Eq)]
pub enum RpaError {
    ElementNotFound(String),
    Timeout(u64, String),
    WorkflowNotFound(String),
    Plugin(String),
    JsRuntime(String),
    Perception(String),
    Action(String),
    VarNotFound(String),
    InvalidInstruction(String),
    Cancelled,
    Compilation(String),
    Validation(String),
    Sandbox(String),
    WindowNotFound(String),
    ProcessNotFound(String),
    OcrFailed(String),
    ScreenshotFailed(String),
    /// Any other failure, carried by its message.
    Other(String),
}

/// The content of an [`RpaError`], with its texts as character sequences.
pub enum RpaErrorView {
    ElementNotFound(Seq<char>),
    Timeout(u64, Seq<char>),
    WorkflowNotFound(Seq<char>),
    Plugin(Seq<char>),
    JsRuntime(Seq<char>),
    Perception(Seq<char>),
    Action(Seq<char>),
    VarNotFound(Seq<char>),
    InvalidInstruction(Seq<char>),
    Cancelled,
    Compilation(Seq<char>),
    Validation(Seq<char>),
    Sandbox(Seq<char>),
    WindowNotFound(Seq<char>),
    ProcessNotFound(Seq<char>),
    OcrFailed(Seq<char>),
    ScreenshotFailed(Seq<char>),
    Other(Seq<char>),
}

impl View for RpaError {
    type V = RpaErrorView;

    open spec fn view(&self) -> RpaErrorView {
        match *self {
            RpaError::ElementNotFound(s) => RpaErrorView::ElementNotFound(s@),
            RpaError::Timeout(ms, s) => RpaErrorView::Timeout(ms, s@),
            RpaError::WorkflowNotFound(s) => RpaErrorView::WorkflowNotFound(s@),
            RpaError::Plugin(s) => RpaErrorView::Plugin(s@),
            RpaError::JsRuntime(s) => RpaErrorView::JsRuntime(s@),
            RpaError::Perception(s) => RpaErrorView::Perception(s@),
            RpaError::Action(s) => RpaErrorView::Action(s@),
            RpaError::VarNotFound(s) => RpaErrorView::VarNotFound(s@),
            RpaError::InvalidInstruction(s) => RpaErrorView::InvalidInstruction(s@),
            RpaError::Cancelled => RpaErrorView::Cancelled,
            RpaError::Compilation(s) => RpaErrorView::Compilation(s@),
            RpaError::Validation(s) => RpaErrorView::Validation(s@),
            RpaError::Sandbox(s) => RpaErrorView::Sandbox(s@),
            RpaError::WindowNotFound(s) => RpaErrorView::WindowNotFound(s@),
            RpaError::ProcessNotFound(s) => RpaErrorView::ProcessNotFound(s@),
            RpaError::OcrFailed(s) => RpaErrorView::OcrFailed(s@),
            RpaError::ScreenshotFailed(s) => RpaErrorView::ScreenshotFailed(s@),
            RpaError::Other(s) => RpaErrorView::Other(s@),
        }
    }
}

/// The message of an error, as displayed to users.
pub open spec fn error_text(e: RpaError) -> Seq<char> {
    match e {
        RpaError::ElementNotFound(s) => "Element not found: "@ + s@,
        RpaError::Timeout(ms, s) => "Timeout after "@ + decimal(ms as nat) + "ms waiting for "@
            + s@,
        RpaError::WorkflowNotFound(s) => "Workflow not found: "@ + s@,
        RpaError::Plugin(s) => "Plugin error: "@ + s@,
        RpaError::JsRuntime(s) => "JS runtime error: "@ + s@,
        RpaError::Perception(s) => "Perception failed: "@ + s@,
        RpaError::Action(s) => "Action failed: "@ + s@,
        RpaError::VarNotFound(s) => "Context variable not found: "@ + s@,
        RpaError::InvalidInstruction(s) => "Invalid instruction: "@ + s@,
        RpaError::Cancelled => "Execution cancelled"@,
        RpaError::Compilation(s) => "Workflow compilation error: "@ + s@,
        RpaError::Validation(s) => "Validation error: "@ + s@,
        RpaError::Sandbox(s) => "Sandbox violation: "@ + s@,
        RpaError::WindowNotFound(s) => "Window not found: "@ + s@,
        RpaError::ProcessNotFound(s) => "Process not found: "@ + s@,
        RpaError::OcrFailed(s) => "OCR failed: "@ + s@,
        RpaError::ScreenshotFailed(s) => "Screenshot failed: "@ + s@,
        RpaError::Other(s) => s@,
    }
}

impl RpaError {
    /// The message of the error, as displayed to users.
    pub fn message(&self) -> (r: String)
        ensures
            r@ == error_text(*self),
    {
        match self {
            RpaError::ElementNotFound(s) => prefixed("Element not found: ", s.as_str()),
            RpaError::Timeout(ms, s) => {
                let mut r = string_of("Timeout after ");
                push_decimal(&mut r, *ms);
                push_str(&mut r, "ms waiting for ");
                push_str(&mut r, s.as_str());
                r
            },
            RpaError::WorkflowNotFound(s) => prefixed("Workflow not found: ", s.as_str()),
            RpaError::Plugin(s) => prefixed("Plugin error: ", s.as_str()),
            RpaError::JsRuntime(s) => prefixed("JS runtime error: ", s.as_str()),
            RpaError::Perception(s) => prefixed("Perception failed: ", s.as_str()),
            RpaError::Action(s) => prefixed("Action failed: ", s.as_str()),
            RpaError::VarNotFound(s) => prefixed("Context variable not found: ", s.as_str()),
            RpaError::InvalidInstruction(s) => prefixed("Invalid instruction: ", s.as_str()),
            RpaError::Cancelled => string_of("Execution cancelled"),
            RpaError::Compilation(s) => prefixed("Workflow compilation error: ", s.as_str()),
            RpaError::Validation(s) => prefixed("Validation error: ", s.as_str()),
            RpaError::Sandbox(s) => prefixed("Sandbox violation: ", s.as_str()),
            RpaError::WindowNotFound(s) => prefixed("Window not found: ", s.as_str()),
            RpaError::ProcessNotFound(s) => prefixed("Process not found: ", s.as_str()),
            RpaError::OcrFailed(s) => prefixed("OCR failed: ", s.as_str()),
            RpaError::ScreenshotFailed(s) => prefixed("Screenshot failed: ", s.as_str()),
            RpaError::Other(s) => s.clone(),
        }
    }
}

impl Clone for RpaError {
    fn clone(&self) -> (r: Self)
        ensures
            r == *self,
    {
        match self {
            RpaError::ElementNotFound(s) => RpaError::ElementNotFound(s.clone()),
            RpaError::Timeout(ms, s) => RpaError::Timeout(*ms, s.clone()),
            RpaError::WorkflowNotFound(s) => RpaError::WorkflowNotFound(s.clone()),
            RpaError::Plugin(s) => RpaError::Plugin(s.clone()),
            RpaError::JsRuntime(s) => RpaError::JsRuntime(s.clone()),
            RpaError::Perception(s) => RpaError::Perception(s.clone()),
            RpaError::Action(s) => RpaError::Action(s.clone()),
            RpaError::VarNotFound(s) => RpaError::VarNotFound(s.clone()),
            RpaError::InvalidInstruction(s) => RpaError::InvalidInstruction(s.clone()),
            RpaError::Cancelled => RpaError::Cancelled,
            RpaError::Compilation(s) => RpaError::Compilation(s.clone()),
            RpaError::Validation(s) => RpaError::Validation(s.clone()),
            RpaError::Sandbox(s) => RpaError::Sandbox(s.clone()),
            RpaError::WindowNotFound(s) => RpaError::WindowNotFound(s.clone()),
            RpaError::ProcessNotFound(s) => RpaError::ProcessNotFound(s.clone()),
            RpaError::OcrFailed(s) => RpaError::OcrFailed(s.clone()),
            RpaError::ScreenshotFailed(s) => RpaError::ScreenshotFailed(s.clone()),
            RpaError::Other(s) => RpaError::Other(s.clone()),
        }
    }
}

/// The message of each kind of error: a fixed phrase naming what failed,
/// followed by the error's detail (for a timeout, the milliseconds and what
/// was waited for); a cancelled run says so, and any other error is its
/// detail alone.
pub proof fn law_error_messages(s: String, ms: u64)
    ensures
        error_text(RpaError::ElementNotFound(s)) == "Element not found: "@ + s@,
        error_text(RpaError::Timeout(ms, s)) == "Timeout after "@ + decimal(ms as nat)
            + "ms waiting for "@ + s@,
        error_text(RpaError::WorkflowNotFound(s)) == "Workflow not found: "@ + s@,
        error_text(RpaError::Plugin(s)) == "Plugin error: "@ + s@,
        error_text(RpaError::JsRuntime(s)) == "JS runtime error: "@ + s@,
        error_text(RpaError::Perception(s)) == "Perception failed: "@ + s@,
        error_text(RpaError::Action(s)) == "Action failed: "@ + s@,
        error_text(RpaError::VarNotFound(s)) == "Context variable not found: "@ + s@,
        error_text(RpaError::InvalidInstruction(s)) == "Invalid instruction: "@ + s@,
        error_text(RpaError::Cancelled) == "Execution cancelled"@,
        error_text(RpaError::Compilation(s)) == "Workflow compilation error: "@ + s@,
        error_text(RpaError::Validation(s)) == "Validation error: "@ + s@,
        error_text(RpaError::Sandbox(s)) == "Sandbox violation: "@ + s@,
        error_text(RpaError::WindowNotFound(s)) == "Window not found: "@ + s@,
        error_text(RpaError::ProcessNotFound(s)) == "Process not found: "@ + s@,
        error_text(RpaError::OcrFailed(s)) == "OCR failed: "@ + s@,
        error_text(RpaError::ScreenshotFailed(s)) == "Screenshot failed: "@ + s@,
        error_text(RpaError::Other(s)) == s@,
{
}

} // verus!
