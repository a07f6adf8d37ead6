//! How a UI element is located: by UI Automation, image, text, position,
//! window, or a region of a window.

use vstd::prelude::*;

use crate::element::{clone_opt_string, Rect};

verus! {

/// Selector for UI Automation based element finding.
#[derive(Debug, PartialEq, Eq)]
pub struct UiaSelector {
    pub name: Option<String>,
    pub class_name: Option<String>,
    pub automation_id: Option<String>,
    pub control_type: Option<String>,
    pub index: Option<u32>,
}

impl Clone for UiaSelector {
    fn clone(&self) -> (r: Self)
        ensures
            r == *self,
    {
        UiaSelector {
            name: clone_opt_string(&self.name),
            class_name: clone_opt_string(&self.class_name),
            automation_id: clone_opt_string(&self.automation_id),
            control_type: clone_opt_string(&self.control_type),
            index: self.index,
        }
    }
}

/// Selector for windows by process name, title, class name or index.
#[derive(Debug, PartialEq, Eq)]
pub struct WindowSelector {
    /// Process name to match (e.g. "notepad.exe").
    pub process_name: Option<String>,
    /// Window title to match (substring match).
    pub window_title: Option<String>,
    /// Window class name to match.
    pub class_name: Option<String>,
    /// Zero-based index of the window among several matches.
    pub index: Option<u32>,
}

impl Clone for WindowSelector {
    fn clone(&self) -> (r: Self)
        ensures
            r == *self,
    {
        WindowSelector {
            process_name: clone_opt_string(&self.process_name),
            window_title: clone_opt_string(&self.window_title),
            class_name: clone_opt_string(&self.class_name),
            index: self.index,
        }
    }
}

impl Default for WindowSelector {
    fn default() -> (r: Self)
        ensures
            r == (WindowSelector {
                process_name: None,
                window_title: None,
                class_name: None,
                index: None,
            }),
    {
        WindowSelector { process_name: None, window_title: None, class_name: None, index: None }
    }
}

impl WindowSelector {
    /// A selector that matches by process name.
    pub fn by_process_name(name: String) -> (r: Self)
        ensures
            r == (WindowSelector {
                process_name: Some(name),
                window_title: None,
                class_name: None,
                index: None,
            }),
    {
        WindowSelector { process_name: Some(name), window_title: None, class_name: None, index: None }
    }

    /// A selector that matches by window title (substring match).
    pub fn by_title(title: String) -> (r: Self)
        ensures
            r == (WindowSelector {
                process_name: None,
                window_title: Some(title),
                class_name: None,
                index: None,
            }),
    {
        WindowSelector { process_name: None, window_title: Some(title), class_name: None, index: None }
    }

    /// A selector that matches by window class name.
    pub fn by_class(class: String) -> (r: Self)
        ensures
            r == (WindowSelector {
                process_name: None,
                window_title: None,
                class_name: Some(class),
                index: None,
            }),
    {
        WindowSelector { process_name: None, window_title: None, class_name: Some(class), index: None }
    }

    /// The same selector, choosing the match at `idx` among several.
    pub fn index(self, idx: u32) -> (r: Self)
        ensures
            r == (WindowSelector { index: Some(idx), ..self }),
    {
        let mut s = self;
        s.index = Some(idx);
        s
    }
}

/// How to locate a UI element.
///
/// Targets are tried along a fallback chain of perception strategies:
/// UI Automation, then text, then image; a position needs no search.
#[allow(inconsistent_fields)]
#[derive(Debug, PartialEq, Eq)]
pub enum Target {
    /// Find the element with Windows UI Automation.
    UIA { selector: UiaSelector },
    /// Find the element by matching an image template; the threshold is the
    /// bit pattern of an IEEE 754 double.
    Image { path: String, threshold: Option<u64> },
    /// Find the element by matching text with OCR.
    Text { pattern: String, region: Option<Rect> },
    /// A fixed screen position.
    Position { x: i32, y: i32 },
    /// A window found by its properties.
    Window { selector: WindowSelector },
    /// A region within a window, as an offset from the window's bounds.
    Region { window: Box<Target>, region: Rect },
}

impl Clone for Target {
    fn clone(&self) -> (r: Self)
        ensures
            r == *self,
        decreases *self,
    {
        match self {
            Target::UIA { selector } => Target::UIA { selector: selector.clone() },
            Target::Image { path, threshold } => Target::Image {
                path: path.clone(),
                threshold: *threshold,
            },
            Target::Text { pattern, region } => Target::Text {
                pattern: pattern.clone(),
                region: *region,
            },
            Target::Position { x, y } => Target::Position { x: *x, y: *y },
            Target::Window { selector } => Target::Window { selector: selector.clone() },
            Target::Region { window, region } => {
                let inner: &Target = &**window;
                Target::Region { window: Box::new(inner.clone()), region: *region }
            },
        }
    }
}

impl Target {
    /// A UI Automation target with just a name.
    pub fn by_name(name: String) -> (r: Self)
        ensures
            r == (Target::UIA {
                selector: UiaSelector {
                    name: Some(name),
                    class_name: None,
                    automation_id: None,
                    control_type: None,
                    index: None,
                },
            }),
    {
        Target::UIA {
            selector: UiaSelector {
                name: Some(name),
                class_name: None,
                automation_id: None,
                control_type: None,
                index: None,
            },
        }
    }

    /// A UI Automation target with an automation id.
    pub fn by_automation_id(id: String) -> (r: Self)
        ensures
            r == (Target::UIA {
                selector: UiaSelector {
                    name: None,
                    class_name: None,
                    automation_id: Some(id),
                    control_type: None,
                    index: None,
                },
            }),
    {
        Target::UIA {
            selector: UiaSelector {
                name: None,
                class_name: None,
                automation_id: Some(id),
                control_type: None,
                index: None,
            },
        }
    }

    /// A position target.
    pub fn at(x: i32, y: i32) -> (r: Self)
        ensures
            r == (Target::Position { x, y }),
    {
        Target::Position { x, y }
    }

    /// A window target.
    pub fn window(selector: WindowSelector) -> (r: Self)
        ensures
            r == (Target::Window { selector }),
    {
        Target::Window { selector }
    }

    /// A region target: an offset within a window.
    pub fn region(window: Target, region: Rect) -> (r: Self)
        ensures
            r == (Target::Region { window: Box::new(window), region }),
    {
        Target::Region { window: Box::new(window), region }
    }
}

} // verus!
