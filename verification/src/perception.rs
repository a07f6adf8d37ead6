//! Perceiving the screen: finding elements, capturing images, recognising
//! text and drawing debug highlights, with stand-ins that need no screen.

use vstd::prelude::*;

use crate::context::Context;
use crate::element::{Element, Rect};
use crate::error::{RpaError, RpaErrorView};
use crate::fmt::{decimal, push_decimal, push_signed_decimal, push_str, signed_decimal, string_of};
use crate::target::Target;

verus! {

/// Finds UI elements on screen.
pub trait Perceptor {
    /// Find the element that matches the target.
    fn find(&self, target: &Target, ctx: &Context) -> Result<Element, RpaError>;

    /// Find all elements that match the target.
    fn find_all(&self, target: &Target, ctx: &Context) -> Result<Vec<Element>, RpaError>;
}

/// Captures the screen as PNG bytes.
pub trait ScreenCapturer {
    /// Capture the whole screen.
    fn capture_screen(&self) -> Result<Vec<u8>, RpaError>;

    /// Capture a region of the screen.
    fn capture_region(&self, region: Rect) -> Result<Vec<u8>, RpaError>;

    /// Capture the window of an element.
    fn capture_window(&self, element: &Element) -> Result<Vec<u8>, RpaError>;
}

/// A rectangle to highlight on screen while debugging.
#[derive(Debug)]
pub struct DebugHighlight {
    pub bounds: Rect,
    pub label: String,
    pub color: String,
    pub duration_ms: u64,
}

/// Draws debug highlights on screen or on screenshots.
pub trait DebugCapturer {
    /// Capture the screen (or a region) with highlights drawn on it, save
    /// it, and give back the path it was saved to.
    fn capture_with_highlight(
        &self,
        region: Option<Rect>,
        highlights: Vec<DebugHighlight>,
        save_path: &str,
    ) -> Result<String, RpaError>;

    /// Show highlights in an overlay on screen.
    fn show_overlay(&self, highlights: Vec<DebugHighlight>) -> Result<(), RpaError>;
}

/// A piece of text found by OCR.
#[derive(Debug)]
pub struct OcrResult {
    pub text: String,
    /// The confidence in [0, 1], as the bits of an `f64`.
    pub confidence: u64,
    pub bounds: Rect,
}

/// Recognises text in images.
pub trait OcrEngine {
    /// The text in an image, or in a region of it.
    fn recognize(&self, image_data: &[u8], region: Option<Rect>) -> Result<String, RpaError>;

    /// The pieces of text in an image, with their confidence and bounds.
    fn recognize_with_confidence(&self, image_data: &[u8], region: Option<Rect>) -> Result<
        Vec<OcrResult>,
        RpaError,
    >;
}

// ---------------------------------------------------------------------
// Finding elements
// ---------------------------------------------------------------------

/// A perceptor that finds the same element for every target, or fails for
/// every target.
pub struct MockPerceptor {
    default_element: Element,
    should_fail: bool,
}

impl MockPerceptor {
    /// The element this perceptor finds.
    pub closed spec fn element(&self) -> Element {
        self.default_element
    }

    /// Whether this perceptor fails every search.
    pub closed spec fn fails(&self) -> bool {
        self.should_fail
    }

    /// A perceptor that finds a 100 x 50 button at the origin whose id and
    /// text are `id`.
    pub fn new(id: &str) -> (r: Self)
        ensures
            !r.fails(),
            r.element().id@ == id@,
            r.element().bounds == (Rect { x: 0, y: 0, width: 100, height: 50 }),
            r.element().text matches Some(t) && t@ == id@,
            r.element().element_type matches Some(t) && t@ == "Button"@,
            r.element().platform_handle is None,
            r.element().process_id is None,
            r.element().process_name is None,
            r.element().window_title is None,
    {
        MockPerceptor {
            default_element: Element {
                id: string_of(id),
                bounds: Rect::new(0, 0, 100, 50),
                text: Some(string_of(id)),
                element_type: Some(string_of("Button")),
                platform_handle: None,
                process_id: None,
                process_name: None,
                window_title: None,
            },
            should_fail: false,
        }
    }

    /// A perceptor that fails every search.
    pub fn failing() -> (r: Self)
        ensures
            r.fails(),
            r.element().id@ == Seq::<char>::empty(),
            r.element().bounds == (Rect { x: 0, y: 0, width: 0, height: 0 }),
            r.element().text is None,
            r.element().element_type is None,
            r.element().platform_handle is None,
            r.element().process_id is None,
            r.element().process_name is None,
            r.element().window_title is None,
    {
        MockPerceptor {
            default_element: Element {
                id: String::new(),
                bounds: Rect::new(0, 0, 0, 0),
                text: None,
                element_type: None,
                platform_handle: None,
                process_id: None,
                process_name: None,
                window_title: None,
            },
            should_fail: true,
        }
    }
}

impl Perceptor for MockPerceptor {
    fn find(&self, target: &Target, ctx: &Context) -> (r: Result<Element, RpaError>)
        ensures
            self.fails() ==> (r matches Err(e) && e@ == RpaErrorView::ElementNotFound("mock fail"@)),
            !self.fails() ==> r == Ok::<Element, RpaError>(self.element()),
    {
        if self.should_fail {
            Err(RpaError::ElementNotFound(string_of("mock fail")))
        } else {
            Ok(self.default_element.clone())
        }
    }

    fn find_all(&self, target: &Target, ctx: &Context) -> (r: Result<Vec<Element>, RpaError>)
        ensures
            self.fails() ==> (r matches Err(e) && e@ == RpaErrorView::ElementNotFound("mock fail"@)),
            !self.fails() ==> (r matches Ok(v) && v@ == seq![self.element()]),
    {
        match self.find(target, ctx) {
            Ok(el) => {
                let v = vec![el];
                Ok(v)
            },
            Err(e) => Err(e),
        }
    }
}

// ---------------------------------------------------------------------
// Capturing the screen
// ---------------------------------------------------------------------

/// A PNG image of one transparent pixel.
pub open spec fn one_pixel_png() -> Seq<u8> {
    seq![
        0x89u8, 0x50u8, 0x4Eu8, 0x47u8, 0x0Du8, 0x0Au8, 0x1Au8, 0x0Au8,
        0x00u8, 0x00u8, 0x00u8, 0x0Du8, 0x49u8, 0x48u8, 0x44u8, 0x52u8,
        0x00u8, 0x00u8, 0x00u8, 0x01u8, 0x00u8, 0x00u8, 0x00u8, 0x01u8,
        0x08u8, 0x06u8, 0x00u8, 0x00u8, 0x00u8, 0x1Fu8, 0x15u8, 0xC4u8,
        0x89u8, 0x00u8, 0x00u8, 0x00u8, 0x0Au8, 0x49u8, 0x44u8, 0x41u8,
        0x54u8, 0x78u8, 0x9Cu8, 0x63u8, 0x00u8, 0x01u8, 0x00u8, 0x00u8,
        0x05u8, 0x00u8, 0x01u8, 0x0Du8, 0x0Au8, 0x2Du8, 0xB4u8, 0x00u8,
        0x00u8, 0x00u8, 0x00u8, 0x49u8, 0x45u8, 0x4Eu8, 0x44u8, 0xAEu8,
        0x42u8, 0x60u8, 0x82u8,
    ]
}

/// A capturer that needs no screen: every capture is a one-pixel PNG.
#[derive(Debug, Clone, Copy)]
pub struct MockScreenCapturer;

impl MockScreenCapturer {
    pub fn new() -> Self {
        MockScreenCapturer
    }
}

impl Default for MockScreenCapturer {
    fn default() -> Self {
        MockScreenCapturer
    }
}

impl ScreenCapturer for MockScreenCapturer {
    fn capture_screen(&self) -> (r: Result<Vec<u8>, RpaError>)
        ensures
            r matches Ok(v) && v@ == one_pixel_png(),
    {
        let v: Vec<u8> = vec![
            0x89u8, 0x50u8, 0x4Eu8, 0x47u8, 0x0Du8, 0x0Au8, 0x1Au8, 0x0Au8,
            0x00u8, 0x00u8, 0x00u8, 0x0Du8, 0x49u8, 0x48u8, 0x44u8, 0x52u8,
            0x00u8, 0x00u8, 0x00u8, 0x01u8, 0x00u8, 0x00u8, 0x00u8, 0x01u8,
            0x08u8, 0x06u8, 0x00u8, 0x00u8, 0x00u8, 0x1Fu8, 0x15u8, 0xC4u8,
            0x89u8, 0x00u8, 0x00u8, 0x00u8, 0x0Au8, 0x49u8, 0x44u8, 0x41u8,
            0x54u8, 0x78u8, 0x9Cu8, 0x63u8, 0x00u8, 0x01u8, 0x00u8, 0x00u8,
            0x05u8, 0x00u8, 0x01u8, 0x0Du8, 0x0Au8, 0x2Du8, 0xB4u8, 0x00u8,
            0x00u8, 0x00u8, 0x00u8, 0x49u8, 0x45u8, 0x4Eu8, 0x44u8, 0xAEu8,
            0x42u8, 0x60u8, 0x82u8,
        ];
        Ok(v)
    }

    fn capture_region(&self, region: Rect) -> (r: Result<Vec<u8>, RpaError>)
        ensures
            r matches Ok(v) && v@ == one_pixel_png(),
    {
        self.capture_screen()
    }

    fn capture_window(&self, element: &Element) -> (r: Result<Vec<u8>, RpaError>)
        ensures
            r matches Ok(v) && v@ == one_pixel_png(),
    {
        self.capture_screen()
    }
}

// ---------------------------------------------------------------------
// Debug highlights
// ---------------------------------------------------------------------

/// A debug capturer that draws nothing and reports the path it was given.
#[derive(Debug, Clone, Copy)]
pub struct MockDebugCapturer;

impl MockDebugCapturer {
    pub fn new() -> Self {
        MockDebugCapturer
    }
}

impl Default for MockDebugCapturer {
    fn default() -> Self {
        MockDebugCapturer
    }
}

impl DebugCapturer for MockDebugCapturer {
    fn capture_with_highlight(
        &self,
        region: Option<Rect>,
        highlights: Vec<DebugHighlight>,
        save_path: &str,
    ) -> (r: Result<String, RpaError>)
        ensures
            r matches Ok(p) && p@ == save_path@,
    {
        Ok(string_of(save_path))
    }

    fn show_overlay(&self, highlights: Vec<DebugHighlight>) -> (r: Result<(), RpaError>)
        ensures
            r is Ok,
    {
        Ok(())
    }
}

// ---------------------------------------------------------------------
// Recognising text
// ---------------------------------------------------------------------

/// A rectangle as `{:?}` prints it.
pub open spec fn rect_debug_text(r: Rect) -> Seq<char> {
    "Rect { x: "@ + signed_decimal(r.x as int) + ", y: "@ + signed_decimal(r.y as int)
        + ", width: "@ + decimal(r.width as nat) + ", height: "@ + decimal(r.height as nat)
        + " }"@
}

/// Appends a rectangle as `{:?}` prints it.
pub fn push_rect_debug(s: &mut String, r: Rect)
    ensures
        final(s)@ == old(s)@ + rect_debug_text(r),
{
    push_str(s, "Rect { x: ");
    push_signed_decimal(s, r.x as i64);
    push_str(s, ", y: ");
    push_signed_decimal(s, r.y as i64);
    push_str(s, ", width: ");
    push_decimal(s, r.width as u64);
    push_str(s, ", height: ");
    push_decimal(s, r.height as u64);
    push_str(s, " }");
    assert(s@ =~= old(s)@ + rect_debug_text(r));
}

/// The text the stand-in OCR engine recognises: its configured text,
/// followed by the region it was asked about, if any.
pub open spec fn mock_ocr_text(fake: Seq<char>, region: Option<Rect>) -> Seq<char> {
    match region {
        Some(r) => fake + " (region: "@ + rect_debug_text(r),
        None => fake,
    }
}

/// The bits of the `f64` 0.95, the confidence the stand-in OCR engine
/// reports.
pub const MOCK_OCR_CONFIDENCE: u64 = 0x3FEE_6666_6666_6666u64;

/// An OCR engine that needs no screen: it recognises a configured text, or
/// fails.
#[derive(Debug, Clone)]
pub struct MockOcrEngine {
    pub fake_text: String,
    pub should_fail: bool,
}

impl MockOcrEngine {
    /// An engine that recognises `text`.
    pub fn new(text: String) -> (r: Self)
        ensures
            r.fake_text@ == text@,
            !r.should_fail,
    {
        MockOcrEngine { fake_text: text, should_fail: false }
    }

    /// An engine that always fails.
    pub fn failing() -> (r: Self)
        ensures
            r.fake_text@ == Seq::<char>::empty(),
            r.should_fail,
    {
        MockOcrEngine { fake_text: String::new(), should_fail: true }
    }
}

impl OcrEngine for MockOcrEngine {
    fn recognize(&self, image_data: &[u8], region: Option<Rect>) -> (r: Result<String, RpaError>)
        ensures
            self.should_fail ==> (r matches Err(e) && e@ == RpaErrorView::OcrFailed(
                "Mock: OCR failed"@,
            )),
            !self.should_fail ==> (r matches Ok(t) && t@ == mock_ocr_text(self.fake_text@, region)),
    {
        if self.should_fail {
            return Err(RpaError::OcrFailed(string_of("Mock: OCR failed")));
        }
        let mut t = self.fake_text.clone();
        match region {
            Some(rect) => {
                push_str(&mut t, " (region: ");
                push_rect_debug(&mut t, rect);
                assert(t@ =~= mock_ocr_text(self.fake_text@, region));
            },
            None => {},
        }
        Ok(t)
    }

    fn recognize_with_confidence(&self, image_data: &[u8], region: Option<Rect>) -> (r: Result<
        Vec<OcrResult>,
        RpaError,
    >)
        ensures
            self.should_fail ==> (r matches Err(e) && e@ == RpaErrorView::OcrFailed(
                "Mock: OCR failed"@,
            )),
            !self.should_fail ==> (r matches Ok(v) && v@.len() == 1 && v@[0].text@
                == self.fake_text@ && v@[0].confidence == MOCK_OCR_CONFIDENCE && v@[0].bounds == (
            match region {
                Some(b) => b,
                None => Rect { x: 0, y: 0, width: 100, height: 50 },
            })),
    {
        if self.should_fail {
            return Err(RpaError::OcrFailed(string_of("Mock: OCR failed")));
        }
        let bounds = match region {
            Some(b) => b,
            None => Rect::new(0, 0, 100, 50),
        };
        let v = vec![
            OcrResult {
                text: self.fake_text.clone(),
                confidence: MOCK_OCR_CONFIDENCE,
                bounds,
            },
        ];
        Ok(v)
    }
}

} // verus!
