//! Finding top-level windows by process, title, class and index.

use vstd::prelude::*;

use crate::element::{clone_opt_string, Element, Rect};
use crate::error::{RpaError, RpaErrorView};
use crate::executor::opt_str_view;
use crate::fmt::{
    chars_of, contains_str, decimal, has_substring, hex, prefixed, push_decimal, push_hex, push_str,
    string_of,
};
use crate::target::WindowSelector;

verus! {

/// The code of a character with ASCII upper-case letters made lower case.
pub open spec fn ascii_lower_code(c: char) -> u32 {
    let v = c as u32;
    if 65 <= v <= 90 {
        (v + 32) as u32
    } else {
        v
    }
}

/// Two texts are equal when ASCII letters are compared ignoring case.
pub open spec fn eq_ignore_ascii_case(a: Seq<char>, b: Seq<char>) -> bool {
    a.len() == b.len() && forall|i: int| 0 <= i < a.len() ==> ascii_lower_code(a[i]) == ascii_lower_code(b[i])
}

/// The process id of the first process whose executable name equals `name`
/// ignoring ASCII case, among processes given by executable name and id.
pub open spec fn first_process_named(procs: Seq<(Seq<char>, u32)>, name: Seq<char>) -> Option<u32>
    decreases procs.len(),
{
    if procs.len() == 0 {
        None
    } else if eq_ignore_ascii_case(procs[0].0, name) {
        Some(procs[0].1)
    } else {
        first_process_named(procs.drop_first(), name)
    }
}

/// The value of a difference of two `i32` as a `u32`: a negative one
/// wraps around.
pub open spec fn wrap_u32(d: int) -> u32 {
    if d >= 0 {
        d as u32
    } else {
        (d + 0x1_0000_0000) as u32
    }
}

/// The bounds of a window given by its edges.
pub open spec fn edges_rect(left: i32, top: i32, right: i32, bottom: i32) -> Rect {
    Rect { x: left, y: top, width: wrap_u32(right - left), height: wrap_u32(bottom - top) }
}

fn ascii_lower(c: char) -> (r: u32)
    ensures
        r == ascii_lower_code(c),
{
    let v = c as u32;
    if 65 <= v && v <= 90 {
        v + 32
    } else {
        v
    }
}

/// Whether two texts are equal, ASCII letters compared ignoring case.
pub fn str_eq_ignore_ascii_case(a: &str, b: &str) -> (r: bool)
    ensures
        r == eq_ignore_ascii_case(a@, b@),
{
    let x = chars_of(a);
    let y = chars_of(b);
    if x.len() != y.len() {
        return false;
    }
    let mut i: usize = 0;
    while i < x.len()
        invariant
            x@ == a@,
            y@ == b@,
            x@.len() == y@.len(),
            i <= x@.len(),
            forall|j: int| 0 <= j < i ==> ascii_lower_code(x@[j]) == ascii_lower_code(y@[j]),
        decreases x@.len() - i,
    {
        if ascii_lower(x[i]) != ascii_lower(y[i]) {
            return false;
        }
        i = i + 1;
    }
    true
}

/// Finds windows and brings them to the foreground.
pub trait WindowPerceptor {
    /// The window that the selector picks.
    fn find_window(&self, selector: &WindowSelector) -> Result<Element, RpaError>;

    /// All windows that match the selector.
    fn find_all_windows(&self, selector: &WindowSelector) -> Result<Vec<Element>, RpaError>;

    /// Bring a window to the foreground.
    fn set_foreground(&self, element: &Element) -> Result<(), RpaError>;

    /// The window in the foreground.
    fn get_foreground_window(&self) -> Result<Element, RpaError>;
}

// ---------------------------------------------------------------------
// Describing a selector
// ---------------------------------------------------------------------

/// The text `{:?}` prints for a string: the string quoted, with quotes,
/// backslashes and characters that are not printable escaped.
pub uninterp spec fn str_debug_text(s: Seq<char>) -> Seq<char>;

/// `<str as Debug>::fmt`, through `format!("{:?}")`. Claimed: the text is a
/// function of the string alone, named `str_debug_text`; what that
/// function is, character by character, is not stated.
#[verifier::external_body]
fn debug_str(s: &str) -> (r: String)
    ensures
        r@ == str_debug_text(s@),
{
    format!("{:?}", s)
}

/// An optional string as `{:?}` prints it.
pub open spec fn opt_debug_text(o: Option<Seq<char>>) -> Seq<char> {
    match o {
        Some(s) => "Some("@ + str_debug_text(s) + ")"@,
        None => "None"@,
    }
}

/// Renders an optional string as `{:?}` does.
pub fn debug_opt_str(o: &Option<String>) -> (r: String)
    ensures
        r@ == opt_debug_text(opt_str_view(*o)),
{
    match o {
        Some(s) => {
            let mut r = string_of("Some(");
            let d = debug_str(s.as_str());
            push_str(&mut r, d.as_str());
            push_str(&mut r, ")");
            r
        },
        None => string_of("None"),
    }
}

/// The description of a selector from the rendered texts of its criteria.
pub open spec fn selector_text_of(process: Seq<char>, title: Seq<char>, class: Seq<char>) -> Seq<
    char,
> {
    "process="@ + process + ", title="@ + title + ", class="@ + class
}

/// The description of a selector in error messages.
pub open spec fn selector_text(sel: WindowSelector) -> Seq<char> {
    selector_text_of(
        opt_debug_text(opt_str_view(sel.process_name)),
        opt_debug_text(opt_str_view(sel.window_title)),
        opt_debug_text(opt_str_view(sel.class_name)),
    )
}

/// Joins the rendered criteria of a selector into its description.
pub fn selector_description(process: &str, title: &str, class: &str) -> (r: String)
    ensures
        r@ == selector_text_of(process@, title@, class@),
{
    let mut r = string_of("process=");
    push_str(&mut r, process);
    push_str(&mut r, ", title=");
    push_str(&mut r, title);
    push_str(&mut r, ", class=");
    push_str(&mut r, class);
    r
}

/// The description of a selector in error messages.
pub fn describe_selector(sel: &WindowSelector) -> (r: String)
    ensures
        r@ == selector_text(*sel),
{
    let p = debug_opt_str(&sel.process_name);
    let t = debug_opt_str(&sel.window_title);
    let c = debug_opt_str(&sel.class_name);
    selector_description(p.as_str(), t.as_str(), c.as_str())
}

/// A copy of a list of elements.
pub fn clone_elements(v: &Vec<Element>) -> (r: Vec<Element>)
    ensures
        r@ == v@,
{
    let mut r: Vec<Element> = Vec::new();
    let mut i: usize = 0;
    while i < v.len()
        invariant
            i <= v@.len(),
            r@ == v@.take(i as int),
        decreases v@.len() - i,
    {
        r.push(v[i].clone());
        i = i + 1;
        assert(r@ =~= v@.take(i as int));
    }
    assert(v@.take(i as int) =~= v@);
    r
}

// ---------------------------------------------------------------------
// A perceptor over a fixed list of windows
// ---------------------------------------------------------------------

/// A window perceptor over a fixed list of windows: the first one is found
/// and is in the foreground; or one that fails every search.
#[derive(Debug, Clone)]
pub struct MockWindowPerceptor {
    pub windows: Vec<Element>,
    pub should_fail: bool,
}

impl MockWindowPerceptor {
    /// A perceptor over the given windows.
    pub fn new(windows: Vec<Element>) -> (r: Self)
        ensures
            r.windows == windows,
            !r.should_fail,
    {
        MockWindowPerceptor { windows, should_fail: false }
    }

    /// A perceptor that fails every search.
    pub fn failing() -> (r: Self)
        ensures
            r.windows@.len() == 0,
            r.should_fail,
    {
        MockWindowPerceptor { windows: Vec::new(), should_fail: true }
    }
}

impl WindowPerceptor for MockWindowPerceptor {
    fn find_window(&self, selector: &WindowSelector) -> (r: Result<Element, RpaError>)
        ensures
            self.should_fail ==> (r matches Err(e) && e@ == RpaErrorView::WindowNotFound(
                "Mock: Window not found for selector: "@ + selector_text(*selector),
            )),
            !self.should_fail && self.windows@.len() > 0 ==> r == Ok::<Element, RpaError>(
                self.windows@[0],
            ),
            !self.should_fail && self.windows@.len() == 0 ==> (r matches Err(e) && e@
                == RpaErrorView::WindowNotFound("Mock: no windows registered"@)),
    {
        if self.should_fail {
            let d = describe_selector(selector);
            return Err(RpaError::WindowNotFound(prefixed("Mock: Window not found for selector: ", d.as_str())));
        }
        if self.windows.len() > 0 {
            Ok(self.windows[0].clone())
        } else {
            Err(RpaError::WindowNotFound(string_of("Mock: no windows registered")))
        }
    }

    fn find_all_windows(&self, selector: &WindowSelector) -> (r: Result<Vec<Element>, RpaError>)
        ensures
            self.should_fail ==> (r matches Err(e) && e@ == RpaErrorView::WindowNotFound(
                "Mock: Windows not found for selector: "@ + selector_text(*selector),
            )),
            !self.should_fail ==> (r matches Ok(v) && v@ == self.windows@),
    {
        if self.should_fail {
            let d = describe_selector(selector);
            return Err(
                RpaError::WindowNotFound(prefixed("Mock: Windows not found for selector: ", d.as_str())),
            );
        }
        Ok(clone_elements(&self.windows))
    }

    fn set_foreground(&self, element: &Element) -> (r: Result<(), RpaError>)
        ensures
            r is Ok,
    {
        Ok(())
    }

    fn get_foreground_window(&self) -> (r: Result<Element, RpaError>)
        ensures
            self.windows@.len() > 0 ==> r == Ok::<Element, RpaError>(self.windows@[0]),
            self.windows@.len() == 0 ==> (r matches Err(e) && e@ == RpaErrorView::WindowNotFound(
                "Mock: no foreground window"@,
            )),
    {
        if self.windows.len() > 0 {
            Ok(self.windows[0].clone())
        } else {
            Err(RpaError::WindowNotFound(string_of("Mock: no foreground window")))
        }
    }
}

// ---------------------------------------------------------------------
// Choosing among the windows of the desktop
// ---------------------------------------------------------------------

/// The lower-case form of a text, as `str::to_lowercase` computes it.
pub uninterp spec fn lowercase_text(s: Seq<char>) -> Seq<char>;

/// `str::to_lowercase`. Claimed: the result is a function of the text
/// alone, named `lowercase_text`; the Unicode case mapping it applies is not
/// stated.
#[verifier::external_body]
fn to_lowercase(s: &str) -> (r: String)
    ensures
        r@ == lowercase_text(s@),
{
    s.to_lowercase()
}

/// A visible top-level window, as the desktop's window enumeration reports
/// it, with the executable name of its process.
#[derive(Debug)]
pub struct WindowCandidate {
    /// The window handle.
    pub handle: u64,
    pub title: String,
    pub class_name: String,
    pub bounds: Rect,
    pub process_id: u32,
    /// The executable name of the owning process ("notepad.exe").
    pub process_name: String,
}

impl Clone for WindowCandidate {
    fn clone(&self) -> (r: Self)
        ensures
            r == *self,
    {
        WindowCandidate {
            handle: self.handle,
            title: self.title.clone(),
            class_name: self.class_name.clone(),
            bounds: self.bounds,
            process_id: self.process_id,
            process_name: self.process_name.clone(),
        }
    }
}

/// Whether a window meets every criterion of the selector: its class and
/// title contain the wanted ones, its process name contains the wanted one
/// ignoring case, and, where the wanted process was found running, it
/// belongs to that process.
pub open spec fn window_matches(
    sel: WindowSelector,
    w: WindowCandidate,
    process_id: Option<u32>,
) -> bool {
    &&& sel.class_name matches Some(c) ==> has_substring(w.class_name@, c@)
    &&& sel.window_title matches Some(t) ==> has_substring(w.title@, t@)
    &&& sel.process_name matches Some(p) ==> has_substring(
        lowercase_text(w.process_name@),
        lowercase_text(p@),
    )
    &&& process_id matches Some(pid) ==> w.process_id == pid
}

/// The windows that meet the selector's criteria, in enumeration order.
pub open spec fn matching_windows(
    sel: WindowSelector,
    ws: Seq<WindowCandidate>,
    process_id: Option<u32>,
) -> Seq<WindowCandidate>
    decreases ws.len(),
{
    if ws.len() == 0 {
        Seq::empty()
    } else {
        let rest = matching_windows(sel, ws.drop_last(), process_id);
        if window_matches(sel, ws.last(), process_id) {
            rest.push(ws.last())
        } else {
            rest
        }
    }
}

/// The windows picked by a selector are those of the desktop that meet its
/// criteria, in enumeration order.
pub proof fn law_windows_matching(sel: WindowSelector, ws: Seq<WindowCandidate>, process_id: Option<u32>)
    ensures
        matching_windows(sel, ws, process_id) == ws.filter(
            |w: WindowCandidate| window_matches(sel, w, process_id),
        ),
    decreases ws.len(),
{
    reveal(Seq::filter);
    if ws.len() > 0 {
        law_windows_matching(sel, ws.drop_last(), process_id);
    }
}

/// The element that stands for a window: its id is `window_` and the
/// handle as a pointer prints, its text is the title.
pub open spec fn window_element_ok(w: WindowCandidate, e: Element) -> bool {
    &&& e.id@ == "window_0x"@ + hex(w.handle as nat)
    &&& e.bounds == w.bounds
    &&& e.text matches Some(t) && t@ == w.title@
    &&& e.element_type matches Some(t) && t@ == "Window"@
    &&& e.platform_handle == Some(w.handle)
    &&& e.process_id == Some(w.process_id)
    &&& e.process_name matches Some(p) && p@ == w.process_name@
    &&& e.window_title matches Some(t) && t@ == w.title@
}

/// The message of a window index past the matches.
pub open spec fn index_out_of_range_text(idx: nat, found: nat) -> Seq<char> {
    "Window index "@ + decimal(idx) + " out of range (found "@ + decimal(found) + " windows)"@
}

/// The UTF-16 code units of one character.
pub open spec fn utf16_units(c: char) -> Seq<u16> {
    let v = c as u32;
    if v < 0x10000 {
        seq![v as u16]
    } else {
        let w = (v - 0x10000) as u32;
        seq![(0xD800 + w / 0x400) as u16, (0xDC00 + w % 0x400) as u16]
    }
}

/// The UTF-16 code units of a text.
pub open spec fn utf16_encode(s: Seq<char>) -> Seq<u16>
    decreases s.len(),
{
    if s.len() == 0 {
        Seq::empty()
    } else {
        utf16_units(s[0]) + utf16_encode(s.drop_first())
    }
}

proof fn lemma_encode_push(s: Seq<char>, c: char)
    ensures
        utf16_encode(s.push(c)) == utf16_encode(s) + utf16_units(c),
    decreases s.len(),
{
    if s.len() == 0 {
        assert(s.push(c).drop_first() =~= Seq::<char>::empty());
        assert(s.push(c)[0] == c);
        assert(utf16_encode(Seq::<char>::empty()) == Seq::<u16>::empty());
        assert(utf16_encode(s.push(c)) == utf16_units(c) + utf16_encode(s.push(c).drop_first()));
        assert(utf16_encode(s.push(c)) =~= utf16_units(c));
    } else {
        lemma_encode_push(s.drop_first(), c);
        assert(s.push(c).drop_first() =~= s.drop_first().push(c));
        assert(utf16_encode(s.push(c)) =~= utf16_encode(s) + utf16_units(c));
    }
}

/// The text of UTF-16 code units, with each unpaired surrogate replaced by
/// U+FFFD.
pub open spec fn utf16_decode_lossy(s: Seq<u16>) -> Seq<char>
    decreases s.len(),
{
    if s.len() == 0 {
        Seq::empty()
    } else if 0xD800 <= s[0] < 0xDC00 && s.len() >= 2 && 0xDC00 <= s[1] < 0xE000 {
        seq![(0x10000 + (s[0] - 0xD800) * 0x400 + (s[1] - 0xDC00)) as char]
            + utf16_decode_lossy(s.subrange(2, s.len() as int))
    } else if 0xD800 <= s[0] < 0xE000 {
        seq!['\u{FFFD}'] + utf16_decode_lossy(s.drop_first())
    } else {
        seq![s[0] as char] + utf16_decode_lossy(s.drop_first())
    }
}

/// `String::from_utf16_lossy`: decodes UTF-16, replacing each unpaired
/// surrogate with U+FFFD, as its documentation says.
#[verifier::external_body]
fn utf16_lossy(v: &[u16]) -> (r: String)
    ensures
        r@ == utf16_decode_lossy(v@),
{
    String::from_utf16_lossy(v)
}

/// The units of a NUL-terminated wide string before its first NUL (all of
/// them when there is none).
pub open spec fn before_nul(s: Seq<u16>) -> Seq<u16>
    decreases s.len(),
{
    if s.len() == 0 {
        s
    } else if s[0] == 0 {
        Seq::empty()
    } else {
        seq![s[0]] + before_nul(s.drop_first())
    }
}

proof fn lemma_before_nul(s: Seq<u16>, i: int)
    requires
        0 <= i <= s.len(),
        forall|k: int| 0 <= k < i ==> s[k] != 0,
        i == s.len() || s[i] == 0,
    ensures
        before_nul(s) == s.take(i),
    decreases s.len(),
{
    if s.len() == 0 {
        assert(s.take(i) =~= s);
    } else if i == 0 {
        assert(s.take(0) =~= Seq::<u16>::empty());
    } else {
        lemma_before_nul(s.drop_first(), i - 1);
        assert(s.take(i) =~= seq![s[0]] + s.drop_first().take(i - 1));
    }
}

proof fn lemma_units_decode(c: char, rest: Seq<u16>)
    ensures
        utf16_decode_lossy(utf16_units(c) + rest) == seq![c] + utf16_decode_lossy(rest),
        forall|k: int| 0 <= k < utf16_units(c).len() ==> #[trigger] utf16_units(c)[k] != 0
            || c == '\0',
{
    let v = c as u32;
    let u = utf16_units(c) + rest;
    if v < 0x10000 {
        assert(u[0] == v as u16);
        assert(((v as u16) as u32) == v);
        assert(u.drop_first() =~= rest);
    } else {
        let w = (v - 0x10000) as u32;
        assert(w < 0x10_0000);
        let q = w / 0x400;
        let m = w % 0x400;
        assert(q < 0x400 && m < 0x400 && q * 0x400 + m == w) by (nonlinear_arith)
            requires
                w < 0x10_0000,
                q == w / 0x400,
                m == w % 0x400,
        ;
        let hi = (0xD800 + q) as u16;
        let lo = (0xDC00 + m) as u16;
        assert(hi == 0xD800 + q);
        assert(lo == 0xDC00 + m);
        assert(u[0] == hi && u[1] == lo);
        assert(0x10000 + (hi - 0xD800) * 0x400 + (lo - 0xDC00) == v);
        assert(u.subrange(2, u.len() as int) =~= rest);
    }
}

proof fn lemma_decode_encode(s: Seq<char>)
    ensures
        utf16_decode_lossy(utf16_encode(s)) == s,
    decreases s.len(),
{
    if s.len() > 0 {
        lemma_decode_encode(s.drop_first());
        lemma_units_decode(s[0], utf16_encode(s.drop_first()));
        assert(seq![s[0]] + s.drop_first() =~= s);
    }
}

proof fn lemma_before_nul_encode(s: Seq<char>)
    requires
        forall|i: int| 0 <= i < s.len() ==> s[i] != '\0',
    ensures
        before_nul(utf16_encode(s).push(0)) == utf16_encode(s),
    decreases s.len(),
{
    if s.len() == 0 {
        assert(utf16_encode(s).push(0)[0] == 0);
    } else {
        let t = s.drop_first();
        lemma_before_nul_encode(t);
        lemma_units_decode(s[0], utf16_encode(t));
        let us = utf16_units(s[0]);
        lemma_before_nul_prefix(us, utf16_encode(t).push(0));
        assert(utf16_encode(s).push(0) =~= us + utf16_encode(t).push(0));
        assert(us + utf16_encode(t) =~= utf16_encode(s));
    }
}

proof fn lemma_before_nul_prefix(a: Seq<u16>, b: Seq<u16>)
    requires
        forall|k: int| 0 <= k < a.len() ==> a[k] != 0,
    ensures
        before_nul(a + b) == a + before_nul(b),
    decreases a.len(),
{
    if a.len() > 0 {
        lemma_before_nul_prefix(a.drop_first(), b);
        assert((a + b).drop_first() =~= a.drop_first() + b);
        assert(seq![a[0]] + (a.drop_first() + before_nul(b)) =~= a + before_nul(b));
    } else {
        assert(a + b =~= b);
        assert(a + before_nul(b) =~= before_nul(b));
    }
}

/// A text without NUL characters survives the trip to a wide string and
/// back: `from_wide_string(to_wide_string(s))` is `s`.
pub proof fn law_wide_string_round_trip(s: Seq<char>)
    requires
        forall|i: int| 0 <= i < s.len() ==> s[i] != '\0',
    ensures
        utf16_decode_lossy(before_nul(utf16_encode(s).push(0))) == s,
{
    lemma_before_nul_encode(s);
    lemma_decode_encode(s);
}

/// The Windows window finder: how it chooses among the windows that the
/// desktop's window enumeration reports, and how it converts the wide
/// strings that Win32 takes and returns.
#[derive(Debug, Clone, Copy)]
pub struct WindowsWindowPerceptor;

impl WindowsWindowPerceptor {
    pub fn new() -> Self {
        WindowsWindowPerceptor
    }

    /// A text as a NUL-terminated wide string, as Win32 takes names.
    pub fn to_wide_string(s: &str) -> (r: Vec<u16>)
        ensures
            r@ == utf16_encode(s@).push(0),
    {
        let cs = chars_of(s);
        let mut r: Vec<u16> = Vec::new();
        let mut i: usize = 0;
        while i < cs.len()
            invariant
                i <= cs@.len(),
                r@ == utf16_encode(cs@.take(i as int)),
            decreases cs@.len() - i,
        {
            let c = cs[i];
            let v: u32 = c as u32;
            let ghost before = r@;
            if v < 0x10000 {
                r.push(v as u16);
                assert(r@ =~= before + utf16_units(c));
            } else {
                let w: u32 = v - 0x10000;
                let hi: u16 = (0xD800 + w / 0x400) as u16;
                let lo: u16 = (0xDC00 + w % 0x400) as u16;
                r.push(hi);
                r.push(lo);
                assert(r@ =~= before + utf16_units(c));
            }
            proof {
                assert(cs@.take(i + 1) =~= cs@.take(i as int).push(c));
                lemma_encode_push(cs@.take(i as int), c);
            }
            i = i + 1;
            assert(r@ =~= utf16_encode(cs@.take(i as int)));
        }
        assert(cs@.take(i as int) =~= s@);
        r.push(0);
        r
    }

    /// The text of a NUL-terminated wide string, as Win32 returns window
    /// titles and class names.
    pub fn from_wide_string(wide: &[u16]) -> (r: String)
        ensures
            r@ == utf16_decode_lossy(before_nul(wide@)),
    {
        let mut units: Vec<u16> = Vec::new();
        let mut i: usize = 0;
        while i < wide.len()
            invariant
                i <= wide@.len(),
                units@ == wide@.take(i as int),
                forall|k: int| 0 <= k < i ==> wide@[k] != 0,
            ensures
                i <= wide@.len(),
                units@ == wide@.take(i as int),
                forall|k: int| 0 <= k < i ==> wide@[k] != 0,
                i == wide@.len() || wide@[i as int] == 0,
            decreases wide@.len() - i,
        {
            if wide[i] == 0 {
                break ;
            }
            units.push(wide[i]);
            i = i + 1;
            assert(units@ =~= wide@.take(i as int));
        }
        proof {
            lemma_before_nul(wide@, i as int);
        }
        utf16_lossy(units.as_slice())
    }

    /// Whether a window meets the selector's criteria; `process_id` is the
    /// id of the wanted process, where it was found running.
    pub fn matches(sel: &WindowSelector, w: &WindowCandidate, process_id: Option<u32>) -> (r: bool)
        ensures
            r == window_matches(*sel, *w, process_id),
    {
        match &sel.class_name {
            Some(c) => {
                if !contains_str(w.class_name.as_str(), c.as_str()) {
                    return false;
                }
            },
            None => {},
        }
        match &sel.window_title {
            Some(t) => {
                if !contains_str(w.title.as_str(), t.as_str()) {
                    return false;
                }
            },
            None => {},
        }
        match &sel.process_name {
            Some(p) => {
                let exe = to_lowercase(w.process_name.as_str());
                let wanted = to_lowercase(p.as_str());
                if !contains_str(exe.as_str(), wanted.as_str()) {
                    return false;
                }
            },
            None => {},
        }
        match process_id {
            Some(pid) => w.process_id == pid,
            None => true,
        }
    }

    /// The process id of the first process, in the order given, whose
    /// executable name equals `name` ignoring ASCII case.
    pub fn find_process_id(procs: &Vec<(String, u32)>, name: &str) -> (r: Option<u32>)
        ensures
            r == first_process_named(procs@.map_values(|p: (String, u32)| (p.0@, p.1)), name@),
    {
        let ghost all = procs@.map_values(|p: (String, u32)| (p.0@, p.1));
        assert(all.skip(0) =~= all);
        let mut i: usize = 0;
        while i < procs.len()
            invariant
                i <= procs@.len(),
                all == procs@.map_values(|p: (String, u32)| (p.0@, p.1)),
                first_process_named(all, name@) == first_process_named(all.skip(i as int), name@),
            decreases procs@.len() - i,
        {
            let ghost rest = all.skip(i as int);
            assert(rest[0] == (procs@[i as int].0@, procs@[i as int].1));
            assert(rest.drop_first() =~= all.skip(i + 1));
            if str_eq_ignore_ascii_case(procs[i].0.as_str(), name) {
                return Some(procs[i].1);
            }
            i = i + 1;
        }
        assert(all.skip(i as int).len() == 0);
        None
    }

    /// The bounds of a window from its edges: the top-left corner, and the
    /// width and height as the differences of the edges.
    pub fn window_rect(left: i32, top: i32, right: i32, bottom: i32) -> (r: Rect)
        requires
            i32::MIN <= right - left <= i32::MAX,
            i32::MIN <= bottom - top <= i32::MAX,
        ensures
            r == edges_rect(left, top, right, bottom),
    {
        let w: i32 = right - left;
        let h: i32 = bottom - top;
        let width: u32 = if w >= 0 {
            w as u32
        } else {
            (w as i64 + 0x1_0000_0000i64) as u32
        };
        let height: u32 = if h >= 0 {
            h as u32
        } else {
            (h as i64 + 0x1_0000_0000i64) as u32
        };
        Rect { x: left, y: top, width, height }
    }

    /// The windows that meet the selector's criteria, in the order given.
    pub fn find_windows_matching(
        sel: &WindowSelector,
        windows: &Vec<WindowCandidate>,
        process_id: Option<u32>,
    ) -> (r: Vec<WindowCandidate>)
        ensures
            r@ == matching_windows(*sel, windows@, process_id),
    {
        let mut r: Vec<WindowCandidate> = Vec::new();
        let mut i: usize = 0;
        while i < windows.len()
            invariant
                i <= windows@.len(),
                r@ == matching_windows(*sel, windows@.take(i as int), process_id),
            decreases windows@.len() - i,
        {
            proof {
                let t = windows@.take(i + 1);
                assert(t.drop_last() =~= windows@.take(i as int));
                assert(t.last() == windows@[i as int]);
            }
            if Self::matches(sel, &windows[i], process_id) {
                r.push(windows[i].clone());
            }
            i = i + 1;
        }
        assert(windows@.take(i as int) =~= windows@);
        r
    }

    /// The element that stands for a window.
    pub fn make_element(w: &WindowCandidate) -> (r: Element)
        ensures
            window_element_ok(*w, r),
    {
        let mut id = string_of("window_0x");
        push_hex(&mut id, w.handle);
        Element {
            id,
            bounds: w.bounds,
            text: Some(w.title.clone()),
            element_type: Some(string_of("Window")),
            platform_handle: Some(w.handle),
            process_id: Some(w.process_id),
            process_name: Some(w.process_name.clone()),
            window_title: Some(w.title.clone()),
        }
    }

    /// The window that the selector's index picks among the matches (the
    /// first when no index is given).
    pub fn select_window(sel: &WindowSelector, matches: &Vec<WindowCandidate>) -> (r: Result<
        Element,
        RpaError,
    >)
        ensures
            matches@.len() == 0 ==> (r matches Err(e) && e@ == RpaErrorView::WindowNotFound(
                "No window found for selector: "@ + selector_text(*sel),
            )),
            ({
                let idx: nat = match sel.index {
                    Some(i) => i as nat,
                    None => 0,
                };
                &&& (matches@.len() > 0 && idx >= matches@.len()) ==> (r matches Err(e) && e@
                    == RpaErrorView::WindowNotFound(
                    index_out_of_range_text(idx, matches@.len()),
                ))
                &&& idx < matches@.len() ==> (r matches Ok(e) && window_element_ok(
                    matches@[idx as int],
                    e,
                ))
            }),
    {
        if matches.len() == 0 {
            let d = describe_selector(sel);
            return Err(RpaError::WindowNotFound(prefixed("No window found for selector: ", d.as_str())));
        }
        let idx: usize = match sel.index {
            Some(i) => i as usize,
            None => 0,
        };
        if idx >= matches.len() {
            let mut m = string_of("Window index ");
            push_decimal(&mut m, idx as u64);
            push_str(&mut m, " out of range (found ");
            push_decimal(&mut m, matches.len() as u64);
            push_str(&mut m, " windows)");
            return Err(RpaError::WindowNotFound(m));
        }
        Ok(Self::make_element(&matches[idx]))
    }

    /// The window that the selector picks among the given windows.
    pub fn find_window_among(
        sel: &WindowSelector,
        windows: &Vec<WindowCandidate>,
        process_id: Option<u32>,
    ) -> (r: Result<Element, RpaError>)
        ensures
            ({
                let ms = matching_windows(*sel, windows@, process_id);
                let idx: nat = match sel.index {
                    Some(i) => i as nat,
                    None => 0,
                };
                &&& ms.len() == 0 ==> (r matches Err(e) && e@ == RpaErrorView::WindowNotFound(
                    "No window found for selector: "@ + selector_text(*sel),
                ))
                &&& (ms.len() > 0 && idx >= ms.len()) ==> (r matches Err(e) && e@
                    == RpaErrorView::WindowNotFound(index_out_of_range_text(idx, ms.len())))
                &&& idx < ms.len() ==> (r matches Ok(e) && window_element_ok(ms[idx as int], e))
            }),
    {
        let ms = Self::find_windows_matching(sel, windows, process_id);
        Self::select_window(sel, &ms)
    }

    /// The elements of all windows that meet the selector's criteria.
    pub fn find_all_windows_among(
        sel: &WindowSelector,
        windows: &Vec<WindowCandidate>,
        process_id: Option<u32>,
    ) -> (r: Vec<Element>)
        ensures
            ({
                let ms = matching_windows(*sel, windows@, process_id);
                &&& r@.len() == ms.len()
                &&& forall|i: int| 0 <= i < ms.len() ==> window_element_ok(ms[i], #[trigger] r@[i])
            }),
    {
        let ms = Self::find_windows_matching(sel, windows, process_id);
        let mut r: Vec<Element> = Vec::new();
        let mut i: usize = 0;
        while i < ms.len()
            invariant
                i <= ms@.len(),
                r@.len() == i,
                forall|k: int| 0 <= k < i ==> window_element_ok(ms@[k], #[trigger] r@[k]),
            decreases ms@.len() - i,
        {
            r.push(Self::make_element(&ms[i]));
            i = i + 1;
        }
        r
    }
}

impl Default for WindowsWindowPerceptor {
    fn default() -> Self {
        WindowsWindowPerceptor
    }
}

/// Whether `t` occurs in `s` at position `i`.
pub open spec fn occurs_at(s: Seq<char>, t: Seq<char>, i: int) -> bool {
    0 <= i && i + t.len() <= s.len() && forall|k: int| 0 <= k < t.len() ==> s[i + k] == t[k]
}

/// A window meets a selector exactly when each criterion the selector
/// gives holds: the wanted class occurs somewhere in its class name, the
/// wanted title somewhere in its title (a part of the title is enough), the
/// wanted process name somewhere in its process name, both taken in lower
/// case, and, where the wanted process was found running, the window
/// belongs to it. A selector with no criteria matches every window.
pub proof fn law_window_criteria(sel: WindowSelector, w: WindowCandidate, process_id: Option<u32>)
    ensures
        window_matches(sel, w, process_id) <==> {
            &&& (sel.class_name matches Some(c) ==> exists|i: int| occurs_at(w.class_name@, c@, i))
            &&& (sel.window_title matches Some(t) ==> exists|i: int| occurs_at(w.title@, t@, i))
            &&& (sel.process_name matches Some(p) ==> exists|i: int|
                occurs_at(lowercase_text(w.process_name@), lowercase_text(p@), i))
            &&& (process_id matches Some(pid) ==> w.process_id == pid)
        },
{
    assert forall|s1: Seq<char>, t1: Seq<char>| has_substring(s1, t1) <==> exists|i: int|
        occurs_at(s1, t1, i) by {
        if has_substring(s1, t1) {
            let i = choose|i: int|
                0 <= i && i + t1.len() <= s1.len() && #[trigger] s1.subrange(i, i + t1.len()) == t1;
            assert forall|k: int| 0 <= k < t1.len() implies s1[i + k] == t1[k] by {
                assert(s1.subrange(i, i + t1.len())[k] == s1[i + k]);
            }
            assert(occurs_at(s1, t1, i));
        }
        if exists|i: int| occurs_at(s1, t1, i) {
            let i = choose|i: int| occurs_at(s1, t1, i);
            assert(s1.subrange(i, i + t1.len()) =~= t1);
        }
    }
}

/// Comparing ignoring ASCII case: two texts compare equal exactly when they
/// have the same length and at each position the characters are the same,
/// or are the upper- and lower-case forms of one ASCII letter.
pub proof fn law_eq_ignore_ascii_case(a: Seq<char>, b: Seq<char>)
    ensures
        eq_ignore_ascii_case(a, b) <==> {
            &&& a.len() == b.len()
            &&& forall|i: int|
                0 <= i < a.len() ==> {
                    let x = #[trigger] a[i] as u32;
                    let y = b[i] as u32;
                    ||| x == y
                    ||| (65 <= x <= 90 && y == x + 32)
                    ||| (65 <= y <= 90 && x == y + 32)
                }
        },
{
    if a.len() == b.len() {
        assert forall|i: int| 0 <= i < a.len() implies (ascii_lower_code(a[i]) == ascii_lower_code(
            b[i],
        )) == {
            let x = a[i] as u32;
            let y = b[i] as u32;
            ||| x == y
            ||| (65 <= x <= 90 && y == x + 32)
            ||| (65 <= y <= 90 && x == y + 32)
        } by {
        }
    }
}

/// The process search picks the first process, in the order given, whose
/// executable name equals the wanted one ignoring ASCII case, and finds
/// none exactly when no process has such a name.
pub proof fn law_first_process_named(procs: Seq<(Seq<char>, u32)>, name: Seq<char>)
    ensures
        first_process_named(procs, name) is None <==> forall|i: int|
            0 <= i < procs.len() ==> !eq_ignore_ascii_case(procs[i].0, name),
        first_process_named(procs, name) matches Some(pid) ==> exists|i: int|
            0 <= i < procs.len() && eq_ignore_ascii_case(procs[i].0, name) && procs[i].1 == pid
                && forall|j: int| 0 <= j < i ==> !eq_ignore_ascii_case(procs[j].0, name),
    decreases procs.len(),
{
    if procs.len() > 0 {
        let rest = procs.drop_first();
        law_first_process_named(rest, name);
        if eq_ignore_ascii_case(procs[0].0, name) {
            assert(0 <= 0 < procs.len() && eq_ignore_ascii_case(procs[0].0, name));
        } else {
            assert forall|i: int| 1 <= i < procs.len() implies procs[i] == rest[i - 1] by {}
            if let Some(pid) = first_process_named(rest, name) {
                let k = choose|k: int|
                    0 <= k < rest.len() && eq_ignore_ascii_case(rest[k].0, name) && rest[k].1 == pid
                        && forall|j: int| 0 <= j < k ==> !eq_ignore_ascii_case(rest[j].0, name);
                assert(procs[k + 1] == rest[k]);
                assert forall|j: int| 0 <= j < k + 1 implies !eq_ignore_ascii_case(procs[j].0, name) by {
                    if j > 0 {
                        assert(procs[j] == rest[j - 1]);
                    }
                }
            } else {
                assert forall|i: int| 0 <= i < procs.len() implies !eq_ignore_ascii_case(procs[i].0, name) by {
                    if i > 0 {
                        assert(procs[i] == rest[i - 1]);
                    }
                }
            }
        }
    }
}

} // verus!
