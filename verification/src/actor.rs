//! Performing UI operations: the actor interface and an actor that records
//! what it is asked to do.

use vstd::prelude::*;

use crate::element::{as_i32, fits_i32, wrap_i32, Element, Rect};
use crate::error::{RpaError, RpaErrorView};
use crate::fmt::{
    chars_of, decimal, prefixed, push_decimal, push_signed_decimal, push_str, signed_decimal, string_of,
};
use crate::perception::ScreenCapturer;
use crate::value::str_equal;
use crate::instruction::{ModifierKey, MouseButton, ScrollDirection};

verus! {

/// Performs UI operations (click, type, ...) on the screen.
pub trait Actor {
    /// Click on an element with the given mouse button.
    fn click(&mut self, element: &Element, button: MouseButton) -> Result<(), RpaError>;

    /// Double-click on an element.
    fn double_click(&mut self, element: &Element) -> Result<(), RpaError>;

    /// Type text into an element, clearing it first if asked.
    fn input_text(&mut self, element: &Element, text: &str, clear_first: bool) -> Result<
        (),
        RpaError,
    >;

    /// Press a key with modifiers held (e.g. Ctrl+C).
    fn key_press(&mut self, key: &str, modifiers: Vec<ModifierKey>) -> Result<(), RpaError>;

    /// Scroll on an element.
    fn scroll(&mut self, element: &Element, direction: ScrollDirection, amount: u32) -> Result<
        (),
        RpaError,
    >;

    /// Move the mouse to a screen position.
    fn mouse_move(&mut self, x: i32, y: i32) -> Result<(), RpaError>;

    /// Press a mouse button at a screen position.
    fn mouse_down(&mut self, button: MouseButton, x: i32, y: i32) -> Result<(), RpaError>;

    /// Release a mouse button at a screen position.
    fn mouse_up(&mut self, button: MouseButton, x: i32, y: i32) -> Result<(), RpaError>;

    /// Bring the window of an element to the foreground.
    fn set_foreground(&mut self, element: &Element) -> Result<(), RpaError>;

    /// Capture the screen, or a region of it, as PNG bytes.
    fn screenshot(&mut self, region: Option<Rect>) -> Result<Vec<u8>, RpaError>;
}

// ---------------------------------------------------------------------
// Debug names
// ---------------------------------------------------------------------

/// The name of a mouse button, as `{:?}` prints it.
pub open spec fn button_name(b: MouseButton) -> Seq<char> {
    match b {
        MouseButton::Left => "Left"@,
        MouseButton::Right => "Right"@,
        MouseButton::Middle => "Middle"@,
    }
}

/// The name of a scroll direction, as `{:?}` prints it.
pub open spec fn direction_name(d: ScrollDirection) -> Seq<char> {
    match d {
        ScrollDirection::Up => "Up"@,
        ScrollDirection::Down => "Down"@,
        ScrollDirection::Left => "Left"@,
        ScrollDirection::Right => "Right"@,
    }
}

/// The name of a modifier key, as `{:?}` prints it.
pub open spec fn modifier_name(m: ModifierKey) -> Seq<char> {
    match m {
        ModifierKey::Ctrl => "Ctrl"@,
        ModifierKey::Alt => "Alt"@,
        ModifierKey::Shift => "Shift"@,
        ModifierKey::Super => "Super"@,
    }
}

/// The names of the modifiers, separated by ", ".
pub open spec fn modifier_names(ms: Seq<ModifierKey>) -> Seq<char>
    decreases ms.len(),
{
    if ms.len() == 0 {
        Seq::empty()
    } else if ms.len() == 1 {
        modifier_name(ms[0])
    } else {
        modifier_names(ms.drop_last()) + ", "@ + modifier_name(ms.last())
    }
}

/// A list of modifiers, as `{:?}` prints it: `[Ctrl, Alt]`.
pub open spec fn modifier_list_text(ms: Seq<ModifierKey>) -> Seq<char> {
    "["@ + modifier_names(ms) + "]"@
}

/// A boolean as `{}` prints it.
pub open spec fn bool_text(b: bool) -> Seq<char> {
    if b {
        "true"@
    } else {
        "false"@
    }
}

fn push_button(s: &mut String, b: MouseButton)
    ensures
        final(s)@ == old(s)@ + button_name(b),
{
    match b {
        MouseButton::Left => push_str(s, "Left"),
        MouseButton::Right => push_str(s, "Right"),
        MouseButton::Middle => push_str(s, "Middle"),
    }
}

fn push_direction(s: &mut String, d: ScrollDirection)
    ensures
        final(s)@ == old(s)@ + direction_name(d),
{
    match d {
        ScrollDirection::Up => push_str(s, "Up"),
        ScrollDirection::Down => push_str(s, "Down"),
        ScrollDirection::Left => push_str(s, "Left"),
        ScrollDirection::Right => push_str(s, "Right"),
    }
}

fn push_modifier(s: &mut String, m: ModifierKey)
    ensures
        final(s)@ == old(s)@ + modifier_name(m),
{
    match m {
        ModifierKey::Ctrl => push_str(s, "Ctrl"),
        ModifierKey::Alt => push_str(s, "Alt"),
        ModifierKey::Shift => push_str(s, "Shift"),
        ModifierKey::Super => push_str(s, "Super"),
    }
}

fn push_bool(s: &mut String, b: bool)
    ensures
        final(s)@ == old(s)@ + bool_text(b),
{
    if b {
        push_str(s, "true");
    } else {
        push_str(s, "false");
    }
}

/// Appends a list of modifiers as `{:?}` prints it.
pub fn push_modifier_list(s: &mut String, ms: &Vec<ModifierKey>)
    ensures
        final(s)@ == old(s)@ + modifier_list_text(ms@),
{
    let ghost start = s@;
    push_str(s, "[");
    let mut i: usize = 0;
    while i < ms.len()
        invariant
            i <= ms@.len(),
            s@ == start + "["@ + modifier_names(ms@.take(i as int)),
        decreases ms@.len() - i,
    {
        let ghost before = s@;
        if i > 0 {
            push_str(s, ", ");
        }
        push_modifier(s, ms[i]);
        proof {
            let t = ms@.take(i + 1);
            assert(t.drop_last() =~= ms@.take(i as int));
            assert(t.last() == ms@[i as int]);
            if i == 0 {
                assert(modifier_names(t) == modifier_name(t[0]));
                assert(modifier_names(ms@.take(0)) =~= Seq::<char>::empty());
            }
        }
        i = i + 1;
        assert(s@ =~= start + "["@ + modifier_names(ms@.take(i as int)));
    }
    assert(ms@.take(i as int) =~= ms@);
    push_str(s, "]");
    assert(s@ =~= start + modifier_list_text(ms@));
}

// ---------------------------------------------------------------------
// The records of the recording actor
// ---------------------------------------------------------------------

pub open spec fn click_record(id: Seq<char>, b: MouseButton) -> Seq<char> {
    "click:"@ + id + ":"@ + button_name(b)
}

pub open spec fn double_click_record(id: Seq<char>) -> Seq<char> {
    "double_click:"@ + id
}

pub open spec fn input_record(id: Seq<char>, text: Seq<char>, clear_first: bool) -> Seq<char> {
    "input:"@ + id + ":"@ + text + ":clear="@ + bool_text(clear_first)
}

pub open spec fn key_press_record(key: Seq<char>, ms: Seq<ModifierKey>) -> Seq<char> {
    "key_press:"@ + key + ":"@ + modifier_list_text(ms)
}

pub open spec fn scroll_record(id: Seq<char>, d: ScrollDirection, amount: u32) -> Seq<char> {
    "scroll:"@ + id + ":"@ + direction_name(d) + ":"@ + decimal(amount as nat)
}

pub open spec fn mouse_move_record(x: i32, y: i32) -> Seq<char> {
    "mousemove:"@ + signed_decimal(x as int) + ":"@ + signed_decimal(y as int)
}

pub open spec fn mouse_down_record(b: MouseButton, x: i32, y: i32) -> Seq<char> {
    "mousedown:"@ + button_name(b) + ":"@ + signed_decimal(x as int) + ":"@ + signed_decimal(
        y as int,
    )
}

pub open spec fn mouse_up_record(b: MouseButton, x: i32, y: i32) -> Seq<char> {
    "mouseup:"@ + button_name(b) + ":"@ + signed_decimal(x as int) + ":"@ + signed_decimal(
        y as int,
    )
}

pub open spec fn set_foreground_record(id: Seq<char>) -> Seq<char> {
    "setforeground:"@ + id
}

/// The bytes the recording actor hands back for a screenshot: the PNG
/// signature's first four bytes.
pub open spec fn png_magic() -> Seq<u8> {
    seq![0x89u8, 0x50u8, 0x4Eu8, 0x47u8]
}

/// The texts of a list of strings.
pub open spec fn texts(v: Seq<String>) -> Seq<Seq<char>> {
    v.map_values(|s: String| s@)
}

/// A copy of a list of strings.
pub fn clone_strings(v: &Vec<String>) -> (r: Vec<String>)
    ensures
        r@ == v@,
{
    let mut r: Vec<String> = Vec::new();
    let mut i: usize = 0;
    while i < v.len()
        invariant
            i <= v@.len(),
            r@ == v@.take(i as int),
        decreases v@.len() - i,
    {
        r.push(v[i].clone());
        i = i + 1;
        assert(r@ =~= v@.take(i as int));
    }
    assert(v@.take(i as int) =~= v@);
    r
}

/// An actor that performs nothing and records, in order, a line for each
/// operation it is asked to perform.
pub struct MockActor {
    actions: Vec<String>,
}

impl MockActor {
    /// The lines recorded so far.
    pub closed spec fn recorded(&self) -> Seq<Seq<char>> {
        texts(self.actions@)
    }

    /// An actor that has recorded nothing.
    pub fn new() -> (r: Self)
        ensures
            r.recorded() == Seq::<Seq<char>>::empty(),
    {
        let r = MockActor { actions: Vec::new() };
        assert(texts(r.actions@) =~= Seq::<Seq<char>>::empty());
        r
    }

    /// The lines recorded so far, oldest first.
    pub fn actions(&self) -> (r: Vec<String>)
        ensures
            texts(r@) == self.recorded(),
    {
        clone_strings(&self.actions)
    }

    fn record(&mut self, line: String)
        ensures
            final(self).recorded() == old(self).recorded().push(line@),
    {
        self.actions.push(line);
        assert(texts(self.actions@) =~= texts(old(self).actions@).push(line@));
    }
}

/// The stand-in actor's log lists its operations in call order: when each
/// of a run of successive states records one more line than the one before
/// (as every successful operation does), the last log is the first followed
/// by those lines, in order.
pub proof fn law_mock_log_in_call_order(logs: Seq<Seq<Seq<char>>>, lines: Seq<Seq<char>>)
    requires
        logs.len() == lines.len() + 1,
        forall|i: int| 0 <= i < lines.len() ==> #[trigger] logs[i + 1] == logs[i].push(lines[i]),
    ensures
        logs.last() == logs[0] + lines,
    decreases lines.len(),
{
    if lines.len() == 0 {
        assert(logs[0] + lines =~= logs[0]);
    } else {
        let n = lines.len() - 1;
        let prefix = logs.subrange(0, n + 1);
        assert forall|i: int| 0 <= i < lines.drop_last().len() implies #[trigger] prefix[i + 1]
            == prefix[i].push(lines.drop_last()[i]) by {
            assert(logs[i + 1] == logs[i].push(lines[i]));
        }
        law_mock_log_in_call_order(prefix, lines.drop_last());
        assert(logs[n + 1] == logs[n].push(lines[n]));
        assert(logs[0] + lines =~= (logs[0] + lines.drop_last()).push(lines[n]));
    }
}

impl Default for MockActor {
    fn default() -> (r: Self)
        ensures
            r.recorded() == Seq::<Seq<char>>::empty(),
    {
        MockActor::new()
    }
}

impl Actor for MockActor {
    fn click(&mut self, element: &Element, button: MouseButton) -> (r: Result<(), RpaError>)
        ensures
            r is Ok,
            final(self).recorded() == old(self).recorded().push(
                click_record(element.id@, button),
            ),
    {
        let mut line = string_of("click:");
        push_str(&mut line, element.id.as_str());
        push_str(&mut line, ":");
        push_button(&mut line, button);
        assert(line@ =~= click_record(element.id@, button));
        self.record(line);
        Ok(())
    }

    fn double_click(&mut self, element: &Element) -> (r: Result<(), RpaError>)
        ensures
            r is Ok,
            final(self).recorded() == old(self).recorded().push(double_click_record(element.id@)),
    {
        let mut line = string_of("double_click:");
        push_str(&mut line, element.id.as_str());
        self.record(line);
        Ok(())
    }

    fn input_text(&mut self, element: &Element, text: &str, clear_first: bool) -> (r: Result<
        (),
        RpaError,
    >)
        ensures
            r is Ok,
            final(self).recorded() == old(self).recorded().push(
                input_record(element.id@, text@, clear_first),
            ),
    {
        let mut line = string_of("input:");
        push_str(&mut line, element.id.as_str());
        push_str(&mut line, ":");
        push_str(&mut line, text);
        push_str(&mut line, ":clear=");
        push_bool(&mut line, clear_first);
        assert(line@ =~= input_record(element.id@, text@, clear_first));
        self.record(line);
        Ok(())
    }

    fn key_press(&mut self, key: &str, modifiers: Vec<ModifierKey>) -> (r: Result<(), RpaError>)
        ensures
            r is Ok,
            final(self).recorded() == old(self).recorded().push(
                key_press_record(key@, modifiers@),
            ),
    {
        let mut line = string_of("key_press:");
        push_str(&mut line, key);
        push_str(&mut line, ":");
        push_modifier_list(&mut line, &modifiers);
        assert(line@ =~= key_press_record(key@, modifiers@));
        self.record(line);
        Ok(())
    }

    fn scroll(&mut self, element: &Element, direction: ScrollDirection, amount: u32) -> (r: Result<
        (),
        RpaError,
    >)
        ensures
            r is Ok,
            final(self).recorded() == old(self).recorded().push(
                scroll_record(element.id@, direction, amount),
            ),
    {
        let mut line = string_of("scroll:");
        push_str(&mut line, element.id.as_str());
        push_str(&mut line, ":");
        push_direction(&mut line, direction);
        push_str(&mut line, ":");
        push_decimal(&mut line, amount as u64);
        assert(line@ =~= scroll_record(element.id@, direction, amount));
        self.record(line);
        Ok(())
    }

    fn mouse_move(&mut self, x: i32, y: i32) -> (r: Result<(), RpaError>)
        ensures
            r is Ok,
            final(self).recorded() == old(self).recorded().push(mouse_move_record(x, y)),
    {
        let mut line = string_of("mousemove:");
        push_signed_decimal(&mut line, x as i64);
        push_str(&mut line, ":");
        push_signed_decimal(&mut line, y as i64);
        assert(line@ =~= mouse_move_record(x, y));
        self.record(line);
        Ok(())
    }

    fn mouse_down(&mut self, button: MouseButton, x: i32, y: i32) -> (r: Result<(), RpaError>)
        ensures
            r is Ok,
            final(self).recorded() == old(self).recorded().push(mouse_down_record(button, x, y)),
    {
        let mut line = string_of("mousedown:");
        push_button(&mut line, button);
        push_str(&mut line, ":");
        push_signed_decimal(&mut line, x as i64);
        push_str(&mut line, ":");
        push_signed_decimal(&mut line, y as i64);
        assert(line@ =~= mouse_down_record(button, x, y));
        self.record(line);
        Ok(())
    }

    fn mouse_up(&mut self, button: MouseButton, x: i32, y: i32) -> (r: Result<(), RpaError>)
        ensures
            r is Ok,
            final(self).recorded() == old(self).recorded().push(mouse_up_record(button, x, y)),
    {
        let mut line = string_of("mouseup:");
        push_button(&mut line, button);
        push_str(&mut line, ":");
        push_signed_decimal(&mut line, x as i64);
        push_str(&mut line, ":");
        push_signed_decimal(&mut line, y as i64);
        assert(line@ =~= mouse_up_record(button, x, y));
        self.record(line);
        Ok(())
    }

    fn set_foreground(&mut self, element: &Element) -> (r: Result<(), RpaError>)
        ensures
            r is Ok,
            final(self).recorded() == old(self).recorded().push(
                set_foreground_record(element.id@),
            ),
    {
        let mut line = string_of("setforeground:");
        push_str(&mut line, element.id.as_str());
        self.record(line);
        Ok(())
    }

    fn screenshot(&mut self, region: Option<Rect>) -> (r: Result<Vec<u8>, RpaError>)
        ensures
            r is Ok,
            r->Ok_0@ == png_magic(),
            final(self).recorded() == old(self).recorded().push("screenshot"@),
    {
        self.record(string_of("screenshot"));
        Ok(vec![0x89u8, 0x50u8, 0x4Eu8, 0x47u8])
    }
}

/// The actor a VM has before one is registered: it refuses every
/// operation.
pub struct NoopActor;

/// The error of every operation of [`NoopActor`].
pub open spec fn no_actor_error(r: RpaError) -> bool {
    r@ == RpaErrorView::Action("No actor registered"@)
}

fn no_actor() -> (e: RpaError)
    ensures
        no_actor_error(e),
{
    RpaError::Action(string_of("No actor registered"))
}

impl Actor for NoopActor {
    fn click(&mut self, element: &Element, button: MouseButton) -> (r: Result<(), RpaError>)
        ensures
            r matches Err(e) && no_actor_error(e),
    {
        Err(no_actor())
    }

    fn double_click(&mut self, element: &Element) -> (r: Result<(), RpaError>)
        ensures
            r matches Err(e) && no_actor_error(e),
    {
        Err(no_actor())
    }

    fn input_text(&mut self, element: &Element, text: &str, clear_first: bool) -> (r: Result<
        (),
        RpaError,
    >)
        ensures
            r matches Err(e) && no_actor_error(e),
    {
        Err(no_actor())
    }

    fn key_press(&mut self, key: &str, modifiers: Vec<ModifierKey>) -> (r: Result<(), RpaError>)
        ensures
            r matches Err(e) && no_actor_error(e),
    {
        Err(no_actor())
    }

    fn scroll(&mut self, element: &Element, direction: ScrollDirection, amount: u32) -> (r: Result<
        (),
        RpaError,
    >)
        ensures
            r matches Err(e) && no_actor_error(e),
    {
        Err(no_actor())
    }

    fn mouse_move(&mut self, x: i32, y: i32) -> (r: Result<(), RpaError>)
        ensures
            r matches Err(e) && no_actor_error(e),
    {
        Err(no_actor())
    }

    fn mouse_down(&mut self, button: MouseButton, x: i32, y: i32) -> (r: Result<(), RpaError>)
        ensures
            r matches Err(e) && no_actor_error(e),
    {
        Err(no_actor())
    }

    fn mouse_up(&mut self, button: MouseButton, x: i32, y: i32) -> (r: Result<(), RpaError>)
        ensures
            r matches Err(e) && no_actor_error(e),
    {
        Err(no_actor())
    }

    fn set_foreground(&mut self, element: &Element) -> (r: Result<(), RpaError>)
        ensures
            r matches Err(e) && no_actor_error(e),
    {
        Err(no_actor())
    }

    fn screenshot(&mut self, region: Option<Rect>) -> (r: Result<Vec<u8>, RpaError>)
        ensures
            r matches Err(e) && no_actor_error(e),
    {
        Err(no_actor())
    }
}

// ---------------------------------------------------------------------
// The input codes of the Windows actor
// ---------------------------------------------------------------------

/// The upper-case form of a text, as `str::to_uppercase` computes it.
pub uninterp spec fn uppercase_text(s: Seq<char>) -> Seq<char>;

/// `str::to_uppercase`. Claimed: the result is a function of the text
/// alone, named `uppercase_text`; the Unicode case mapping it applies is not
/// stated.
#[verifier::external_body]
fn to_uppercase(s: &str) -> (r: String)
    ensures
        r@ == uppercase_text(s@),
{
    s.to_uppercase()
}

/// The virtual-key code of a named key, given the name in upper case.
pub open spec fn named_key_code(name: Seq<char>) -> Option<u16> {
    if name == "ENTER"@ || name == "RETURN"@ {
        Some(0x0Du16)
    } else if name == "TAB"@ {
        Some(0x09u16)
    } else if name == "ESCAPE"@ || name == "ESC"@ {
        Some(0x1Bu16)
    } else if name == "BACKSPACE"@ {
        Some(0x08u16)
    } else if name == "DELETE"@ {
        Some(0x2Eu16)
    } else if name == "UP"@ {
        Some(0x26u16)
    } else if name == "DOWN"@ {
        Some(0x28u16)
    } else if name == "LEFT"@ {
        Some(0x25u16)
    } else if name == "RIGHT"@ {
        Some(0x27u16)
    } else if name == "HOME"@ {
        Some(0x24u16)
    } else if name == "END"@ {
        Some(0x23u16)
    } else if name == "PAGEUP"@ {
        Some(0x21u16)
    } else if name == "PAGEDOWN"@ {
        Some(0x22u16)
    } else if name == "F1"@ {
        Some(0x70u16)
    } else if name == "F2"@ {
        Some(0x71u16)
    } else if name == "F3"@ {
        Some(0x72u16)
    } else if name == "F4"@ {
        Some(0x73u16)
    } else if name == "F5"@ {
        Some(0x74u16)
    } else if name == "F6"@ {
        Some(0x75u16)
    } else if name == "F7"@ {
        Some(0x76u16)
    } else if name == "F8"@ {
        Some(0x77u16)
    } else if name == "F9"@ {
        Some(0x78u16)
    } else if name == "F10"@ {
        Some(0x79u16)
    } else if name == "F11"@ {
        Some(0x7Au16)
    } else if name == "F12"@ {
        Some(0x7Bu16)
    } else {
        None
    }
}

/// How a key given by name is to be pressed.
#[derive(Debug, Clone, Copy, PartialEq, Eq, Structural)]
pub enum KeyLookup {
    /// A named key, with its virtual-key code.
    Named(u16),
    /// Any other key: the key that types its first character.
    Char(char),
}

/// The virtual-key code of a modifier key.
pub open spec fn modifier_code(m: ModifierKey) -> u16 {
    match m {
        ModifierKey::Ctrl => 0x11u16,
        ModifierKey::Alt => 0x12u16,
        ModifierKey::Shift => 0x10u16,
        ModifierKey::Super => 0x5Bu16,
    }
}

/// The mouse event flags of a press and a release of a button.
pub open spec fn click_flags_of(b: MouseButton) -> u32 {
    match b {
        MouseButton::Left => 0x0006u32,
        MouseButton::Right => 0x0018u32,
        MouseButton::Middle => 0x0060u32,
    }
}

/// The mouse event flag of pressing a button.
pub open spec fn down_flag_of(b: MouseButton) -> u32 {
    match b {
        MouseButton::Left => 0x0002u32,
        MouseButton::Right => 0x0008u32,
        MouseButton::Middle => 0x0020u32,
    }
}

/// The mouse event flag of releasing a button.
pub open spec fn up_flag_of(b: MouseButton) -> u32 {
    match b {
        MouseButton::Left => 0x0004u32,
        MouseButton::Right => 0x0010u32,
        MouseButton::Middle => 0x0040u32,
    }
}

/// The wheel movement of a scroll: 120 per notch, negative up and left;
/// the vertical wheel for up and down, the horizontal one for left and right.
pub open spec fn wheel_of(d: ScrollDirection, amount: u32) -> (int, u32) {
    let notches = wrap_i32(amount);
    match d {
        ScrollDirection::Up => (notches * -120, 0x0800u32),
        ScrollDirection::Down => (notches * 120, 0x0800u32),
        ScrollDirection::Left => (notches * -120, 0x1000u32),
        ScrollDirection::Right => (notches * 120, 0x1000u32),
    }
}

/// Pressing (or releasing) each of the modifier keys, in order; an event
/// is a virtual-key code and whether the key is released.
pub open spec fn modifier_events(ms: Seq<ModifierKey>, up: bool) -> Seq<(u16, bool)> {
    ms.map_values(|m: ModifierKey| (modifier_code(m), up))
}

/// The events of a key press, in order: each modifier pressed, the key
/// pressed and released, then the modifiers released in reverse order.
pub open spec fn key_press_events(vk: u16, ms: Seq<ModifierKey>) -> Seq<(u16, bool)> {
    modifier_events(ms, false) + seq![(vk, false), (vk, true)] + modifier_events(ms, true).reverse()
}

/// The key code of a key that is no named key, from the key scan of its
/// first character as Win32 reports it (the key code in the low byte, all
/// ones when no key types it).
pub open spec fn scan_key_code(scan: u16) -> Option<u16> {
    if scan == 0xFFFF {
        None
    } else {
        Some(scan & 0xFFu16)
    }
}

/// The events of typing a character, given its key scan (the key code in
/// the low byte, the shift state in the high byte, all ones for a character
/// no key types): the key pressed and released, inside a press and release
/// of Shift when the scan asks for it; a character no key types is sent by
/// its own UTF-16 code unit.
pub open spec fn char_key_events(scan: u16, unit: u16) -> Seq<(u16, bool)> {
    if scan == 0xFFFF {
        seq![(unit, false), (unit, true)]
    } else if (scan >> 8u16) & 1u16 != 0 {
        seq![(0x10u16, false), (scan & 0xFFu16, false), (scan & 0xFFu16, true), (0x10u16, true)]
    } else {
        seq![(scan & 0xFFu16, false), (scan & 0xFFu16, true)]
    }
}

/// The Windows actor: the input it synthesises through Win32 (key codes,
/// mouse flags, wheel data), and the screenshots it takes with its screen
/// capturer.
pub struct WindowsActor<C> {
    screen_capturer: Option<C>,
}

impl<C: ScreenCapturer> WindowsActor<C> {
    /// Whether a screen capturer is registered.
    pub closed spec fn has_capturer(&self) -> bool {
        self.screen_capturer is Some
    }

    /// The registered screen capturer.
    pub closed spec fn capturer(&self) -> Option<C> {
        self.screen_capturer
    }

    /// An actor without a screen capturer.
    pub fn new() -> (r: Self)
        ensures
            !r.has_capturer(),
            r.capturer() is None,
    {
        WindowsActor { screen_capturer: None }
    }

    /// An actor that takes screenshots with `capturer`.
    pub fn with_screen_capturer(capturer: C) -> (r: Self)
        ensures
            r.has_capturer(),
            r.capturer() == Some(capturer),
    {
        WindowsActor { screen_capturer: Some(capturer) }
    }

    /// A screenshot of the region, or of the whole screen, from the screen
    /// capturer; an error when none is registered.
    pub fn screenshot(&self, region: Option<Rect>) -> (r: Result<Vec<u8>, RpaError>)
        ensures
            !self.has_capturer() ==> (r matches Err(e) && e@ == RpaErrorView::Action(
                "No screen capturer registered"@,
            )),
            self.capturer() matches Some(c) ==> ((region matches Some(rc) ==> call_ensures(
                C::capture_region,
                (&c, rc),
                r,
            )) && (region is None ==> call_ensures(C::capture_screen, (&c,), r))),
    {
        match &self.screen_capturer {
            Some(capturer) => match region {
                Some(rect) => capturer.capture_region(rect),
                None => capturer.capture_screen(),
            },
            None => Err(RpaError::Action(string_of("No screen capturer registered"))),
        }
    }

    /// The virtual-key code of a modifier key.
    pub fn modifier_key_code(m: ModifierKey) -> (r: u16)
        ensures
            r == modifier_code(m),
    {
        match m {
            ModifierKey::Ctrl => 0x11,
            ModifierKey::Alt => 0x12,
            ModifierKey::Shift => 0x10,
            ModifierKey::Super => 0x5B,
        }
    }

    /// The events of a key press, in order, for a key whose code is known.
    /// The key is resolved before anything is sent, so a key that cannot be
    /// resolved sends nothing and leaves no modifier held.
    pub fn key_press_sequence(vk: u16, modifiers: &Vec<ModifierKey>) -> (r: Vec<(u16, bool)>)
        ensures
            r@ == key_press_events(vk, modifiers@),
    {
        let n = modifiers.len();
        let mut r: Vec<(u16, bool)> = Vec::new();
        let mut i: usize = 0;
        while i < n
            invariant
                n == modifiers@.len(),
                i <= n,
                r@ == modifier_events(modifiers@.take(i as int), false),
            decreases n - i,
        {
            r.push((Self::modifier_key_code(modifiers[i]), false));
            i = i + 1;
            assert(r@ =~= modifier_events(modifiers@.take(i as int), false));
        }
        assert(modifiers@.take(n as int) =~= modifiers@);
        r.push((vk, false));
        r.push((vk, true));
        let ghost downs = modifier_events(modifiers@, false) + seq![(vk, false), (vk, true)];
        assert(r@ =~= downs);
        let mut j: usize = n;
        while j > 0
            invariant
                n == modifiers@.len(),
                j <= n,
                r@ == downs + modifier_events(modifiers@, true).reverse().take((n - j) as int),
            decreases j,
        {
            j = j - 1;
            r.push((Self::modifier_key_code(modifiers[j]), true));
            assert(modifier_events(modifiers@, true).reverse().take((n - j) as int)
                =~= modifier_events(modifiers@, true).reverse().take((n - j - 1) as int).push(
                (modifier_code(modifiers@[j as int]), true),
            ));
        }
        assert(modifier_events(modifiers@, true).reverse().take(n as int) =~= modifier_events(
            modifiers@,
            true,
        ).reverse());
        r
    }

    /// The events of typing a character, given its key scan and its UTF-16
    /// code unit.
    pub fn char_key_sequence(scan: u16, unit: u16) -> (r: Vec<(u16, bool)>)
        ensures
            r@ == char_key_events(scan, unit),
    {
        if scan == 0xFFFF {
            vec![(unit, false), (unit, true)]
        } else if (scan >> 8u16) & 1u16 != 0 {
            vec![(0x10u16, false), (scan & 0xFFu16, false), (scan & 0xFFu16, true), (0x10u16, true)]
        } else {
            vec![(scan & 0xFFu16, false), (scan & 0xFFu16, true)]
        }
    }

    /// The key code of a key that is no named key, from the key scan of its
    /// first character; a character that no key types is an unknown key.
    pub fn key_code_from_scan(key: &str, scan: u16) -> (r: Result<u16, RpaError>)
        ensures
            scan_key_code(scan) matches Some(c) ==> r == Ok::<u16, RpaError>(c),
            scan_key_code(scan) is None ==> (r matches Err(e) && e@ == RpaErrorView::Action(
                "Unknown key: "@ + key@,
            )),
    {
        if scan == 0xFFFF {
            Err(RpaError::Action(prefixed("Unknown key: ", key)))
        } else {
            Ok(scan & 0xFFu16)
        }
    }

    /// The outcome of sending one mouse event, given the number of events
    /// Win32 reports as sent.
    pub fn mouse_input_result(sent: u32) -> (r: Result<(), RpaError>)
        ensures
            sent == 1 ==> r is Ok,
            sent != 1 ==> (r matches Err(e) && e@ == RpaErrorView::Action(
                "SendInput failed to send "@ + decimal(sent as nat) + " events"@,
            )),
    {
        if sent == 1 {
            Ok(())
        } else {
            let mut m = string_of("SendInput failed to send ");
            push_decimal(&mut m, sent as u64);
            push_str(&mut m, " events");
            Err(RpaError::Action(m))
        }
    }

    /// The outcome of sending one keyboard event, given the number of events
    /// Win32 reports as sent.
    pub fn key_input_result(sent: u32) -> (r: Result<(), RpaError>)
        ensures
            sent == 1 ==> r is Ok,
            sent != 1 ==> (r matches Err(e) && e@ == RpaErrorView::Action(
                "SendInput failed to send keyboard event"@,
            )),
    {
        if sent == 1 {
            Ok(())
        } else {
            Err(RpaError::Action(string_of("SendInput failed to send keyboard event")))
        }
    }

    /// The mouse event flags of a click (press and release).
    pub fn click_flags(b: MouseButton) -> (r: u32)
        ensures
            r == click_flags_of(b),
    {
        assert(0x0002u32 | 0x0004u32 == 0x0006u32 && 0x0008u32 | 0x0010u32 == 0x0018u32
            && 0x0020u32 | 0x0040u32 == 0x0060u32) by (bit_vector);
        match b {
            MouseButton::Left => 0x0002 | 0x0004,
            MouseButton::Right => 0x0008 | 0x0010,
            MouseButton::Middle => 0x0020 | 0x0040,
        }
    }

    /// The mouse event flag of pressing a button.
    pub fn down_flag(b: MouseButton) -> (r: u32)
        ensures
            r == down_flag_of(b),
    {
        match b {
            MouseButton::Left => 0x0002,
            MouseButton::Right => 0x0008,
            MouseButton::Middle => 0x0020,
        }
    }

    /// The mouse event flag of releasing a button.
    pub fn up_flag(b: MouseButton) -> (r: u32)
        ensures
            r == up_flag_of(b),
    {
        match b {
            MouseButton::Left => 0x0004,
            MouseButton::Right => 0x0010,
            MouseButton::Middle => 0x0040,
        }
    }

    /// The wheel data and flag of a scroll.
    pub fn scroll_wheel(d: ScrollDirection, amount: u32) -> (r: (i32, u32))
        requires
            fits_i32(wrap_i32(amount) * 120),
            fits_i32(wrap_i32(amount) * -120),
        ensures
            r.0 == wheel_of(d, amount).0,
            r.1 == wheel_of(d, amount).1,
    {
        let notches = as_i32(amount);
        match d {
            ScrollDirection::Up => (notches * -120, 0x0800),
            ScrollDirection::Down => (notches * 120, 0x0800),
            ScrollDirection::Left => (notches * -120, 0x1000),
            ScrollDirection::Right => (notches * 120, 0x1000),
        }
    }

    /// The code of a named key, given its name in upper case.
    pub fn named_key(name: &str) -> (r: Option<u16>)
        ensures
            r == named_key_code(name@),
    {
        if str_equal(name, "ENTER") || str_equal(name, "RETURN") {
            Some(0x0D)
        } else if str_equal(name, "TAB") {
            Some(0x09)
        } else if str_equal(name, "ESCAPE") || str_equal(name, "ESC") {
            Some(0x1B)
        } else if str_equal(name, "BACKSPACE") {
            Some(0x08)
        } else if str_equal(name, "DELETE") {
            Some(0x2E)
        } else if str_equal(name, "UP") {
            Some(0x26)
        } else if str_equal(name, "DOWN") {
            Some(0x28)
        } else if str_equal(name, "LEFT") {
            Some(0x25)
        } else if str_equal(name, "RIGHT") {
            Some(0x27)
        } else if str_equal(name, "HOME") {
            Some(0x24)
        } else if str_equal(name, "END") {
            Some(0x23)
        } else if str_equal(name, "PAGEUP") {
            Some(0x21)
        } else if str_equal(name, "PAGEDOWN") {
            Some(0x22)
        } else if str_equal(name, "F1") {
            Some(0x70)
        } else if str_equal(name, "F2") {
            Some(0x71)
        } else if str_equal(name, "F3") {
            Some(0x72)
        } else if str_equal(name, "F4") {
            Some(0x73)
        } else if str_equal(name, "F5") {
            Some(0x74)
        } else if str_equal(name, "F6") {
            Some(0x75)
        } else if str_equal(name, "F7") {
            Some(0x76)
        } else if str_equal(name, "F8") {
            Some(0x77)
        } else if str_equal(name, "F9") {
            Some(0x78)
        } else if str_equal(name, "F10") {
            Some(0x79)
        } else if str_equal(name, "F11") {
            Some(0x7A)
        } else if str_equal(name, "F12") {
            Some(0x7B)
        } else {
            None
        }
    }

    /// How a key given by name is pressed: a named key (matched ignoring
    /// case) by its code, any other by its first character; an empty name
    /// is refused.
    pub fn lookup_key(key: &str) -> (r: Result<KeyLookup, RpaError>)
        ensures
            key@.len() > 0 ==> (named_key_code(uppercase_text(key@)) matches Some(c) ==> r == Ok::<
                KeyLookup,
                RpaError,
            >(KeyLookup::Named(c))),
            key@.len() > 0 && named_key_code(uppercase_text(key@)) is None ==> r == Ok::<
                KeyLookup,
                RpaError,
            >(KeyLookup::Char(key@[0])),
            key@.len() == 0 ==> (r matches Err(e) && e@ == RpaErrorView::Action(
                "Invalid key: "@ + key@,
            )),
    {
        let cs = chars_of(key);
        if cs.len() == 0 {
            return Err(RpaError::Action(prefixed("Invalid key: ", key)));
        }
        let upper = to_uppercase(key);
        match Self::named_key(upper.as_str()) {
            Some(c) => Ok(KeyLookup::Named(c)),
            None => Ok(KeyLookup::Char(cs[0])),
        }
    }
}

impl<C: ScreenCapturer> Default for WindowsActor<C> {
    fn default() -> (r: Self)
        ensures
            !r.has_capturer(),
            r.capturer() is None,
    {
        WindowsActor::new()
    }
}

/// The Win32 virtual-key codes of the named keys: Enter and Return 0x0D,
/// Tab 0x09, Escape and Esc 0x1B, Backspace 0x08, Delete 0x2E, the arrows
/// Up 0x26, Down 0x28, Left 0x25, Right 0x27, Home 0x24, End 0x23, Page Up
/// 0x21, Page Down 0x22, and F1 to F12 0x70 to 0x7B.
pub proof fn law_named_key_codes()
    ensures
        named_key_code("ENTER"@) == Some(0x0Du16),
        named_key_code("RETURN"@) == Some(0x0Du16),
        named_key_code("TAB"@) == Some(0x09u16),
        named_key_code("ESCAPE"@) == Some(0x1Bu16),
        named_key_code("ESC"@) == Some(0x1Bu16),
        named_key_code("BACKSPACE"@) == Some(0x08u16),
        named_key_code("DELETE"@) == Some(0x2Eu16),
        named_key_code("UP"@) == Some(0x26u16),
        named_key_code("DOWN"@) == Some(0x28u16),
        named_key_code("LEFT"@) == Some(0x25u16),
        named_key_code("RIGHT"@) == Some(0x27u16),
        named_key_code("HOME"@) == Some(0x24u16),
        named_key_code("END"@) == Some(0x23u16),
        named_key_code("PAGEUP"@) == Some(0x21u16),
        named_key_code("PAGEDOWN"@) == Some(0x22u16),
        named_key_code("F1"@) == Some(0x70u16),
        named_key_code("F2"@) == Some(0x71u16),
        named_key_code("F3"@) == Some(0x72u16),
        named_key_code("F4"@) == Some(0x73u16),
        named_key_code("F5"@) == Some(0x74u16),
        named_key_code("F6"@) == Some(0x75u16),
        named_key_code("F7"@) == Some(0x76u16),
        named_key_code("F8"@) == Some(0x77u16),
        named_key_code("F9"@) == Some(0x78u16),
        named_key_code("F10"@) == Some(0x79u16),
        named_key_code("F11"@) == Some(0x7Au16),
        named_key_code("F12"@) == Some(0x7Bu16),
        named_key_code(Seq::empty()) is None,
{
    reveal_strlit("ENTER");
    reveal_strlit("RETURN");
    reveal_strlit("TAB");
    reveal_strlit("ESCAPE");
    reveal_strlit("ESC");
    reveal_strlit("BACKSPACE");
    reveal_strlit("DELETE");
    reveal_strlit("UP");
    reveal_strlit("DOWN");
    reveal_strlit("LEFT");
    reveal_strlit("RIGHT");
    reveal_strlit("HOME");
    reveal_strlit("END");
    reveal_strlit("PAGEUP");
    reveal_strlit("PAGEDOWN");
    reveal_strlit("F1");
    reveal_strlit("F2");
    reveal_strlit("F3");
    reveal_strlit("F4");
    reveal_strlit("F5");
    reveal_strlit("F6");
    reveal_strlit("F7");
    reveal_strlit("F8");
    reveal_strlit("F9");
    reveal_strlit("F10");
    reveal_strlit("F11");
    reveal_strlit("F12");
    assert("RETURN"@.len() != "ENTER"@.len());
    assert("TAB"@.len() != "ENTER"@.len());
    assert("TAB"@.len() != "RETURN"@.len());
    assert("ESCAPE"@.len() != "ENTER"@.len());
    assert("ESCAPE"@[0] != "RETURN"@[0]);
    assert("ESCAPE"@.len() != "TAB"@.len());
    assert("ESC"@.len() != "ENTER"@.len());
    assert("ESC"@.len() != "RETURN"@.len());
    assert("ESC"@[0] != "TAB"@[0]);
    assert("ESC"@.len() != "ESCAPE"@.len());
    assert("BACKSPACE"@.len() != "ENTER"@.len());
    assert("BACKSPACE"@.len() != "RETURN"@.len());
    assert("BACKSPACE"@.len() != "TAB"@.len());
    assert("BACKSPACE"@.len() != "ESCAPE"@.len());
    assert("BACKSPACE"@.len() != "ESC"@.len());
    assert("DELETE"@.len() != "ENTER"@.len());
    assert("DELETE"@[0] != "RETURN"@[0]);
    assert("DELETE"@.len() != "TAB"@.len());
    assert("DELETE"@[0] != "ESCAPE"@[0]);
    assert("DELETE"@.len() != "ESC"@.len());
    assert("DELETE"@.len() != "BACKSPACE"@.len());
    assert("UP"@.len() != "ENTER"@.len());
    assert("UP"@.len() != "RETURN"@.len());
    assert("UP"@.len() != "TAB"@.len());
    assert("UP"@.len() != "ESCAPE"@.len());
    assert("UP"@.len() != "ESC"@.len());
    assert("UP"@.len() != "BACKSPACE"@.len());
    assert("UP"@.len() != "DELETE"@.len());
    assert("DOWN"@.len() != "ENTER"@.len());
    assert("DOWN"@.len() != "RETURN"@.len());
    assert("DOWN"@.len() != "TAB"@.len());
    assert("DOWN"@.len() != "ESCAPE"@.len());
    assert("DOWN"@.len() != "ESC"@.len());
    assert("DOWN"@.len() != "BACKSPACE"@.len());
    assert("DOWN"@.len() != "DELETE"@.len());
    assert("DOWN"@.len() != "UP"@.len());
    assert("LEFT"@.len() != "ENTER"@.len());
    assert("LEFT"@.len() != "RETURN"@.len());
    assert("LEFT"@.len() != "TAB"@.len());
    assert("LEFT"@.len() != "ESCAPE"@.len());
    assert("LEFT"@.len() != "ESC"@.len());
    assert("LEFT"@.len() != "BACKSPACE"@.len());
    assert("LEFT"@.len() != "DELETE"@.len());
    assert("LEFT"@.len() != "UP"@.len());
    assert("LEFT"@[0] != "DOWN"@[0]);
    assert("RIGHT"@[0] != "ENTER"@[0]);
    assert("RIGHT"@.len() != "RETURN"@.len());
    assert("RIGHT"@.len() != "TAB"@.len());
    assert("RIGHT"@.len() != "ESCAPE"@.len());
    assert("RIGHT"@.len() != "ESC"@.len());
    assert("RIGHT"@.len() != "BACKSPACE"@.len());
    assert("RIGHT"@.len() != "DELETE"@.len());
    assert("RIGHT"@.len() != "UP"@.len());
    assert("RIGHT"@.len() != "DOWN"@.len());
    assert("RIGHT"@.len() != "LEFT"@.len());
    assert("HOME"@.len() != "ENTER"@.len());
    assert("HOME"@.len() != "RETURN"@.len());
    assert("HOME"@.len() != "TAB"@.len());
    assert("HOME"@.len() != "ESCAPE"@.len());
    assert("HOME"@.len() != "ESC"@.len());
    assert("HOME"@.len() != "BACKSPACE"@.len());
    assert("HOME"@.len() != "DELETE"@.len());
    assert("HOME"@.len() != "UP"@.len());
    assert("HOME"@[0] != "DOWN"@[0]);
    assert("HOME"@[0] != "LEFT"@[0]);
    assert("HOME"@.len() != "RIGHT"@.len());
    assert("END"@.len() != "ENTER"@.len());
    assert("END"@.len() != "RETURN"@.len());
    assert("END"@[0] != "TAB"@[0]);
    assert("END"@.len() != "ESCAPE"@.len());
    assert("END"@[1] != "ESC"@[1]);
    assert("END"@.len() != "BACKSPACE"@.len());
    assert("END"@.len() != "DELETE"@.len());
    assert("END"@.len() != "UP"@.len());
    assert("END"@.len() != "DOWN"@.len());
    assert("END"@.len() != "LEFT"@.len());
    assert("END"@.len() != "RIGHT"@.len());
    assert("END"@.len() != "HOME"@.len());
    assert("PAGEUP"@.len() != "ENTER"@.len());
    assert("PAGEUP"@[0] != "RETURN"@[0]);
    assert("PAGEUP"@.len() != "TAB"@.len());
    assert("PAGEUP"@[0] != "ESCAPE"@[0]);
    assert("PAGEUP"@.len() != "ESC"@.len());
    assert("PAGEUP"@.len() != "BACKSPACE"@.len());
    assert("PAGEUP"@[0] != "DELETE"@[0]);
    assert("PAGEUP"@.len() != "UP"@.len());
    assert("PAGEUP"@.len() != "DOWN"@.len());
    assert("PAGEUP"@.len() != "LEFT"@.len());
    assert("PAGEUP"@.len() != "RIGHT"@.len());
    assert("PAGEUP"@.len() != "HOME"@.len());
    assert("PAGEUP"@.len() != "END"@.len());
    assert("PAGEDOWN"@.len() != "ENTER"@.len());
    assert("PAGEDOWN"@.len() != "RETURN"@.len());
    assert("PAGEDOWN"@.len() != "TAB"@.len());
    assert("PAGEDOWN"@.len() != "ESCAPE"@.len());
    assert("PAGEDOWN"@.len() != "ESC"@.len());
    assert("PAGEDOWN"@.len() != "BACKSPACE"@.len());
    assert("PAGEDOWN"@.len() != "DELETE"@.len());
    assert("PAGEDOWN"@.len() != "UP"@.len());
    assert("PAGEDOWN"@.len() != "DOWN"@.len());
    assert("PAGEDOWN"@.len() != "LEFT"@.len());
    assert("PAGEDOWN"@.len() != "RIGHT"@.len());
    assert("PAGEDOWN"@.len() != "HOME"@.len());
    assert("PAGEDOWN"@.len() != "END"@.len());
    assert("PAGEDOWN"@.len() != "PAGEUP"@.len());
    assert("F1"@.len() != "ENTER"@.len());
    assert("F1"@.len() != "RETURN"@.len());
    assert("F1"@.len() != "TAB"@.len());
    assert("F1"@.len() != "ESCAPE"@.len());
    assert("F1"@.len() != "ESC"@.len());
    assert("F1"@.len() != "BACKSPACE"@.len());
    assert("F1"@.len() != "DELETE"@.len());
    assert("F1"@[0] != "UP"@[0]);
    assert("F1"@.len() != "DOWN"@.len());
    assert("F1"@.len() != "LEFT"@.len());
    assert("F1"@.len() != "RIGHT"@.len());
    assert("F1"@.len() != "HOME"@.len());
    assert("F1"@.len() != "END"@.len());
    assert("F1"@.len() != "PAGEUP"@.len());
    assert("F1"@.len() != "PAGEDOWN"@.len());
    assert("F2"@.len() != "ENTER"@.len());
    assert("F2"@.len() != "RETURN"@.len());
    assert("F2"@.len() != "TAB"@.len());
    assert("F2"@.len() != "ESCAPE"@.len());
    assert("F2"@.len() != "ESC"@.len());
    assert("F2"@.len() != "BACKSPACE"@.len());
    assert("F2"@.len() != "DELETE"@.len());
    assert("F2"@[0] != "UP"@[0]);
    assert("F2"@.len() != "DOWN"@.len());
    assert("F2"@.len() != "LEFT"@.len());
    assert("F2"@.len() != "RIGHT"@.len());
    assert("F2"@.len() != "HOME"@.len());
    assert("F2"@.len() != "END"@.len());
    assert("F2"@.len() != "PAGEUP"@.len());
    assert("F2"@.len() != "PAGEDOWN"@.len());
    assert("F2"@[1] != "F1"@[1]);
    assert("F3"@.len() != "ENTER"@.len());
    assert("F3"@.len() != "RETURN"@.len());
    assert("F3"@.len() != "TAB"@.len());
    assert("F3"@.len() != "ESCAPE"@.len());
    assert("F3"@.len() != "ESC"@.len());
    assert("F3"@.len() != "BACKSPACE"@.len());
    assert("F3"@.len() != "DELETE"@.len());
    assert("F3"@[0] != "UP"@[0]);
    assert("F3"@.len() != "DOWN"@.len());
    assert("F3"@.len() != "LEFT"@.len());
    assert("F3"@.len() != "RIGHT"@.len());
    assert("F3"@.len() != "HOME"@.len());
    assert("F3"@.len() != "END"@.len());
    assert("F3"@.len() != "PAGEUP"@.len());
    assert("F3"@.len() != "PAGEDOWN"@.len());
    assert("F3"@[1] != "F1"@[1]);
    assert("F3"@[1] != "F2"@[1]);
    assert("F4"@.len() != "ENTER"@.len());
    assert("F4"@.len() != "RETURN"@.len());
    assert("F4"@.len() != "TAB"@.len());
    assert("F4"@.len() != "ESCAPE"@.len());
    assert("F4"@.len() != "ESC"@.len());
    assert("F4"@.len() != "BACKSPACE"@.len());
    assert("F4"@.len() != "DELETE"@.len());
    assert("F4"@[0] != "UP"@[0]);
    assert("F4"@.len() != "DOWN"@.len());
    assert("F4"@.len() != "LEFT"@.len());
    assert("F4"@.len() != "RIGHT"@.len());
    assert("F4"@.len() != "HOME"@.len());
    assert("F4"@.len() != "END"@.len());
    assert("F4"@.len() != "PAGEUP"@.len());
    assert("F4"@.len() != "PAGEDOWN"@.len());
    assert("F4"@[1] != "F1"@[1]);
    assert("F4"@[1] != "F2"@[1]);
    assert("F4"@[1] != "F3"@[1]);
    assert("F5"@.len() != "ENTER"@.len());
    assert("F5"@.len() != "RETURN"@.len());
    assert("F5"@.len() != "TAB"@.len());
    assert("F5"@.len() != "ESCAPE"@.len());
    assert("F5"@.len() != "ESC"@.len());
    assert("F5"@.len() != "BACKSPACE"@.len());
    assert("F5"@.len() != "DELETE"@.len());
    assert("F5"@[0] != "UP"@[0]);
    assert("F5"@.len() != "DOWN"@.len());
    assert("F5"@.len() != "LEFT"@.len());
    assert("F5"@.len() != "RIGHT"@.len());
    assert("F5"@.len() != "HOME"@.len());
    assert("F5"@.len() != "END"@.len());
    assert("F5"@.len() != "PAGEUP"@.len());
    assert("F5"@.len() != "PAGEDOWN"@.len());
    assert("F5"@[1] != "F1"@[1]);
    assert("F5"@[1] != "F2"@[1]);
    assert("F5"@[1] != "F3"@[1]);
    assert("F5"@[1] != "F4"@[1]);
    assert("F6"@.len() != "ENTER"@.len());
    assert("F6"@.len() != "RETURN"@.len());
    assert("F6"@.len() != "TAB"@.len());
    assert("F6"@.len() != "ESCAPE"@.len());
    assert("F6"@.len() != "ESC"@.len());
    assert("F6"@.len() != "BACKSPACE"@.len());
    assert("F6"@.len() != "DELETE"@.len());
    assert("F6"@[0] != "UP"@[0]);
    assert("F6"@.len() != "DOWN"@.len());
    assert("F6"@.len() != "LEFT"@.len());
    assert("F6"@.len() != "RIGHT"@.len());
    assert("F6"@.len() != "HOME"@.len());
    assert("F6"@.len() != "END"@.len());
    assert("F6"@.len() != "PAGEUP"@.len());
    assert("F6"@.len() != "PAGEDOWN"@.len());
    assert("F6"@[1] != "F1"@[1]);
    assert("F6"@[1] != "F2"@[1]);
    assert("F6"@[1] != "F3"@[1]);
    assert("F6"@[1] != "F4"@[1]);
    assert("F6"@[1] != "F5"@[1]);
    assert("F7"@.len() != "ENTER"@.len());
    assert("F7"@.len() != "RETURN"@.len());
    assert("F7"@.len() != "TAB"@.len());
    assert("F7"@.len() != "ESCAPE"@.len());
    assert("F7"@.len() != "ESC"@.len());
    assert("F7"@.len() != "BACKSPACE"@.len());
    assert("F7"@.len() != "DELETE"@.len());
    assert("F7"@[0] != "UP"@[0]);
    assert("F7"@.len() != "DOWN"@.len());
    assert("F7"@.len() != "LEFT"@.len());
    assert("F7"@.len() != "RIGHT"@.len());
    assert("F7"@.len() != "HOME"@.len());
    assert("F7"@.len() != "END"@.len());
    assert("F7"@.len() != "PAGEUP"@.len());
    assert("F7"@.len() != "PAGEDOWN"@.len());
    assert("F7"@[1] != "F1"@[1]);
    assert("F7"@[1] != "F2"@[1]);
    assert("F7"@[1] != "F3"@[1]);
    assert("F7"@[1] != "F4"@[1]);
    assert("F7"@[1] != "F5"@[1]);
    assert("F7"@[1] != "F6"@[1]);
    assert("F8"@.len() != "ENTER"@.len());
    assert("F8"@.len() != "RETURN"@.len());
    assert("F8"@.len() != "TAB"@.len());
    assert("F8"@.len() != "ESCAPE"@.len());
    assert("F8"@.len() != "ESC"@.len());
    assert("F8"@.len() != "BACKSPACE"@.len());
    assert("F8"@.len() != "DELETE"@.len());
    assert("F8"@[0] != "UP"@[0]);
    assert("F8"@.len() != "DOWN"@.len());
    assert("F8"@.len() != "LEFT"@.len());
    assert("F8"@.len() != "RIGHT"@.len());
    assert("F8"@.len() != "HOME"@.len());
    assert("F8"@.len() != "END"@.len());
    assert("F8"@.len() != "PAGEUP"@.len());
    assert("F8"@.len() != "PAGEDOWN"@.len());
    assert("F8"@[1] != "F1"@[1]);
    assert("F8"@[1] != "F2"@[1]);
    assert("F8"@[1] != "F3"@[1]);
    assert("F8"@[1] != "F4"@[1]);
    assert("F8"@[1] != "F5"@[1]);
    assert("F8"@[1] != "F6"@[1]);
    assert("F8"@[1] != "F7"@[1]);
    assert("F9"@.len() != "ENTER"@.len());
    assert("F9"@.len() != "RETURN"@.len());
    assert("F9"@.len() != "TAB"@.len());
    assert("F9"@.len() != "ESCAPE"@.len());
    assert("F9"@.len() != "ESC"@.len());
    assert("F9"@.len() != "BACKSPACE"@.len());
    assert("F9"@.len() != "DELETE"@.len());
    assert("F9"@[0] != "UP"@[0]);
    assert("F9"@.len() != "DOWN"@.len());
    assert("F9"@.len() != "LEFT"@.len());
    assert("F9"@.len() != "RIGHT"@.len());
    assert("F9"@.len() != "HOME"@.len());
    assert("F9"@.len() != "END"@.len());
    assert("F9"@.len() != "PAGEUP"@.len());
    assert("F9"@.len() != "PAGEDOWN"@.len());
    assert("F9"@[1] != "F1"@[1]);
    assert("F9"@[1] != "F2"@[1]);
    assert("F9"@[1] != "F3"@[1]);
    assert("F9"@[1] != "F4"@[1]);
    assert("F9"@[1] != "F5"@[1]);
    assert("F9"@[1] != "F6"@[1]);
    assert("F9"@[1] != "F7"@[1]);
    assert("F9"@[1] != "F8"@[1]);
    assert("F10"@.len() != "ENTER"@.len());
    assert("F10"@.len() != "RETURN"@.len());
    assert("F10"@[0] != "TAB"@[0]);
    assert("F10"@.len() != "ESCAPE"@.len());
    assert("F10"@[0] != "ESC"@[0]);
    assert("F10"@.len() != "BACKSPACE"@.len());
    assert("F10"@.len() != "DELETE"@.len());
    assert("F10"@.len() != "UP"@.len());
    assert("F10"@.len() != "DOWN"@.len());
    assert("F10"@.len() != "LEFT"@.len());
    assert("F10"@.len() != "RIGHT"@.len());
    assert("F10"@.len() != "HOME"@.len());
    assert("F10"@[0] != "END"@[0]);
    assert("F10"@.len() != "PAGEUP"@.len());
    assert("F10"@.len() != "PAGEDOWN"@.len());
    assert("F10"@.len() != "F1"@.len());
    assert("F10"@.len() != "F2"@.len());
    assert("F10"@.len() != "F3"@.len());
    assert("F10"@.len() != "F4"@.len());
    assert("F10"@.len() != "F5"@.len());
    assert("F10"@.len() != "F6"@.len());
    assert("F10"@.len() != "F7"@.len());
    assert("F10"@.len() != "F8"@.len());
    assert("F10"@.len() != "F9"@.len());
    assert("F11"@.len() != "ENTER"@.len());
    assert("F11"@.len() != "RETURN"@.len());
    assert("F11"@[0] != "TAB"@[0]);
    assert("F11"@.len() != "ESCAPE"@.len());
    assert("F11"@[0] != "ESC"@[0]);
    assert("F11"@.len() != "BACKSPACE"@.len());
    assert("F11"@.len() != "DELETE"@.len());
    assert("F11"@.len() != "UP"@.len());
    assert("F11"@.len() != "DOWN"@.len());
    assert("F11"@.len() != "LEFT"@.len());
    assert("F11"@.len() != "RIGHT"@.len());
    assert("F11"@.len() != "HOME"@.len());
    assert("F11"@[0] != "END"@[0]);
    assert("F11"@.len() != "PAGEUP"@.len());
    assert("F11"@.len() != "PAGEDOWN"@.len());
    assert("F11"@.len() != "F1"@.len());
    assert("F11"@.len() != "F2"@.len());
    assert("F11"@.len() != "F3"@.len());
    assert("F11"@.len() != "F4"@.len());
    assert("F11"@.len() != "F5"@.len());
    assert("F11"@.len() != "F6"@.len());
    assert("F11"@.len() != "F7"@.len());
    assert("F11"@.len() != "F8"@.len());
    assert("F11"@.len() != "F9"@.len());
    assert("F11"@[2] != "F10"@[2]);
    assert("F12"@.len() != "ENTER"@.len());
    assert("F12"@.len() != "RETURN"@.len());
    assert("F12"@[0] != "TAB"@[0]);
    assert("F12"@.len() != "ESCAPE"@.len());
    assert("F12"@[0] != "ESC"@[0]);
    assert("F12"@.len() != "BACKSPACE"@.len());
    assert("F12"@.len() != "DELETE"@.len());
    assert("F12"@.len() != "UP"@.len());
    assert("F12"@.len() != "DOWN"@.len());
    assert("F12"@.len() != "LEFT"@.len());
    assert("F12"@.len() != "RIGHT"@.len());
    assert("F12"@.len() != "HOME"@.len());
    assert("F12"@[0] != "END"@[0]);
    assert("F12"@.len() != "PAGEUP"@.len());
    assert("F12"@.len() != "PAGEDOWN"@.len());
    assert("F12"@.len() != "F1"@.len());
    assert("F12"@.len() != "F2"@.len());
    assert("F12"@.len() != "F3"@.len());
    assert("F12"@.len() != "F4"@.len());
    assert("F12"@.len() != "F5"@.len());
    assert("F12"@.len() != "F6"@.len());
    assert("F12"@.len() != "F7"@.len());
    assert("F12"@.len() != "F8"@.len());
    assert("F12"@.len() != "F9"@.len());
    assert("F12"@[2] != "F10"@[2]);
    assert("F12"@[2] != "F11"@[2]);
}

/// The Win32 codes of modifiers and mouse buttons: Ctrl 0x11, Alt 0x12,
/// Shift 0x10, the Windows key 0x5B; pressing the left, right and middle
/// buttons is 0x0002, 0x0008 and 0x0020, releasing them 0x0004, 0x0010 and
/// 0x0040, and a click is a press and a release together.
pub proof fn law_input_codes(b: MouseButton)
    ensures
        modifier_code(ModifierKey::Ctrl) == 0x11,
        modifier_code(ModifierKey::Alt) == 0x12,
        modifier_code(ModifierKey::Shift) == 0x10,
        modifier_code(ModifierKey::Super) == 0x5B,
        down_flag_of(MouseButton::Left) == 0x0002,
        down_flag_of(MouseButton::Right) == 0x0008,
        down_flag_of(MouseButton::Middle) == 0x0020,
        up_flag_of(MouseButton::Left) == 0x0004,
        up_flag_of(MouseButton::Right) == 0x0010,
        up_flag_of(MouseButton::Middle) == 0x0040,
        click_flags_of(b) == down_flag_of(b) | up_flag_of(b),
{
    assert(0x0002u32 | 0x0004u32 == 0x0006u32 && 0x0008u32 | 0x0010u32 == 0x0018u32
        && 0x0020u32 | 0x0040u32 == 0x0060u32) by (bit_vector);
}

/// A scroll turns the wheel 120 units per notch: negative up and left,
/// positive down and right; up and down on the vertical wheel (0x0800),
/// left and right on the horizontal one (0x1000).
pub proof fn law_wheel(amount: u32)
    requires
        amount <= i32::MAX,
    ensures
        wheel_of(ScrollDirection::Up, amount) == (-120 * amount, 0x0800u32),
        wheel_of(ScrollDirection::Down, amount) == (120 * amount, 0x0800u32),
        wheel_of(ScrollDirection::Left, amount) == (-120 * amount, 0x1000u32),
        wheel_of(ScrollDirection::Right, amount) == (120 * amount, 0x1000u32),
{
}

/// The names the recording actor writes are those `{:?}` prints.
pub proof fn law_debug_names()
    ensures
        button_name(MouseButton::Left) == "Left"@,
        button_name(MouseButton::Right) == "Right"@,
        button_name(MouseButton::Middle) == "Middle"@,
        direction_name(ScrollDirection::Up) == "Up"@,
        direction_name(ScrollDirection::Down) == "Down"@,
        direction_name(ScrollDirection::Left) == "Left"@,
        direction_name(ScrollDirection::Right) == "Right"@,
        modifier_name(ModifierKey::Ctrl) == "Ctrl"@,
        modifier_name(ModifierKey::Alt) == "Alt"@,
        modifier_name(ModifierKey::Shift) == "Shift"@,
        modifier_name(ModifierKey::Super) == "Super"@,
        bool_text(true) == "true"@,
        bool_text(false) == "false"@,
{
}

/// A key press holds its modifiers around the key: with `n` modifiers, the
/// first `n` events press them in the order given, then the key is pressed
/// and released, and the last `n` events release the modifiers, the last
/// pressed first.
pub proof fn law_key_press_events(vk: u16, ms: Seq<ModifierKey>)
    ensures
        key_press_events(vk, ms).len() == 2 * ms.len() + 2,
        key_press_events(vk, ms)[ms.len() as int] == (vk, false),
        key_press_events(vk, ms)[ms.len() + 1int] == (vk, true),
        forall|i: int|
            0 <= i < ms.len() ==> key_press_events(vk, ms)[i] == (modifier_code(ms[i]), false)
                && key_press_events(vk, ms)[2 * ms.len() + 1 - i] == (modifier_code(ms[i]), true),
{
    let n = ms.len() as int;
    let e = key_press_events(vk, ms);
    assert forall|i: int| 0 <= i < n implies e[i] == (modifier_code(ms[i]), false) && e[2 * n + 1
        - i] == (modifier_code(ms[i]), true) by {
        assert(e[2 * n + 1 - i] == modifier_events(ms, true).reverse()[n - 1 - i]);
    }
}

/// Typing a character presses and releases its key, inside a press and a
/// release of Shift (0x10) when its scan has the Shift bit (0x100); the key
/// is the low byte of the scan, and a character no key types (scan 0xFFFF)
/// is sent by its own code unit. A named key's scan gives no code exactly
/// when it is 0xFFFF.
pub proof fn law_char_key_events(scan: u16, unit: u16)
    ensures
        scan == 0xFFFF ==> char_key_events(scan, unit) == seq![(unit, false), (unit, true)],
        scan != 0xFFFF && scan & 0x100 != 0 ==> char_key_events(scan, unit) == seq![
            (0x10u16, false),
            ((scan % 256) as u16, false),
            ((scan % 256) as u16, true),
            (0x10u16, true),
        ],
        scan != 0xFFFF && scan & 0x100 == 0 ==> char_key_events(scan, unit) == seq![
            ((scan % 256) as u16, false),
            ((scan % 256) as u16, true),
        ],
        scan_key_code(scan) == (if scan == 0xFFFF {
            None
        } else {
            Some((scan % 256) as u16)
        }),
{
    assert(scan & 0xFFu16 == scan % 256) by (bit_vector);
    assert(((scan >> 8u16) & 1u16 != 0) == (scan & 0x100 != 0)) by (bit_vector);
}

} // verus!
