//! Screen rectangles and the UI elements found on screen.

use vstd::prelude::*;

verus! {

/// A rectangular area on screen.
#[derive(Debug, Clone, Copy, PartialEq, Eq, Structural)]
pub struct Rect {
    pub x: i32,
    pub y: i32,
    pub width: u32,
    pub height: u32,
}

/// The value of `v as i32` for a `u32`: values above `i32::MAX` wrap around.
pub open spec fn wrap_i32(v: u32) -> int {
    if v <= i32::MAX {
        v as int
    } else {
        v - 0x1_0000_0000
    }
}

/// Integer division by two that rounds toward zero, as Rust's `/` does.
pub open spec fn half_toward_zero(v: int) -> int {
    if v >= 0 {
        v / 2
    } else {
        -((-v) / 2)
    }
}

pub open spec fn fits_i32(v: int) -> bool {
    i32::MIN <= v <= i32::MAX
}

/// `(v as i32) / 2` for a `u32`.
fn half_as_i32(v: u32) -> (r: i32)
    ensures
        r == half_toward_zero(wrap_i32(v)),
{
    if v <= 0x7FFF_FFFF {
        (v / 2) as i32
    } else {
        let neg: u32 = (0x1_0000_0000u64 - v as u64) as u32;
        -((neg / 2) as i32)
    }
}

/// `v as i32` for a `u32`.
pub fn as_i32(v: u32) -> (r: i32)
    ensures
        r == wrap_i32(v),
{
    let r = v as i32;
    assert(v <= 0x7FFF_FFFF ==> r == v) by (bit_vector)
        requires
            r == v as i32,
    ;
    assert(v > 0x7FFF_FFFF ==> r == v - 0x1_0000_0000) by (bit_vector)
        requires
            r == v as i32,
    ;
    r
}

impl Rect {
    pub fn new(x: i32, y: i32, width: u32, height: u32) -> (r: Self)
        ensures
            r == (Rect { x, y, width, height }),
    {
        Rect { x, y, width, height }
    }

    /// The x coordinate of the center: the left edge plus half the width
    /// taken as an `i32`, rounded toward zero.
    pub open spec fn center_x(self) -> int {
        self.x + half_toward_zero(wrap_i32(self.width))
    }

    /// The y coordinate of the center: the top edge plus half the height
    /// taken as an `i32`, rounded toward zero.
    pub open spec fn center_y(self) -> int {
        self.y + half_toward_zero(wrap_i32(self.height))
    }

    /// The center point of the rectangle.
    pub fn center(&self) -> (r: (i32, i32))
        requires
            fits_i32(self.center_x()),
            fits_i32(self.center_y()),
        ensures
            r.0 == self.center_x(),
            r.1 == self.center_y(),
    {
        let hx = half_as_i32(self.width);
        let hy = half_as_i32(self.height);
        (self.x + hx, self.y + hy)
    }

    /// Whether both coordinates of the center fit in an `i32`, so that
    /// `center` can compute them.
    pub fn center_fits(&self) -> (r: bool)
        ensures
            r == (fits_i32(self.center_x()) && fits_i32(self.center_y())),
    {
        let hx = half_as_i32(self.width) as i64;
        let hy = half_as_i32(self.height) as i64;
        let cx: i64 = self.x as i64 + hx;
        let cy: i64 = self.y as i64 + hy;
        -0x8000_0000 <= cx && cx <= 0x7FFF_FFFF && -0x8000_0000 <= cy && cy <= 0x7FFF_FFFF
    }

    /// The sums that `contains` computes do not overflow, taking the order
    /// in which its comparisons are evaluated into account.
    pub open spec fn contains_computable(self, px: i32, py: i32) -> bool {
        &&& px >= self.x ==> fits_i32(self.x + wrap_i32(self.width))
        &&& (px >= self.x && px < self.x + wrap_i32(self.width) && py >= self.y) ==> fits_i32(
            self.y + wrap_i32(self.height),
        )
    }

    pub open spec fn spec_contains(self, px: int, py: int) -> bool {
        &&& px >= self.x
        &&& px < self.x + wrap_i32(self.width)
        &&& py >= self.y
        &&& py < self.y + wrap_i32(self.height)
    }

    /// Whether a point lies inside the rectangle.
    pub fn contains(&self, px: i32, py: i32) -> (r: bool)
        requires
            self.contains_computable(px, py),
        ensures
            r == self.spec_contains(px as int, py as int),
    {
        let w = as_i32(self.width);
        let h = as_i32(self.height);
        px >= self.x && px < self.x + w && py >= self.y && py < self.y + h
    }
}

/// The center of a rectangle that is not empty lies inside it.
pub proof fn law_center_inside(r: Rect)
    requires
        0 < r.width <= i32::MAX,
        0 < r.height <= i32::MAX,
        fits_i32(r.x + r.width),
        fits_i32(r.y + r.height),
    ensures
        fits_i32(r.center_x()),
        fits_i32(r.center_y()),
        r.contains_computable(r.center_x() as i32, r.center_y() as i32),
        r.spec_contains(r.center_x(), r.center_y()),
{
}

/// A UI element found on screen.
#[derive(Debug)]
pub struct Element {
    /// Identifier of the element.
    pub id: String,
    /// Bounding rectangle on screen.
    pub bounds: Rect,
    /// Visible text of the element.
    pub text: Option<String>,
    /// Kind of UI element ("Button", "Edit", "Window", ...).
    pub element_type: Option<String>,
    /// Platform handle (a window handle on Windows).
    pub platform_handle: Option<u64>,
    /// Id of the process that owns the element.
    pub process_id: Option<u32>,
    /// Executable name of the owning process.
    pub process_name: Option<String>,
    /// Title of the window holding the element.
    pub window_title: Option<String>,
}

/// A copy of an optional string.
pub fn clone_opt_string(s: &Option<String>) -> (r: Option<String>)
    ensures
        r == *s,
{
    match s {
        Some(v) => Some(v.clone()),
        None => None,
    }
}

impl Clone for Element {
    fn clone(&self) -> (r: Self)
        ensures
            r == *self,
    {
        Element {
            id: self.id.clone(),
            bounds: self.bounds,
            text: clone_opt_string(&self.text),
            element_type: clone_opt_string(&self.element_type),
            platform_handle: self.platform_handle,
            process_id: self.process_id,
            process_name: clone_opt_string(&self.process_name),
            window_title: clone_opt_string(&self.window_title),
        }
    }
}

impl Element {
    /// The center of the element's bounds.
    pub fn center(&self) -> (r: (i32, i32))
        requires
            fits_i32(self.bounds.center_x()),
            fits_i32(self.bounds.center_y()),
        ensures
            r.0 == self.bounds.center_x(),
            r.1 == self.bounds.center_y(),
    {
        self.bounds.center()
    }
}

} // verus!
