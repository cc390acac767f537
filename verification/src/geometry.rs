//! Page geometry: rotation-aware transforms between PDF space and display
//! space, the zoom that leads from display space to the canvas, and boxes on
//! the canvas.

use vstd::prelude::*;
use vstd::arithmetic::div_mod::lemma_fundamental_div_mod_converse;
use vstd::arithmetic::div_mod::lemma_fundamental_div_mod;

verus! {

/// Thousandths per point (and per pixel).
pub const UNITS: i64 = 1000;

/// Largest magnitude of a stored coordinate, size or pointer position.
pub const COORD_LIMIT: i64 = 4_000_000_000_000;

/// Largest magnitude that the transforms accept for any argument.
pub const TRANSFORM_LIMIT: i64 = 1_000_000_000_000_000_000;

/// Side of the square resize handle on the canvas.
pub const HANDLE_SIZE: i64 = 12_000;

/// Zoom at which one point covers one pixel.
pub const ZOOM_UNIT: u8 = 4;

/// Largest zoom, in quarter steps.
pub const ZOOM_MAX: u8 = 16;

/// Whether `v` can be stored in an annotation or come from the pointer.
pub open spec fn in_range(v: int) -> bool {
    -COORD_LIMIT <= v <= COORD_LIMIT
}

/// Whether `v` can be handed to a transform.
pub open spec fn transformable(v: int) -> bool {
    -TRANSFORM_LIMIT <= v <= TRANSFORM_LIMIT
}

/// `v` moved to the nearest value between `lo` and `hi`.
pub open spec fn clamp_spec(v: int, lo: int, hi: int) -> int {
    if v < lo {
        lo
    } else if v > hi {
        hi
    } else {
        v
    }
}

pub fn clamp(v: i64, lo: i64, hi: i64) -> (r: i64)
    requires
        lo <= hi,
    ensures
        r == clamp_spec(v as int, lo as int, hi as int),
        lo <= r <= hi,
{
    if v < lo {
        lo
    } else if v > hi {
        hi
    } else {
        v
    }
}

/// `v` moved into the range of stored coordinates.
pub open spec fn clamp_coord_spec(v: int) -> int {
    clamp_spec(v, -COORD_LIMIT as int, COORD_LIMIT as int)
}

pub fn clamp_coord(v: i64) -> (r: i64)
    ensures
        r == clamp_coord_spec(v as int),
        in_range(r as int),
{
    clamp(v, -COORD_LIMIT, COORD_LIMIT)
}

/// A rotation angle brought into {0, 90, 180, 270, ...}: the remainder of
/// `degrees` by 360 that is not negative.
pub open spec fn normalize_rotation_spec(degrees: int) -> int {
    degrees % 360
}

pub fn normalize_rotation(degrees: i32) -> (r: i32)
    ensures
        r == normalize_rotation_spec(degrees as int),
        0 <= r < 360,
{
    let m: i32 = degrees % 360;
    if m < 0 {
        m + 360
    } else {
        m
    }
}

/// Top-left corner on the rotated page of a box that PDF space holds at
/// `(x, y)` with size `(w, h)`, on a page of unrotated size
/// `(orig_w, orig_h)`.  Any angle other than 90, 180 and 270 leaves the
/// corner where it is.
pub open spec fn to_display(x: int, y: int, w: int, h: int, orig_w: int, orig_h: int, rotation: int) -> (int, int) {
    if rotation == 90 {
        (orig_h - y - h, x)
    } else if rotation == 180 {
        (orig_w - x - w, orig_h - y - h)
    } else if rotation == 270 {
        (y, orig_w - x - w)
    } else {
        (x, y)
    }
}

/// PDF-space corner of the box that the rotated page shows at `(dx, dy)`.
pub open spec fn to_pdf(dx: int, dy: int, w: int, h: int, orig_w: int, orig_h: int, rotation: int) -> (int, int) {
    if rotation == 90 {
        (dy, orig_h - dx - h)
    } else if rotation == 180 {
        (orig_w - dx - w, orig_h - dy - h)
    } else if rotation == 270 {
        (orig_w - dy - w, dx)
    } else {
        (dx, dy)
    }
}

pub fn pdf_to_display_pos(x: i64, y: i64, width: i64, height: i64, orig_w: i64, orig_h: i64, rotation: i32) -> (r: (i64, i64))
    requires
        transformable(x as int),
        transformable(y as int),
        transformable(width as int),
        transformable(height as int),
        transformable(orig_w as int),
        transformable(orig_h as int),
    ensures
        (r.0 as int, r.1 as int) == to_display(x as int, y as int, width as int, height as int, orig_w as int, orig_h as int, rotation as int),
{
    if rotation == 90 {
        (orig_h - y - height, x)
    } else if rotation == 180 {
        (orig_w - x - width, orig_h - y - height)
    } else if rotation == 270 {
        (y, orig_w - x - width)
    } else {
        (x, y)
    }
}

pub fn display_to_pdf(display_x: i64, display_y: i64, width: i64, height: i64, orig_w: i64, orig_h: i64, rotation: i32) -> (r: (i64, i64))
    requires
        transformable(display_x as int),
        transformable(display_y as int),
        transformable(width as int),
        transformable(height as int),
        transformable(orig_w as int),
        transformable(orig_h as int),
    ensures
        (r.0 as int, r.1 as int) == to_pdf(display_x as int, display_y as int, width as int, height as int, orig_w as int, orig_h as int, rotation as int),
{
    if rotation == 90 {
        (display_y, orig_h - display_x - height)
    } else if rotation == 180 {
        (orig_w - display_x - width, orig_h - display_y - height)
    } else if rotation == 270 {
        (orig_w - display_y - width, display_x)
    } else {
        (display_x, display_y)
    }
}

/// Going to display space and back gives the PDF-space corner again, under
/// every rotation and for every box and page size.
pub proof fn lemma_display_round_trip(x: int, y: int, w: int, h: int, orig_w: int, orig_h: int, rotation: int)
    ensures
        ({
            let d = to_display(x, y, w, h, orig_w, orig_h, rotation);
            to_pdf(d.0, d.1, w, h, orig_w, orig_h, rotation) == (x, y)
        }),
{
}

/// Going to PDF space and back gives the display-space corner again.
pub proof fn lemma_pdf_round_trip(dx: int, dy: int, w: int, h: int, orig_w: int, orig_h: int, rotation: int)
    ensures
        ({
            let p = to_pdf(dx, dy, w, h, orig_w, orig_h, rotation);
            to_display(p.0, p.1, w, h, orig_w, orig_h, rotation) == (dx, dy)
        }),
{
}

/// An unrotated page shows every box where PDF space holds it.
pub proof fn lemma_display_identity(x: int, y: int, w: int, h: int, orig_w: int, orig_h: int)
    ensures
        to_display(x, y, w, h, orig_w, orig_h, 0) == (x, y),
        to_pdf(x, y, w, h, orig_w, orig_h, 0) == (x, y),
{
}

/// Footprint of a page under a rotation: 90 and 270 swap the sides.
pub open spec fn rotated_size(orig_w: int, orig_h: int, rotation: int) -> (int, int) {
    if rotation == 90 || rotation == 270 {
        (orig_h, orig_w)
    } else {
        (orig_w, orig_h)
    }
}

pub fn rotated_page_size(orig_w: i64, orig_h: i64, rotation: i32) -> (r: (i64, i64))
    ensures
        (r.0 as int, r.1 as int) == rotated_size(orig_w as int, orig_h as int, rotation as int),
{
    if rotation == 90 || rotation == 270 {
        (orig_h, orig_w)
    } else {
        (orig_w, orig_h)
    }
}

/// Quotient of `a` by a positive `d`, rounded down.
pub fn div_floor(a: i64, d: i64) -> (q: i64)
    requires
        d > 0,
        a > i64::MIN,
    ensures
        q == a as int / d as int,
{
    if a >= 0 {
        a / d
    } else {
        let n: i64 = -a;
        let q0: i64 = n / d;
        let r: i64 = n % d;
        proof {
            lemma_fundamental_div_mod(n as int, d as int);
            assert(n as int == q0 * d + r) by (nonlinear_arith)
                requires
                    n as int == d * (n as int / d as int) + (n as int % d as int),
                    q0 as int == n as int / d as int,
                    r as int == n as int % d as int,
            ;
        }
        if r == 0 {
            proof {
                assert(a as int == (-q0) * d + 0) by (nonlinear_arith)
                    requires
                        n as int == q0 * d + r,
                        r == 0,
                        a as int == -(n as int),
                ;
                lemma_fundamental_div_mod_converse(a as int, d as int, -q0 as int, 0);
            }
            -q0
        } else {
            proof {
                assert(a as int == (-q0 - 1) * d + (d - r)) by (nonlinear_arith)
                    requires
                        n as int == q0 * d + r,
                        a as int == -(n as int),
                ;
                lemma_fundamental_div_mod_converse(a as int, d as int, -q0 - 1, d - r);
            }
            -q0 - 1
        }
    }
}

/// A display magnification in quarter steps: 1 is 25 %, 4 is 100 %, 16 is
/// 400 %.
#[derive(Clone, Copy, PartialEq, Eq, Structural, Debug)]
pub struct Zoom {
    pub quarters: u8,
}

impl Zoom {
    pub open spec fn wf(self) -> bool {
        1 <= self.quarters <= ZOOM_MAX
    }

    pub fn is_valid(&self) -> (b: bool)
        ensures
            b == self.wf(),
    {
        1 <= self.quarters && self.quarters <= ZOOM_MAX
    }

    /// The zoom at which the page is shown point for pixel.
    pub open spec fn unit_spec() -> Zoom {
        Zoom { quarters: ZOOM_UNIT }
    }

    pub open spec fn stepped_in_spec(self) -> Zoom {
        if self.quarters < ZOOM_MAX {
            Zoom { quarters: (self.quarters + 1) as u8 }
        } else {
            Zoom { quarters: ZOOM_MAX }
        }
    }

    pub open spec fn stepped_out_spec(self) -> Zoom {
        if self.quarters > 1 {
            Zoom { quarters: (self.quarters - 1) as u8 }
        } else {
            Zoom { quarters: 1 }
        }
    }

    #[verifier::when_used_as_spec(unit_spec)]
    pub fn unit() -> (z: Zoom)
        ensures
            z.wf(),
            z == Zoom::unit_spec(),
    {
        Zoom { quarters: ZOOM_UNIT }
    }

    /// One quarter step more, at most 400 %.
    #[verifier::when_used_as_spec(stepped_in_spec)]
    pub fn stepped_in(self) -> (z: Zoom)
        requires
            self.wf(),
        ensures
            z.wf(),
            z == self.stepped_in_spec(),
    {
        if self.quarters < ZOOM_MAX {
            Zoom { quarters: self.quarters + 1 }
        } else {
            Zoom { quarters: ZOOM_MAX }
        }
    }

    /// One quarter step less, at least 25 %.
    #[verifier::when_used_as_spec(stepped_out_spec)]
    pub fn stepped_out(self) -> (z: Zoom)
        requires
            self.wf(),
        ensures
            z.wf(),
            z == self.stepped_out_spec(),
    {
        if self.quarters > 1 {
            Zoom { quarters: self.quarters - 1 }
        } else {
            Zoom { quarters: 1 }
        }
    }

    /// The zoom as a percentage.
    pub fn percent(self) -> (p: u32)
        requires
            self.wf(),
        ensures
            p == self.quarters * 25,
    {
        let q: u32 = self.quarters as u32;
        q * 25
    }
}

/// A display-space length as the canvas shows it: times the zoom, rounded
/// down.
pub open spec fn scale_spec(v: int, zoom: Zoom) -> int {
    (v * zoom.quarters as int) / 4
}

/// A canvas length brought back to display space: divided by the zoom,
/// rounded down.
pub open spec fn unscale_spec(p: int, zoom: Zoom) -> int {
    (p * 4) / zoom.quarters as int
}

/// Largest magnitude that `scale` and `unscale` accept.
pub const SCALE_LIMIT: i64 = 100_000_000_000_000_000;

pub open spec fn scalable(v: int) -> bool {
    -SCALE_LIMIT <= v <= SCALE_LIMIT
}

proof fn lemma_product_bound(v: int, k: int, limit: int)
    requires
        -limit <= v <= limit,
        0 <= k <= 16,
    ensures
        -16 * limit <= v * k <= 16 * limit,
{
    assert(-16 * limit <= v * k <= 16 * limit) by (nonlinear_arith)
        requires
            -limit <= v <= limit,
            0 <= k <= 16,
    ;
}

/// Bounds on a scaled and on an unscaled length.
pub proof fn lemma_scale_bounds(v: int, zoom: Zoom, limit: int)
    requires
        zoom.wf(),
        -limit <= v <= limit,
    ensures
        -4 * limit <= scale_spec(v, zoom) <= 4 * limit,
        -4 * limit <= unscale_spec(v, zoom) <= 4 * limit,
{
    let q = zoom.quarters as int;
    lemma_product_bound(v, q, limit);
    assert(-4 * limit <= unscale_spec(v, zoom) <= 4 * limit) by (nonlinear_arith)
        requires
            1 <= q <= 16,
            -limit <= v <= limit,
            unscale_spec(v, zoom) == (v * 4) / q,
    ;
}

/// At 100 % a length is the same on the canvas and in display space.
pub proof fn lemma_scale_unit(v: int)
    ensures
        scale_spec(v, Zoom { quarters: ZOOM_UNIT }) == v,
        unscale_spec(v, Zoom { quarters: ZOOM_UNIT }) == v,
{
}

pub fn scale(v: i64, zoom: Zoom) -> (r: i64)
    requires
        zoom.wf(),
        scalable(v as int),
    ensures
        r == scale_spec(v as int, zoom),
{
    proof {
        lemma_product_bound(v as int, zoom.quarters as int, SCALE_LIMIT as int);
    }
    let q: i64 = zoom.quarters as i64;
    div_floor(v * q, 4)
}

pub fn unscale(p: i64, zoom: Zoom) -> (r: i64)
    requires
        zoom.wf(),
        scalable(p as int),
    ensures
        r == unscale_spec(p as int, zoom),
{
    let q: i64 = zoom.quarters as i64;
    div_floor(p * 4, q)
}

/// A position on the canvas or in one of the two page spaces.
#[derive(Clone, Copy, PartialEq, Eq, Structural, Debug)]
pub struct Point {
    pub x: i64,
    pub y: i64,
}

impl Point {
    pub open spec fn wf(self) -> bool {
        in_range(self.x as int) && in_range(self.y as int)
    }

    pub fn is_valid(&self) -> (b: bool)
        ensures
            b == self.wf(),
    {
        -COORD_LIMIT <= self.x && self.x <= COORD_LIMIT && -COORD_LIMIT <= self.y && self.y <= COORD_LIMIT
    }
}

/// The page that a frame shows: its index, its rotation, its unrotated size.
#[derive(Clone, Copy, PartialEq, Eq, Structural, Debug)]
pub struct PageView {
    pub page_index: usize,
    pub rotation: i32,
    pub orig_w: i64,
    pub orig_h: i64,
}

impl PageView {
    pub open spec fn wf(self) -> bool {
        in_range(self.orig_w as int) && in_range(self.orig_h as int)
    }

    pub fn is_valid(&self) -> (b: bool)
        ensures
            b == self.wf(),
    {
        -COORD_LIMIT <= self.orig_w && self.orig_w <= COORD_LIMIT && -COORD_LIMIT <= self.orig_h && self.orig_h
            <= COORD_LIMIT
    }
}

/// An axis-parallel box given by its edges; the edges belong to it.
#[derive(Clone, Copy, PartialEq, Eq, Structural, Debug)]
pub struct CanvasBox {
    pub left: i64,
    pub top: i64,
    pub right: i64,
    pub bottom: i64,
}

/// Largest magnitude of an edge of a box that `display_box` gives.
pub const BOX_LIMIT: i64 = 64_000_000_000_000;

impl CanvasBox {
    pub open spec fn wf(self) -> bool {
        &&& -BOX_LIMIT <= self.left <= BOX_LIMIT
        &&& -BOX_LIMIT <= self.top <= BOX_LIMIT
        &&& -BOX_LIMIT <= self.right <= BOX_LIMIT
        &&& -BOX_LIMIT <= self.bottom <= BOX_LIMIT
    }

    pub open spec fn contains_spec(self, p: Point) -> bool {
        &&& self.left <= p.x <= self.right
        &&& self.top <= p.y <= self.bottom
    }

    /// The resize handle: a square of side `HANDLE_SIZE` whose centre is the
    /// bottom-right corner.
    pub open spec fn handle_spec(self) -> CanvasBox {
        CanvasBox {
            left: (self.right - HANDLE_SIZE / 2) as i64,
            top: (self.bottom - HANDLE_SIZE / 2) as i64,
            right: (self.right + HANDLE_SIZE / 2) as i64,
            bottom: (self.bottom + HANDLE_SIZE / 2) as i64,
        }
    }

    pub fn contains(&self, p: Point) -> (b: bool)
        ensures
            b == self.contains_spec(p),
    {
        self.left <= p.x && p.x <= self.right && self.top <= p.y && p.y <= self.bottom
    }

    pub fn handle(&self) -> (r: CanvasBox)
        requires
            self.wf(),
        ensures
            r == self.handle_spec(),
    {
        CanvasBox {
            left: self.right - HANDLE_SIZE / 2,
            top: self.bottom - HANDLE_SIZE / 2,
            right: self.right + HANDLE_SIZE / 2,
            bottom: self.bottom + HANDLE_SIZE / 2,
        }
    }
}

/// Where the canvas shows a box that PDF space holds at `(x, y)` with size
/// `(w, h)`: the corner goes through the rotation and the zoom, the size
/// through the zoom alone.
pub open spec fn display_box_spec(x: int, y: int, w: int, h: int, page: PageView, zoom: Zoom) -> CanvasBox {
    let d = to_display(x, y, w, h, page.orig_w as int, page.orig_h as int, page.rotation as int);
    let left = scale_spec(d.0, zoom);
    let top = scale_spec(d.1, zoom);
    CanvasBox {
        left: left as i64,
        top: top as i64,
        right: (left + scale_spec(w, zoom)) as i64,
        bottom: (top + scale_spec(h, zoom)) as i64,
    }
}

pub fn display_box(x: i64, y: i64, w: i64, h: i64, page: PageView, zoom: Zoom) -> (b: CanvasBox)
    requires
        in_range(x as int),
        in_range(y as int),
        in_range(w as int),
        in_range(h as int),
        page.wf(),
        zoom.wf(),
    ensures
        b == display_box_spec(x as int, y as int, w as int, h as int, page, zoom),
        b.wf(),
{
    let d = pdf_to_display_pos(x, y, w, h, page.orig_w, page.orig_h, page.rotation);
    proof {
        lemma_scale_bounds(d.0 as int, zoom, 3 * COORD_LIMIT);
        lemma_scale_bounds(d.1 as int, zoom, 3 * COORD_LIMIT);
        lemma_scale_bounds(w as int, zoom, COORD_LIMIT as int);
        lemma_scale_bounds(h as int, zoom, COORD_LIMIT as int);
    }
    let left = scale(d.0, zoom);
    let top = scale(d.1, zoom);
    let sw = scale(w, zoom);
    let sh = scale(h, zoom);
    CanvasBox { left, top, right: left + sw, bottom: top + sh }
}

} // verus!
