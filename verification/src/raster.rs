//! The page bitmap cache: for which page, rotation and resolution a bitmap is
//! held, and at which resolution a page is rendered.  The bitmap itself stays
//! with the caller; the zoom never enters the key.

use vstd::prelude::*;
use crate::geometry::in_range;
use crate::geometry::rotated_page_size;
use crate::geometry::rotated_size;
use crate::geometry::PageView;
use crate::geometry::UNITS;

verus! {

/// Longest side of a rendered page, in pixels.
pub const MAX_RENDER_SIDE: i64 = 800;

/// What a cached bitmap was rendered for.
#[derive(Clone, Copy, PartialEq, Eq, Structural, Debug)]
pub struct CacheKey {
    pub page_index: usize,
    pub rotation: i32,
    pub base_width: u32,
    pub base_height: u32,
}

/// Pixel size at which a page of `page_w` by `page_h` thousandths of a
/// point is rendered: one pixel per point where the longer side has at most
/// 800 points, else scaled down so that the longer side has 800 pixels.
/// Fractions of a pixel are dropped and a negative side counts as 0.
pub open spec fn base_render_size_spec(page_w: int, page_h: int) -> (int, int) {
    let w = if page_w < 0 { 0 } else { page_w };
    let h = if page_h < 0 { 0 } else { page_h };
    let longest = if w > h { w } else { h };
    if longest <= MAX_RENDER_SIDE * UNITS {
        (w / UNITS as int, h / UNITS as int)
    } else {
        ((w * MAX_RENDER_SIDE) / longest, (h * MAX_RENDER_SIDE) / longest)
    }
}

pub fn base_render_size(page_w: i64, page_h: i64) -> (r: (u32, u32))
    requires
        in_range(page_w as int),
        in_range(page_h as int),
    ensures
        (r.0 as int, r.1 as int) == base_render_size_spec(page_w as int, page_h as int),
        r.0 <= MAX_RENDER_SIDE,
        r.1 <= MAX_RENDER_SIDE,
{
    let w: i64 = if page_w < 0 { 0 } else { page_w };
    let h: i64 = if page_h < 0 { 0 } else { page_h };
    let longest: i64 = if w > h { w } else { h };
    if longest <= MAX_RENDER_SIDE * UNITS {
        ((w / UNITS) as u32, (h / UNITS) as u32)
    } else {
        assert(0 <= (w * 800) / (longest as int) <= 800 && 0 <= (h * 800) / (longest as int) <= 800) by (nonlinear_arith)
            requires
                0 <= w <= longest,
                0 <= h <= longest,
                longest > 0,
        ;
        (((w * MAX_RENDER_SIDE) / longest) as u32, ((h * MAX_RENDER_SIDE) / longest) as u32)
    }
}

/// Largest size of the proportions `page_w : page_h` that fits into
/// `max_w` by `max_h` pixels; nothing where the page has no area.
pub open spec fn fitted_size_spec(page_w: int, page_h: int, max_w: int, max_h: int) -> (int, int) {
    if page_w <= 0 || page_h <= 0 {
        (0, 0)
    } else if max_w * page_h <= max_h * page_w {
        (max_w, (page_h * max_w) / page_w)
    } else {
        ((page_w * max_h) / page_h, max_h)
    }
}

pub fn fitted_size(page_w: i64, page_h: i64, max_w: u32, max_h: u32) -> (r: (u32, u32))
    requires
        in_range(page_w as int),
        in_range(page_h as int),
    ensures
        (r.0 as int, r.1 as int) == fitted_size_spec(page_w as int, page_h as int, max_w as int, max_h as int),
        r.0 <= max_w,
        r.1 <= max_h,
{
    if page_w <= 0 || page_h <= 0 {
        return (0, 0);
    }
    let mw: i128 = max_w as i128;
    let mh: i128 = max_h as i128;
    let pw: i128 = page_w as i128;
    let ph: i128 = page_h as i128;
    assert(0 <= mw * ph <= 0x1_0000_0000 * 4_000_000_000_000 && 0 <= mh * pw <= 0x1_0000_0000
        * 4_000_000_000_000) by (nonlinear_arith)
        requires
            0 <= mw < 0x1_0000_0000,
            0 <= mh < 0x1_0000_0000,
            0 < pw <= 4_000_000_000_000,
            0 < ph <= 4_000_000_000_000,
    ;
    if mw * ph <= mh * pw {
        assert(0 <= (ph * mw) / (pw as int) <= mh) by (nonlinear_arith)
            requires
                mw * ph <= mh * pw,
                pw > 0,
                ph > 0,
                mw >= 0,
                mh >= 0,
        ;
        assert(ph * mw == mw * ph) by (nonlinear_arith);
        (max_w, ((ph * mw) / pw) as u32)
    } else {
        assert(0 <= (pw * mh) / (ph as int) <= mw) by (nonlinear_arith)
            requires
                mw * ph > mh * pw,
                pw > 0,
                ph > 0,
                mw >= 0,
                mh >= 0,
        ;
        assert(pw * mh == mh * pw) by (nonlinear_arith);
        (((pw * mh) / ph) as u32, max_h)
    }
}

/// The key under which the bitmap of `page` is cached.
pub open spec fn cache_key_spec(page: PageView) -> CacheKey {
    let size = rotated_size(page.orig_w as int, page.orig_h as int, page.rotation as int);
    let base = base_render_size_spec(size.0, size.1);
    CacheKey {
        page_index: page.page_index,
        rotation: page.rotation,
        base_width: base.0 as u32,
        base_height: base.1 as u32,
    }
}

pub fn cache_key(page: PageView) -> (k: CacheKey)
    requires
        page.wf(),
    ensures
        k == cache_key_spec(page),
{
    let size = rotated_page_size(page.orig_w, page.orig_h, page.rotation);
    let base = base_render_size(size.0, size.1);
    CacheKey { page_index: page.page_index, rotation: page.rotation, base_width: base.0, base_height: base.1 }
}

/// Which bitmap the caller holds, if any.
#[derive(Clone, Copy, PartialEq, Eq, Structural, Debug)]
pub struct RasterCache {
    pub key: Option<CacheKey>,
    pub loaded: bool,
}

impl RasterCache {
    /// A cache that holds nothing.
    pub fn new() -> (c: RasterCache)
        ensures
            c.key is None,
            !c.loaded,
    {
        RasterCache { key: None, loaded: false }
    }

    /// Turns the cache to `key`.  A bitmap that was rendered for another key
    /// is dropped.  Returns whether the key changed.
    pub fn retarget(&mut self, key: CacheKey) -> (changed: bool)
        ensures
            changed == (old(self).key != Some(key)),
            final(self).key == Some(key),
            final(self).loaded == (old(self).loaded && !changed),
    {
        let same = match self.key {
            Some(k) => k == key,
            None => false,
        };
        if !same {
            self.key = Some(key);
            self.loaded = false;
        }
        !same
    }

    /// Whether a bitmap has to be asked for.
    pub fn needs_render(&self) -> (b: bool)
        ensures
            b == !self.loaded,
    {
        !self.loaded
    }

    /// Records what the rendering service answered: a bitmap, or none.
    pub fn rendered(&mut self, got_bitmap: bool)
        ensures
            final(self).key == old(self).key,
            final(self).loaded == (old(self).loaded || (got_bitmap && old(self).key is Some)),
    {
        if got_bitmap && self.key.is_some() {
            self.loaded = true;
        }
    }

    /// Drops the bitmap; the next frame asks for a new one.
    pub fn invalidate(&mut self)
        ensures
            final(self).key == old(self).key,
            !final(self).loaded,
    {
        self.loaded = false;
    }
}

} // verus!
