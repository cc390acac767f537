//! The editor panel: one selection, one mode, the tool settings and the page
//! bitmap cache.  Every command and every pointer event is one method; it
//! moves the panel to its next state and hands back at most one intent.

use vstd::prelude::*;
use crate::annotation::CustomStamp;
use crate::annotation::FontType;
use crate::annotation::RectAnnotation;
use crate::annotation::Stamp;
use crate::annotation::StampType;
use crate::annotation::TextAnnotation;
use crate::annotation::CUSTOM_STAMP_SIDE;
use crate::annotation::FONT_LIMIT;
use crate::annotation::STAMP_HEIGHT;
use crate::annotation::STAMP_WIDTH;
use crate::annotation::TEXT_LIMIT;
use crate::geometry::clamp;
use crate::geometry::clamp_coord;
use crate::geometry::clamp_coord_spec;
use crate::geometry::clamp_spec;
use crate::geometry::display_to_pdf;
use crate::geometry::in_range;
use crate::geometry::lemma_pdf_round_trip;
use crate::geometry::to_display;
use crate::geometry::lemma_scale_bounds;
use crate::geometry::rotated_page_size;
use crate::geometry::rotated_size;
use crate::geometry::scale;
use crate::geometry::scale_spec;
use crate::geometry::to_pdf;
use crate::geometry::unscale;
use crate::geometry::unscale_spec;
use crate::geometry::CanvasBox;
use crate::geometry::PageView;
use crate::geometry::Point;
use crate::geometry::Zoom;
use crate::geometry::COORD_LIMIT;
use crate::hit_test::hit_test;
use crate::hit_test::is_hit;
use crate::hit_test::rect_box;
use crate::hit_test::rect_box_spec;
use crate::hit_test::rects_wf;
use crate::hit_test::stamp_box;
use crate::hit_test::stamp_box_spec;
use crate::hit_test::stamps_wf;
use crate::hit_test::text_box;
use crate::hit_test::text_box_spec;
use crate::hit_test::texts_wf;
use crate::hit_test::Selection;
use crate::intent::Intent;
use crate::raster::cache_key;
use crate::raster::cache_key_spec;
use crate::raster::RasterCache;
use crate::text_metrics::text_extent;
use crate::text_metrics::text_height_spec;
use crate::text_metrics::text_width_spec;

verus! {

/// Smallest side that a resize leaves a stamp: 20 pt.
pub const STAMP_MIN_SIZE: i64 = 20_000;

/// Smallest side that a resize leaves a rectangle: 10 pt.
pub const RECT_MIN_SIZE: i64 = 10_000;

/// A drawn rectangle is kept where both of its sides, as dragged on the
/// canvas, exceed this: 5 px.
pub const NEW_RECT_THRESHOLD: i64 = 5_000;

/// Smallest font size that the panel sets: 8 pt.
pub const FONT_MIN: i64 = 8_000;

/// Largest font size that the panel sets: 72 pt.
pub const FONT_MAX: i64 = 72_000;

/// Font size of a new panel: 24 pt.
pub const DEFAULT_FONT_SIZE: i64 = 24_000;

/// Largest magnitude of the pointer offset that a drag keeps.
pub const OFFSET_LIMIT: i64 = 68_000_000_000_000;

/// The corner by which an annotation is resized.
#[derive(Clone, Copy, PartialEq, Eq, Structural, Debug)]
pub enum ResizeCorner {
    Unset,
    BottomRight,
}

impl Default for ResizeCorner {
    fn default() -> (r: ResizeCorner)
        ensures
            r == ResizeCorner::Unset,
    {
        ResizeCorner::Unset
    }
}

/// What a drag does to its target.
#[derive(Clone, Copy, PartialEq, Eq, Structural, Debug)]
pub enum DragKind {
    Move,
    Resize,
}

/// What the panel is doing.  The placement modes exclude one another and
/// every other mode by being variants of one value.
#[derive(Clone, Copy, PartialEq, Eq, Debug)]
pub enum Mode {
    Idle,
    /// The next click puts a stamp under the pointer.
    PlacingStamp,
    /// The next click puts the text of the input buffer at the pointer.
    PlacingText,
    /// A drag draws a rectangle; `anchor` is where the drag began.
    PlacingRect { anchor: Option<Point> },
    /// The pointer holds `target`; `offset` leads from the corner that the
    /// drag follows to the pointer.
    Dragging { target: Selection, kind: DragKind, offset: Point },
    /// The input buffer holds the text of the text at index `target`.
    EditingText { target: usize },
}

/// The state of the editor between two frames.  It holds no annotation:
/// the lists are handed to each call that needs them.
pub struct EditorPanel {
    pub cache: RasterCache,
    pub zoom: Zoom,
    pub selected_stamp_type: StampType,
    pub selected_custom_stamp_index: Option<usize>,
    pub text_input: String,
    pub text_font_size: i64,
    pub text_font_type: FontType,
    pub text_transparent: bool,
    pub mode: Mode,
    pub selection: Selection,
}

/// Mode after anything that ends a drag or an edit: those go back to idle,
/// a placement mode stays.
pub open spec fn settled(mode: Mode) -> Mode {
    match mode {
        Mode::Dragging { .. } => Mode::Idle,
        Mode::EditingText { .. } => Mode::Idle,
        _ => mode,
    }
}

/// Size of the stamp that a click places: for a custom image its own
/// proportions with the longer side at 100 pt, else the built-in size.
pub open spec fn placement_size_spec(custom: Option<(u32, u32)>) -> (int, int) {
    match custom {
        Some((w, h)) => {
            let longest = if w > h { w } else { h };
            if longest == 0 {
                (STAMP_WIDTH as int, STAMP_HEIGHT as int)
            } else {
                ((w * CUSTOM_STAMP_SIDE) / longest as int, (h * CUSTOM_STAMP_SIDE) / longest as int)
            }
        },
        None => (STAMP_WIDTH as int, STAMP_HEIGHT as int),
    }
}

/// Pixel size of the custom image that is selected, if one is.
pub open spec fn selected_custom_size(index: Option<usize>, custom_stamps: Seq<CustomStamp>) -> Option<(u32, u32)> {
    match index {
        Some(i) => if i < custom_stamps.len() {
            Some((custom_stamps[i as int].width, custom_stamps[i as int].height))
        } else {
            None
        },
        None => None,
    }
}

pub fn placement_size(custom: Option<(u32, u32)>) -> (r: (i64, i64))
    ensures
        (r.0 as int, r.1 as int) == placement_size_spec(custom),
        0 <= r.0 <= CUSTOM_STAMP_SIDE,
        0 <= r.1 <= CUSTOM_STAMP_SIDE,
{
    match custom {
        Some((w, h)) => {
            let longest: u32 = if w > h { w } else { h };
            if longest == 0 {
                (STAMP_WIDTH, STAMP_HEIGHT)
            } else {
                let wl: i64 = w as i64;
                let hl: i64 = h as i64;
                let ll: i64 = longest as i64;
                assert(0 <= (wl * 100_000) / (ll as int) <= 100_000 && 0 <= (hl * 100_000) / (ll as int) <= 100_000)
                    by (nonlinear_arith)
                    requires
                        0 <= wl <= ll,
                        0 <= hl <= ll,
                        ll > 0,
                ;
                ((wl * CUSTOM_STAMP_SIDE) / ll, (hl * CUSTOM_STAMP_SIDE) / ll)
            }
        },
        None => (STAMP_WIDTH, STAMP_HEIGHT),
    }
}

/// The stamp that a click at `p` places: `p` is its centre.
pub open spec fn placed_stamp(p: Point, page: PageView, zoom: Zoom, size: (int, int), kind: StampType) -> Stamp {
    let dx = unscale_spec(p.x as int, zoom) - size.0 / 2;
    let dy = unscale_spec(p.y as int, zoom) - size.1 / 2;
    let pos = to_pdf(dx, dy, size.0, size.1, page.orig_w as int, page.orig_h as int, page.rotation as int);
    Stamp {
        page: page.page_index,
        x: clamp_coord_spec(pos.0) as i64,
        y: clamp_coord_spec(pos.1) as i64,
        width: size.0 as i64,
        height: size.1 as i64,
        stamp_type: kind,
    }
}

/// The text that a click at `p` places: `p` is its top-left corner.
pub open spec fn placed_text(
    p: Point,
    page: PageView,
    zoom: Zoom,
    text: String,
    font_size: i64,
    font_type: FontType,
    transparent: bool,
) -> TextAnnotation {
    let pos = to_pdf(
        unscale_spec(p.x as int, zoom),
        unscale_spec(p.y as int, zoom),
        text_width_spec(text@, font_size as int),
        text_height_spec(text@, font_size as int),
        page.orig_w as int,
        page.orig_h as int,
        page.rotation as int,
    );
    TextAnnotation {
        page: page.page_index,
        x: clamp_coord_spec(pos.0) as i64,
        y: clamp_coord_spec(pos.1) as i64,
        text: text,
        font_size: font_size,
        font_type: font_type,
        transparent: transparent,
    }
}

/// Whether a drag from `a` to `p` is large enough to draw a rectangle: both
/// distances on the canvas, whatever the zoom, exceed the threshold.
pub open spec fn drag_is_large(a: Point, p: Point) -> bool {
    let dx = if a.x < p.x { p.x - a.x } else { a.x - p.x };
    let dy = if a.y < p.y { p.y - a.y } else { a.y - p.y };
    dx > NEW_RECT_THRESHOLD && dy > NEW_RECT_THRESHOLD
}

/// The rectangle that a drag from `a` to `p` draws, where the drag is large
/// enough.  Its sides are the dragged distances brought back through the
/// zoom, its corner the top-left corner of the drag.
pub open spec fn drawn_rect(a: Point, p: Point, page: PageView, zoom: Zoom) -> Option<RectAnnotation> {
    let min_x = if a.x < p.x { a.x } else { p.x };
    let min_y = if a.y < p.y { a.y } else { p.y };
    let max_x = if a.x < p.x { p.x } else { a.x };
    let max_y = if a.y < p.y { p.y } else { a.y };
    if drag_is_large(a, p) {
        let cw = clamp_coord_spec(unscale_spec(max_x - min_x, zoom));
        let ch = clamp_coord_spec(unscale_spec(max_y - min_y, zoom));
        let pos = to_pdf(
            unscale_spec(min_x as int, zoom),
            unscale_spec(min_y as int, zoom),
            cw,
            ch,
            page.orig_w as int,
            page.orig_h as int,
            page.rotation as int,
        );
        Some(
            RectAnnotation {
                page: page.page_index,
                x: clamp_coord_spec(pos.0) as i64,
                y: clamp_coord_spec(pos.1) as i64,
                width: cw as i64,
                height: ch as i64,
                color: [255u8, 255u8, 255u8, 255u8],
            },
        )
    } else {
        None
    }
}

/// Where a move that ends at `p` puts the corner of a box of size
/// `(w, h)`.
pub open spec fn moved_position(p: Point, offset: Point, w: int, h: int, page: PageView, zoom: Zoom) -> (int, int) {
    let dx = unscale_spec(p.x - offset.x, zoom);
    let dy = unscale_spec(p.y - offset.y, zoom);
    let pos = to_pdf(dx, dy, w, h, page.orig_w as int, page.orig_h as int, page.rotation as int);
    (clamp_coord_spec(pos.0), clamp_coord_spec(pos.1))
}

/// Width and height that a resize which ends at `p` asks for, before any
/// floor: from the top-left corner of `b` to the corner that the pointer
/// holds.
pub open spec fn resized_extent(p: Point, offset: Point, b: CanvasBox, zoom: Zoom) -> (int, int) {
    (unscale_spec(p.x - offset.x - b.left, zoom), unscale_spec(p.y - offset.y - b.top, zoom))
}

/// A moved box is shown where the pointer let go of it: as long as the new
/// corner can be stored, its display position is the pointer's position
/// less the offset, brought back through the zoom.
pub proof fn lemma_move_lands_under_pointer(p: Point, offset: Point, w: int, h: int, page: PageView, zoom: Zoom)
    requires
        ({
            let pos = to_pdf(
                unscale_spec(p.x - offset.x, zoom),
                unscale_spec(p.y - offset.y, zoom),
                w,
                h,
                page.orig_w as int,
                page.orig_h as int,
                page.rotation as int,
            );
            in_range(pos.0) && in_range(pos.1)
        }),
    ensures
        ({
            let m = moved_position(p, offset, w, h, page, zoom);
            to_display(m.0, m.1, w, h, page.orig_w as int, page.orig_h as int, page.rotation as int) == (
                unscale_spec(p.x - offset.x, zoom),
                unscale_spec(p.y - offset.y, zoom),
            )
        }),
{
    lemma_pdf_round_trip(
        unscale_spec(p.x - offset.x, zoom),
        unscale_spec(p.y - offset.y, zoom),
        w,
        h,
        page.orig_w as int,
        page.orig_h as int,
        page.rotation as int,
    );
}

/// A placed stamp is shown around the click: as long as its corner can be
/// stored, its display position is the click less half its size.
pub proof fn lemma_stamp_is_centred(p: Point, page: PageView, zoom: Zoom, size: (int, int), kind: StampType)
    requires
        in_range(size.0),
        in_range(size.1),
        ({
            let pos = to_pdf(
                unscale_spec(p.x as int, zoom) - size.0 / 2,
                unscale_spec(p.y as int, zoom) - size.1 / 2,
                size.0,
                size.1,
                page.orig_w as int,
                page.orig_h as int,
                page.rotation as int,
            );
            in_range(pos.0) && in_range(pos.1)
        }),
    ensures
        ({
            let s = placed_stamp(p, page, zoom, size, kind);
            to_display(
                s.x as int,
                s.y as int,
                s.width as int,
                s.height as int,
                page.orig_w as int,
                page.orig_h as int,
                page.rotation as int,
            ) == (unscale_spec(p.x as int, zoom) - size.0 / 2, unscale_spec(p.y as int, zoom) - size.1 / 2)
        }),
{
    lemma_pdf_round_trip(
        unscale_spec(p.x as int, zoom) - size.0 / 2,
        unscale_spec(p.y as int, zoom) - size.1 / 2,
        size.0,
        size.1,
        page.orig_w as int,
        page.orig_h as int,
        page.rotation as int,
    );
}

/// A side of a resized stamp: never under 20 pt.
pub open spec fn stamp_side(raw: int) -> int {
    clamp_spec(raw, STAMP_MIN_SIZE as int, COORD_LIMIT as int)
}

/// A side of a resized rectangle: never under 10 pt.
pub open spec fn rect_side(raw: int) -> int {
    clamp_spec(raw, RECT_MIN_SIZE as int, COORD_LIMIT as int)
}

/// The font size of a resized text: between 8 pt and 72 pt.
pub open spec fn resized_font(raw: int) -> int {
    clamp_spec(raw, FONT_MIN as int, FONT_MAX as int)
}

/// The larger of two lengths.
pub open spec fn larger(a: int, b: int) -> int {
    if a > b {
        a
    } else {
        b
    }
}

/// A resize never leaves a side under its floor, and a side that the drag
/// would take under the floor sits on it.  A side that can be stored is the
/// larger of what the drag asks for and the floor; one that cannot sits on
/// the largest size that can.
pub proof fn lemma_resize_floor(raw: int)
    ensures
        stamp_side(raw) >= STAMP_MIN_SIZE,
        raw < STAMP_MIN_SIZE ==> stamp_side(raw) == STAMP_MIN_SIZE,
        raw <= COORD_LIMIT ==> stamp_side(raw) == larger(raw, STAMP_MIN_SIZE as int),
        raw > COORD_LIMIT ==> stamp_side(raw) == COORD_LIMIT,
        rect_side(raw) >= RECT_MIN_SIZE,
        raw < RECT_MIN_SIZE ==> rect_side(raw) == RECT_MIN_SIZE,
        raw <= COORD_LIMIT ==> rect_side(raw) == larger(raw, RECT_MIN_SIZE as int),
        raw > COORD_LIMIT ==> rect_side(raw) == COORD_LIMIT,
        FONT_MIN <= resized_font(raw) <= FONT_MAX,
        FONT_MIN <= raw <= FONT_MAX ==> resized_font(raw) == raw,
{
}

/// What a resize drag that ends at `p` asks for, whatever the pointer, the
/// page and the zoom: the stamp or rectangle that the drag holds, with each
/// side as `lemma_resize_floor` says of what the drag asks for.  A stamp
/// never gets a side under 20 pt, a rectangle never one under 10 pt, and a
/// side that the drag would take under its floor is exactly the floor.
pub proof fn lemma_resize_drag_keeps_floor(
    target: Selection,
    offset: Point,
    p: Point,
    page: PageView,
    zoom: Zoom,
    stamps: Seq<Stamp>,
    texts: Seq<TextAnnotation>,
    rects: Seq<RectAnnotation>,
)
    ensures
        ({
            let mode = Mode::Dragging { target: target, kind: DragKind::Resize, offset: offset };
            let intent = drag_end_intent(mode, p, page, zoom, stamps, texts, rects);
            match target {
                Selection::Stamp(i) => if i < stamps.len() {
                    let raw = resized_extent(p, offset, stamp_box_spec(stamps[i as int], page, zoom), zoom);
                    &&& intent is Some
                    &&& intent->0 is ResizeStamp
                    &&& intent->0->ResizeStamp_0 == i
                    &&& intent->0->ResizeStamp_1 >= STAMP_MIN_SIZE
                    &&& intent->0->ResizeStamp_2 >= STAMP_MIN_SIZE
                    &&& raw.0 < STAMP_MIN_SIZE ==> intent->0->ResizeStamp_1 == STAMP_MIN_SIZE
                    &&& raw.1 < STAMP_MIN_SIZE ==> intent->0->ResizeStamp_2 == STAMP_MIN_SIZE
                    &&& raw.0 <= COORD_LIMIT ==> intent->0->ResizeStamp_1 == larger(raw.0, STAMP_MIN_SIZE as int)
                    &&& raw.1 <= COORD_LIMIT ==> intent->0->ResizeStamp_2 == larger(raw.1, STAMP_MIN_SIZE as int)
                } else {
                    intent is None
                },
                Selection::Rect(i) => if i < rects.len() {
                    let raw = resized_extent(p, offset, rect_box_spec(rects[i as int], page, zoom), zoom);
                    &&& intent is Some
                    &&& intent->0 is ResizeRect
                    &&& intent->0->ResizeRect_0 == i
                    &&& intent->0->ResizeRect_1 >= RECT_MIN_SIZE
                    &&& intent->0->ResizeRect_2 >= RECT_MIN_SIZE
                    &&& raw.0 < RECT_MIN_SIZE ==> intent->0->ResizeRect_1 == RECT_MIN_SIZE
                    &&& raw.1 < RECT_MIN_SIZE ==> intent->0->ResizeRect_2 == RECT_MIN_SIZE
                    &&& raw.0 <= COORD_LIMIT ==> intent->0->ResizeRect_1 == larger(raw.0, RECT_MIN_SIZE as int)
                    &&& raw.1 <= COORD_LIMIT ==> intent->0->ResizeRect_2 == larger(raw.1, RECT_MIN_SIZE as int)
                } else {
                    intent is None
                },
                Selection::Text(i) => if i < texts.len() {
                    &&& intent is Some
                    &&& intent->0 is ResizeText
                    &&& intent->0->ResizeText_0 == i
                    &&& FONT_MIN <= intent->0->ResizeText_1 <= FONT_MAX
                } else {
                    intent is None
                },
                Selection::Nothing => intent is None,
            }
        }),
{
}

/// What a drag that begins at `p` on a selected box does: it resizes where
/// `p` is on the handle, moves where `p` is elsewhere on the box, and
/// does not begin where `p` is off both.
pub open spec fn grab(b: CanvasBox, p: Point, target: Selection) -> Mode {
    if b.handle_spec().contains_spec(p) {
        Mode::Dragging {
            target: target,
            kind: DragKind::Resize,
            offset: Point { x: (p.x - b.right) as i64, y: (p.y - b.bottom) as i64 },
        }
    } else if b.contains_spec(p) {
        Mode::Dragging {
            target: target,
            kind: DragKind::Move,
            offset: Point { x: (p.x - b.left) as i64, y: (p.y - b.top) as i64 },
        }
    } else {
        Mode::Idle
    }
}

/// Box of the selected annotation; none where nothing is selected or the
/// index is past the end of its list.
pub open spec fn selected_box_spec(
    sel: Selection,
    page: PageView,
    zoom: Zoom,
    stamps: Seq<Stamp>,
    texts: Seq<TextAnnotation>,
    rects: Seq<RectAnnotation>,
) -> Option<CanvasBox> {
    match sel {
        Selection::Stamp(i) => if i < stamps.len() {
            Some(stamp_box_spec(stamps[i as int], page, zoom))
        } else {
            None
        },
        Selection::Text(i) => if i < texts.len() {
            Some(text_box_spec(texts[i as int], page, zoom))
        } else {
            None
        },
        Selection::Rect(i) => if i < rects.len() {
            Some(rect_box_spec(rects[i as int], page, zoom))
        } else {
            None
        },
        Selection::Nothing => None,
    }
}

/// Whether `p` is on the canvas of `page`.
pub open spec fn on_canvas(p: Point, page: PageView, zoom: Zoom) -> bool {
    let size = rotated_size(page.orig_w as int, page.orig_h as int, page.rotation as int);
    0 <= p.x <= scale_spec(size.0, zoom) && 0 <= p.y <= scale_spec(size.1, zoom)
}

/// Mode after a click off the canvas: what was being placed or dragged is
/// given up, anything else stays.
pub open spec fn click_outside_mode(mode: Mode) -> Mode {
    match mode {
        Mode::PlacingStamp => Mode::Idle,
        Mode::PlacingText => Mode::Idle,
        Mode::PlacingRect { .. } => Mode::Idle,
        Mode::Dragging { .. } => Mode::Idle,
        _ => mode,
    }
}

/// Mode after a drag begins at `p`.
pub open spec fn drag_start_mode(
    mode: Mode,
    sel: Selection,
    p: Point,
    page: PageView,
    zoom: Zoom,
    stamps: Seq<Stamp>,
    texts: Seq<TextAnnotation>,
    rects: Seq<RectAnnotation>,
) -> Mode {
    match mode {
        Mode::Idle => match selected_box_spec(sel, page, zoom, stamps, texts, rects) {
            Some(b) => grab(b, p, sel),
            None => Mode::Idle,
        },
        Mode::PlacingRect { anchor } => if on_canvas(p, page, zoom) {
            Mode::PlacingRect { anchor: Some(p) }
        } else {
            mode
        },
        _ => mode,
    }
}

/// A drag takes hold of nothing but the selected annotation, and only on an
/// idle panel; on the handle it resizes, whether or not the handle lies on
/// the body.
pub proof fn lemma_drag_holds_the_selection(
    mode: Mode,
    sel: Selection,
    p: Point,
    page: PageView,
    zoom: Zoom,
    stamps: Seq<Stamp>,
    texts: Seq<TextAnnotation>,
    rects: Seq<RectAnnotation>,
)
    ensures
        ({
            let next = drag_start_mode(mode, sel, p, page, zoom, stamps, texts, rects);
            let b = selected_box_spec(sel, page, zoom, stamps, texts, rects);
            &&& next is Dragging && !(mode is Dragging) ==> {
                &&& mode == Mode::Idle
                &&& sel != Selection::Nothing
                &&& next->Dragging_target == sel
                &&& b is Some
            }
            &&& mode == Mode::Idle && b is Some && b->0.handle_spec().contains_spec(p) ==> next is Dragging
                && next->Dragging_kind == DragKind::Resize
            &&& mode == Mode::Idle && sel == Selection::Nothing ==> next == Mode::Idle
        }),
{
}

/// The rectangle that is being drawn, as the canvas shows it while the
/// pointer is at `p`: the box between the anchor and `p`.
pub open spec fn preview_box_spec(mode: Mode, p: Point) -> Option<CanvasBox> {
    match mode {
        Mode::PlacingRect { anchor: Some(a) } => Some(
            CanvasBox {
                left: if a.x < p.x { a.x } else { p.x },
                top: if a.y < p.y { a.y } else { p.y },
                right: if a.x < p.x { p.x } else { a.x },
                bottom: if a.y < p.y { p.y } else { a.y },
            },
        ),
        _ => None,
    }
}

/// Mode after a drag ends.
pub open spec fn drag_end_mode(mode: Mode) -> Mode {
    match mode {
        Mode::Dragging { .. } => Mode::Idle,
        Mode::PlacingRect { .. } => Mode::PlacingRect { anchor: None },
        _ => mode,
    }
}

/// What a drag that ends at `p` asks for.
pub open spec fn drag_end_intent(
    mode: Mode,
    p: Point,
    page: PageView,
    zoom: Zoom,
    stamps: Seq<Stamp>,
    texts: Seq<TextAnnotation>,
    rects: Seq<RectAnnotation>,
) -> Option<Intent> {
    match mode {
        Mode::Dragging { target, kind, offset } => match target {
            Selection::Stamp(i) => if i < stamps.len() {
                let s = stamps[i as int];
                match kind {
                    DragKind::Move => {
                        let pos = moved_position(p, offset, s.width as int, s.height as int, page, zoom);
                        Some(Intent::MoveStamp(i, pos.0 as i64, pos.1 as i64))
                    },
                    DragKind::Resize => {
                        let e = resized_extent(p, offset, stamp_box_spec(s, page, zoom), zoom);
                        Some(Intent::ResizeStamp(i, stamp_side(e.0) as i64, stamp_side(e.1) as i64))
                    },
                }
            } else {
                None
            },
            Selection::Text(i) => if i < texts.len() {
                let t = texts[i as int];
                match kind {
                    DragKind::Move => {
                        let pos = moved_position(
                            p,
                            offset,
                            text_width_spec(t.text@, t.font_size as int),
                            text_height_spec(t.text@, t.font_size as int),
                            page,
                            zoom,
                        );
                        Some(Intent::MoveText(i, pos.0 as i64, pos.1 as i64))
                    },
                    DragKind::Resize => {
                        let e = resized_extent(p, offset, text_box_spec(t, page, zoom), zoom);
                        Some(Intent::ResizeText(i, resized_font(e.1) as i64))
                    },
                }
            } else {
                None
            },
            Selection::Rect(i) => if i < rects.len() {
                let r = rects[i as int];
                match kind {
                    DragKind::Move => {
                        let pos = moved_position(p, offset, r.width as int, r.height as int, page, zoom);
                        Some(Intent::MoveRect(i, pos.0 as i64, pos.1 as i64))
                    },
                    DragKind::Resize => {
                        let e = resized_extent(p, offset, rect_box_spec(r, page, zoom), zoom);
                        Some(Intent::ResizeRect(i, rect_side(e.0) as i64, rect_side(e.1) as i64))
                    },
                }
            } else {
                None
            },
            Selection::Nothing => None,
        },
        Mode::PlacingRect { anchor: Some(a) } => match drawn_rect(a, p, page, zoom) {
            Some(r) => Some(Intent::NewRect(r)),
            None => None,
        },
        _ => None,
    }
}

/// Mode after a click that selected `hit`: an edit follows the selection to
/// another text and ends where no text is selected.
pub open spec fn click_mode(mode: Mode, hit: Selection) -> Mode {
    match mode {
        Mode::EditingText { .. } => match hit {
            Selection::Text(j) => Mode::EditingText { target: j },
            _ => Mode::Idle,
        },
        _ => mode,
    }
}

impl EditorPanel {
    pub open spec fn wf(self) -> bool {
        &&& self.zoom.wf()
        &&& 0 <= self.text_font_size <= FONT_LIMIT
        &&& self.text_input@.len() <= TEXT_LIMIT
        &&& match self.mode {
            Mode::Idle => true,
            Mode::PlacingStamp => self.selection == Selection::Nothing,
            Mode::PlacingText => self.selection == Selection::Nothing,
            Mode::PlacingRect { anchor } => {
                &&& self.selection == Selection::Nothing
                &&& anchor is Some ==> anchor->0.wf()
            },
            Mode::Dragging { target, kind, offset } => {
                &&& target == self.selection
                &&& target != Selection::Nothing
                &&& -OFFSET_LIMIT <= offset.x <= OFFSET_LIMIT
                &&& -OFFSET_LIMIT <= offset.y <= OFFSET_LIMIT
            },
            Mode::EditingText { target } => self.selection == Selection::Text(target),
        }
    }

    /// Whether the panel is well formed.
    pub fn is_valid(&self) -> (b: bool)
        ensures
            b == self.wf(),
    {
        if !self.zoom.is_valid() {
            return false;
        }
        if self.text_font_size < 0 || self.text_font_size > FONT_LIMIT {
            return false;
        }
        if self.text_input.as_str().unicode_len() > TEXT_LIMIT {
            return false;
        }
        let nothing = match self.selection {
            Selection::Nothing => true,
            _ => false,
        };
        match self.mode {
            Mode::Idle => true,
            Mode::PlacingStamp => nothing,
            Mode::PlacingText => nothing,
            Mode::PlacingRect { anchor } => nothing && match anchor {
                Some(a) => a.is_valid(),
                None => true,
            },
            Mode::Dragging { target, kind, offset } => {
                target == self.selection && !nothing && -OFFSET_LIMIT <= offset.x && offset.x <= OFFSET_LIMIT
                    && -OFFSET_LIMIT <= offset.y && offset.y <= OFFSET_LIMIT
            },
            Mode::EditingText { target } => match self.selection {
                Selection::Text(i) => i == target,
                _ => false,
            },
        }
    }

    pub open spec fn is_placing_stamp(self) -> bool {
        self.mode == Mode::PlacingStamp
    }

    pub open spec fn is_placing_text(self) -> bool {
        self.mode == Mode::PlacingText
    }

    pub open spec fn is_placing_rect(self) -> bool {
        self.mode is PlacingRect
    }

    /// No two placement modes are ever active together, and while one is
    /// active nothing is selected.
    pub proof fn lemma_placement_exclusive(self)
        requires
            self.wf(),
        ensures
            !(self.is_placing_stamp() && self.is_placing_text()),
            !(self.is_placing_stamp() && self.is_placing_rect()),
            !(self.is_placing_text() && self.is_placing_rect()),
            self.is_placing_stamp() || self.is_placing_text() || self.is_placing_rect() ==> self.selection
                == Selection::Nothing,
    {
    }

    /// An idle panel at 100 % with nothing selected and nothing cached.
    pub fn new() -> (e: EditorPanel)
        ensures
            e.wf(),
            e.mode == Mode::Idle,
            e.selection == Selection::Nothing,
            e.zoom == Zoom::unit(),
            e.cache.key is None,
            !e.cache.loaded,
            e.selected_stamp_type == StampType::Approved,
            e.selected_custom_stamp_index is None,
            e.text_input@ == Seq::<char>::empty(),
            e.text_font_size == DEFAULT_FONT_SIZE,
            e.text_font_type == FontType::Gothic,
            e.text_transparent,
    {
        EditorPanel {
            cache: RasterCache::new(),
            zoom: Zoom::unit(),
            selected_stamp_type: StampType::Approved,
            selected_custom_stamp_index: None,
            text_input: String::new(),
            text_font_size: DEFAULT_FONT_SIZE,
            text_font_type: FontType::Gothic,
            text_transparent: true,
            mode: Mode::Idle,
            selection: Selection::Nothing,
        }
    }

    pub fn zoom_in(&mut self)
        requires
            old(self).wf(),
        ensures
            final(self).wf(),
            *final(self) == (EditorPanel { zoom: old(self).zoom.stepped_in(), ..*old(self) }),
    {
        self.zoom = self.zoom.stepped_in();
    }

    pub fn zoom_out(&mut self)
        requires
            old(self).wf(),
        ensures
            final(self).wf(),
            *final(self) == (EditorPanel { zoom: old(self).zoom.stepped_out(), ..*old(self) }),
    {
        self.zoom = self.zoom.stepped_out();
    }

    pub fn zoom_reset(&mut self)
        requires
            old(self).wf(),
        ensures
            final(self).wf(),
            *final(self) == (EditorPanel { zoom: Zoom::unit(), ..*old(self) }),
    {
        self.zoom = Zoom::unit();
    }

    /// Turns stamp placement on, or off where it is on.  Whatever else was
    /// going on ends and nothing stays selected.
    pub fn toggle_placing_stamp(&mut self)
        requires
            old(self).wf(),
        ensures
            final(self).wf(),
            *final(self) == (EditorPanel {
                mode: if old(self).mode == Mode::PlacingStamp { Mode::Idle } else { Mode::PlacingStamp },
                selection: Selection::Nothing,
                ..*old(self)
            }),
    {
        let was = match self.mode {
            Mode::PlacingStamp => true,
            _ => false,
        };
        self.mode = if was { Mode::Idle } else { Mode::PlacingStamp };
        self.selection = Selection::Nothing;
    }

    /// Turns text placement on, or off where it is on; with an empty input
    /// buffer nothing happens.
    pub fn toggle_placing_text(&mut self)
        requires
            old(self).wf(),
        ensures
            final(self).wf(),
            old(self).text_input@.len() == 0 ==> *final(self) == *old(self),
            old(self).text_input@.len() > 0 ==> *final(self) == (EditorPanel {
                mode: if old(self).mode == Mode::PlacingText { Mode::Idle } else { Mode::PlacingText },
                selection: Selection::Nothing,
                ..*old(self)
            }),
    {
        if self.text_input.as_str().unicode_len() == 0 {
            return ;
        }
        let was = match self.mode {
            Mode::PlacingText => true,
            _ => false,
        };
        self.mode = if was { Mode::Idle } else { Mode::PlacingText };
        self.selection = Selection::Nothing;
    }

    /// Turns rectangle placement on, or off where it is on.
    pub fn toggle_placing_rect(&mut self)
        requires
            old(self).wf(),
        ensures
            final(self).wf(),
            *final(self) == (EditorPanel {
                mode: if old(self).mode is PlacingRect { Mode::Idle } else { Mode::PlacingRect { anchor: None } },
                selection: Selection::Nothing,
                ..*old(self)
            }),
    {
        let was = match self.mode {
            Mode::PlacingRect { .. } => true,
            _ => false,
        };
        self.mode = if was { Mode::Idle } else { Mode::PlacingRect { anchor: None } };
        self.selection = Selection::Nothing;
    }

    /// Picks a built-in stamp kind for placement.
    pub fn select_builtin_stamp(&mut self, kind: StampType)
        requires
            old(self).wf(),
        ensures
            final(self).wf(),
            *final(self) == (EditorPanel {
                selected_stamp_type: kind,
                selected_custom_stamp_index: None,
                ..*old(self)
            }),
    {
        self.selected_stamp_type = kind;
        self.selected_custom_stamp_index = None;
    }

    /// Picks the custom stamp at `index`, whose name is `name`, for
    /// placement.
    pub fn select_custom_stamp(&mut self, index: usize, name: String)
        requires
            old(self).wf(),
        ensures
            final(self).wf(),
            *final(self) == (EditorPanel {
                selected_stamp_type: StampType::Custom(name),
                selected_custom_stamp_index: Some(index),
                ..*old(self)
            }),
    {
        self.selected_stamp_type = StampType::Custom(name);
        self.selected_custom_stamp_index = Some(index);
    }

    /// Asks for the custom stamp at `index` to be removed.  Where it was the
    /// one picked for placement, the first built-in kind takes its place.
    pub fn remove_custom_stamp(&mut self, index: usize) -> (intent: Intent)
        requires
            old(self).wf(),
        ensures
            final(self).wf(),
            intent == Intent::DeleteCustomStamp(index),
            old(self).selected_custom_stamp_index == Some(index) ==> *final(self) == (EditorPanel {
                selected_stamp_type: StampType::Approved,
                selected_custom_stamp_index: None,
                ..*old(self)
            }),
            old(self).selected_custom_stamp_index != Some(index) ==> *final(self) == *old(self),
    {
        let picked = match self.selected_custom_stamp_index {
            Some(i) => i == index,
            None => false,
        };
        if picked {
            self.selected_custom_stamp_index = None;
            self.selected_stamp_type = StampType::Approved;
        }
        Intent::DeleteCustomStamp(index)
    }

    /// Replaces the input buffer.  A text that is too long to be stored is
    /// not taken.
    pub fn set_text_input(&mut self, text: String) -> (taken: bool)
        requires
            old(self).wf(),
        ensures
            final(self).wf(),
            taken == (text@.len() <= TEXT_LIMIT),
            taken ==> *final(self) == (EditorPanel { text_input: text, ..*old(self) }),
            !taken ==> *final(self) == *old(self),
    {
        if text.as_str().unicode_len() <= TEXT_LIMIT {
            self.text_input = text;
            true
        } else {
            false
        }
    }

    /// Sets the font size for new texts, kept between 8 pt and 72 pt.
    pub fn set_text_font_size(&mut self, size: i64)
        requires
            old(self).wf(),
        ensures
            final(self).wf(),
            *final(self) == (EditorPanel { text_font_size: resized_font(size as int) as i64, ..*old(self) }),
    {
        self.text_font_size = clamp(size, FONT_MIN, FONT_MAX);
    }

    pub fn set_text_font_type(&mut self, font_type: FontType)
        requires
            old(self).wf(),
        ensures
            final(self).wf(),
            *final(self) == (EditorPanel { text_font_type: font_type, ..*old(self) }),
    {
        self.text_font_type = font_type;
    }

    pub fn set_text_transparent(&mut self, transparent: bool)
        requires
            old(self).wf(),
        ensures
            final(self).wf(),
            *final(self) == (EditorPanel { text_transparent: transparent, ..*old(self) }),
    {
        self.text_transparent = transparent;
    }

    /// Clears the selection; a drag or an edit of what was selected ends.
    pub fn deselect(&mut self)
        requires
            old(self).wf(),
        ensures
            final(self).wf(),
            *final(self) == (EditorPanel {
                mode: settled(old(self).mode),
                selection: Selection::Nothing,
                ..*old(self)
            }),
    {
        self.settle();
        self.selection = Selection::Nothing;
    }

    fn settle(&mut self)
        ensures
            *final(self) == (EditorPanel { mode: settled(old(self).mode), ..*old(self) }),
    {
        let next = match self.mode {
            Mode::Dragging { .. } => Mode::Idle,
            Mode::EditingText { .. } => Mode::Idle,
            m => m,
        };
        self.mode = next;
    }

    /// Asks for the selected annotation to be deleted.  Nothing stays
    /// selected, and a drag or an edit of it ends.
    pub fn delete_selected(&mut self) -> (intent: Option<Intent>)
        requires
            old(self).wf(),
        ensures
            final(self).wf(),
            *final(self) == (EditorPanel {
                mode: settled(old(self).mode),
                selection: Selection::Nothing,
                ..*old(self)
            }),
            intent == match old(self).selection {
                Selection::Stamp(i) => Some(Intent::DeleteStamp(i)),
                Selection::Text(i) => Some(Intent::DeleteText(i)),
                Selection::Rect(i) => Some(Intent::DeleteRect(i)),
                Selection::Nothing => None,
            },
    {
        let intent = match self.selection {
            Selection::Stamp(i) => Some(Intent::DeleteStamp(i)),
            Selection::Text(i) => Some(Intent::DeleteText(i)),
            Selection::Rect(i) => Some(Intent::DeleteRect(i)),
            Selection::Nothing => None,
        };
        self.settle();
        self.selection = Selection::Nothing;
        intent
    }

    /// Begins to edit the selected text: the input buffer and the text
    /// settings take what the text holds.  Happens only to an idle panel
    /// whose selection is a text of the list.
    pub fn begin_edit_text(&mut self, texts: &Vec<TextAnnotation>) -> (begun: bool)
        requires
            old(self).wf(),
            texts_wf(texts@),
        ensures
            final(self).wf(),
            begun == (old(self).mode == Mode::Idle && old(self).selection is Text && old(self).selection->Text_0
                < texts.len()),
            !begun ==> *final(self) == *old(self),
            begun ==> ({
                let t = texts[old(self).selection->Text_0 as int];
                *final(self) == (EditorPanel {
                    mode: Mode::EditingText { target: old(self).selection->Text_0 },
                    text_input: t.text,
                    text_font_size: t.font_size,
                    text_font_type: t.font_type,
                    text_transparent: t.transparent,
                    ..*old(self)
                })
            }),
    {
        let idle = match self.mode {
            Mode::Idle => true,
            _ => false,
        };
        if !idle {
            return false;
        }
        match self.selection {
            Selection::Text(i) => {
                if i < texts.len() {
                    let t = &texts[i];
                    self.text_input = t.text.clone();
                    self.text_font_size = t.font_size;
                    self.text_font_type = t.font_type;
                    self.text_transparent = t.transparent;
                    self.mode = Mode::EditingText { target: i };
                    true
                } else {
                    false
                }
            },
            _ => false,
        }
    }

    /// Ends an edit and asks for the text to take the input buffer, the
    /// font and the transparency.  The buffer is emptied.
    pub fn confirm_edit(&mut self) -> (intent: Option<Intent>)
        requires
            old(self).wf(),
        ensures
            final(self).wf(),
            match old(self).mode {
                Mode::EditingText { target } => {
                    &&& intent == Some(
                        Intent::EditText(
                            target,
                            old(self).text_input,
                            old(self).text_font_type,
                            old(self).text_transparent,
                        ),
                    )
                    &&& final(self).text_input@ == Seq::<char>::empty()
                    &&& final(self).mode == Mode::Idle
                    &&& (EditorPanel { text_input: old(self).text_input, mode: old(self).mode, ..*final(self) })
                        == *old(self)
                },
                _ => intent is None && *final(self) == *old(self),
            },
            intent is Some ==> intent->0.wf(),
    {
        match self.mode {
            Mode::EditingText { target } => {
                let text = self.text_input.clone();
                self.text_input = String::new();
                self.mode = Mode::Idle;
                Some(Intent::EditText(target, text, self.text_font_type, self.text_transparent))
            },
            _ => None,
        }
    }

    /// Ends an edit without asking for anything.  The buffer is emptied.
    pub fn cancel_edit(&mut self)
        requires
            old(self).wf(),
        ensures
            final(self).wf(),
            match old(self).mode {
                Mode::EditingText { target } => {
                    &&& final(self).text_input@ == Seq::<char>::empty()
                    &&& final(self).mode == Mode::Idle
                    &&& (EditorPanel { text_input: old(self).text_input, mode: old(self).mode, ..*final(self) })
                        == *old(self)
                },
                _ => *final(self) == *old(self),
            },
    {
        match self.mode {
            Mode::EditingText { .. } => {
                self.text_input = String::new();
                self.mode = Mode::Idle;
            },
            _ => {},
        }
    }

    /// Which corner the pointer holds: the bottom-right one during a resize.
    pub fn resize_corner(&self) -> (c: ResizeCorner)
        ensures
            c == match self.mode {
                Mode::Dragging { kind: DragKind::Resize, .. } => ResizeCorner::BottomRight,
                _ => ResizeCorner::Unset,
            },
    {
        match self.mode {
            Mode::Dragging { kind: DragKind::Resize, .. } => ResizeCorner::BottomRight,
            _ => ResizeCorner::Unset,
        }
    }

    /// Turns the panel to the page that the frame shows.  Where the page,
    /// its rotation or its render size differ from what the cache was
    /// filled for, the bitmap is dropped, nothing stays selected and a drag
    /// or an edit ends.  Returns whether a bitmap has to be asked for.
    pub fn show_page(&mut self, page: PageView) -> (needs_render: bool)
        requires
            old(self).wf(),
            page.wf(),
        ensures
            final(self).wf(),
            final(self).cache.key == Some(cache_key_spec(page)),
            old(self).cache.key == Some(cache_key_spec(page)) ==> *final(self) == *old(self),
            old(self).cache.key != Some(cache_key_spec(page)) ==> *final(self) == (EditorPanel {
                cache: RasterCache { key: Some(cache_key_spec(page)), loaded: false },
                mode: settled(old(self).mode),
                selection: Selection::Nothing,
                ..*old(self)
            }),
            needs_render == !final(self).cache.loaded,
    {
        let key = cache_key(page);
        let changed = self.cache.retarget(key);
        if changed {
            self.settle();
            self.selection = Selection::Nothing;
        }
        self.cache.needs_render()
    }

    /// Records what the rendering service answered to a request.
    pub fn page_rendered(&mut self, got_bitmap: bool)
        requires
            old(self).wf(),
        ensures
            final(self).wf(),
            *final(self) == (EditorPanel {
                cache: RasterCache {
                    key: old(self).cache.key,
                    loaded: old(self).cache.loaded || (got_bitmap && old(self).cache.key is Some),
                },
                ..*old(self)
            }),
    {
        self.cache.rendered(got_bitmap);
    }

    /// Drops the cached bitmap, as after any change to the document.
    pub fn invalidate_cache(&mut self)
        requires
            old(self).wf(),
        ensures
            final(self).wf(),
            *final(self) == (EditorPanel {
                cache: RasterCache { key: old(self).cache.key, loaded: false },
                ..*old(self)
            }),
    {
        self.cache.invalidate();
    }

    /// Box of the selected annotation on the canvas.
    pub fn selected_box(
        &self,
        page: PageView,
        stamps: &Vec<Stamp>,
        texts: &Vec<TextAnnotation>,
        rects: &Vec<RectAnnotation>,
    ) -> (b: Option<CanvasBox>)
        requires
            self.wf(),
            page.wf(),
            stamps_wf(stamps@),
            texts_wf(texts@),
            rects_wf(rects@),
        ensures
            b == selected_box_spec(self.selection, page, self.zoom, stamps@, texts@, rects@),
            b is Some ==> b->0.wf(),
    {
        match self.selection {
            Selection::Stamp(i) => if i < stamps.len() {
                Some(stamp_box(&stamps[i], page, self.zoom))
            } else {
                None
            },
            Selection::Text(i) => if i < texts.len() {
                Some(text_box(&texts[i], page, self.zoom))
            } else {
                None
            },
            Selection::Rect(i) => if i < rects.len() {
                Some(rect_box(&rects[i], page, self.zoom))
            } else {
                None
            },
            Selection::Nothing => None,
        }
    }

    /// A click at `p`.  Off the canvas it gives up what was being placed or
    /// dragged and does nothing else: nothing is placed and the selection
    /// stays.  On the canvas, in a placement mode for stamps or texts it
    /// places one and the panel is idle again; while a rectangle is being
    /// placed or an annotation dragged it does nothing; else it selects what
    /// it strikes, or nothing.
    pub fn click(
        &mut self,
        p: Point,
        page: PageView,
        stamps: &Vec<Stamp>,
        texts: &Vec<TextAnnotation>,
        rects: &Vec<RectAnnotation>,
        custom_stamps: &Vec<CustomStamp>,
    ) -> (intent: Option<Intent>)
        requires
            old(self).wf(),
            p.wf(),
            page.wf(),
            stamps_wf(stamps@),
            texts_wf(texts@),
            rects_wf(rects@),
        ensures
            final(self).wf(),
            intent is Some ==> intent->0.wf(),
            !on_canvas(p, page, old(self).zoom) ==> intent is None && *final(self) == (EditorPanel {
                mode: click_outside_mode(old(self).mode),
                ..*old(self)
            }),
            on_canvas(p, page, old(self).zoom) ==> match old(self).mode {
                Mode::PlacingStamp => {
                    &&& intent == Some(
                        Intent::NewStamp(
                            placed_stamp(
                                p,
                                page,
                                old(self).zoom,
                                placement_size_spec(
                                    selected_custom_size(old(self).selected_custom_stamp_index, custom_stamps@),
                                ),
                                old(self).selected_stamp_type,
                            ),
                        ),
                    )
                    &&& *final(self) == (EditorPanel { mode: Mode::Idle, ..*old(self) })
                },
                Mode::PlacingText => {
                    &&& intent == Some(
                        Intent::NewText(
                            placed_text(
                                p,
                                page,
                                old(self).zoom,
                                old(self).text_input,
                                old(self).text_font_size,
                                old(self).text_font_type,
                                old(self).text_transparent,
                            ),
                        ),
                    )
                    &&& final(self).text_input@ == Seq::<char>::empty()
                    &&& final(self).mode == Mode::Idle
                    &&& (EditorPanel { text_input: old(self).text_input, mode: old(self).mode, ..*final(self) })
                        == *old(self)
                },
                Mode::PlacingRect { .. } | Mode::Dragging { .. } => intent is None && *final(self) == *old(self),
                Mode::Idle | Mode::EditingText { .. } => {
                    &&& intent is None
                    &&& is_hit(final(self).selection, p, page, old(self).zoom, stamps@, texts@, rects@)
                    &&& *final(self) == (EditorPanel {
                        mode: click_mode(old(self).mode, final(self).selection),
                        selection: final(self).selection,
                        ..*old(self)
                    })
                },
            },
    {
        if !point_on_canvas(p, page, self.zoom) {
            let next = match self.mode {
                Mode::PlacingStamp => Mode::Idle,
                Mode::PlacingText => Mode::Idle,
                Mode::PlacingRect { .. } => Mode::Idle,
                Mode::Dragging { .. } => Mode::Idle,
                m => m,
            };
            self.mode = next;
            return None;
        }
        match self.mode {
            Mode::PlacingStamp => {
                let custom = match self.selected_custom_stamp_index {
                    Some(i) => if i < custom_stamps.len() {
                        Some((custom_stamps[i].width, custom_stamps[i].height))
                    } else {
                        None
                    },
                    None => None,
                };
                let (w, h) = placement_size(custom);
                proof {
                    lemma_scale_bounds(p.x as int, self.zoom, COORD_LIMIT as int);
                    lemma_scale_bounds(p.y as int, self.zoom, COORD_LIMIT as int);
                }
                let dx = unscale(p.x, self.zoom) - w / 2;
                let dy = unscale(p.y, self.zoom) - h / 2;
                let pos = display_to_pdf(dx, dy, w, h, page.orig_w, page.orig_h, page.rotation);
                let stamp = Stamp {
                    page: page.page_index,
                    x: clamp_coord(pos.0),
                    y: clamp_coord(pos.1),
                    width: w,
                    height: h,
                    stamp_type: self.selected_stamp_type.duplicate(),
                };
                self.mode = Mode::Idle;
                Some(Intent::NewStamp(stamp))
            },
            Mode::PlacingText => {
                let (w, h) = text_extent(self.text_input.as_str(), self.text_font_size);
                proof {
                    lemma_scale_bounds(p.x as int, self.zoom, COORD_LIMIT as int);
                    lemma_scale_bounds(p.y as int, self.zoom, COORD_LIMIT as int);
                }
                let dx = unscale(p.x, self.zoom);
                let dy = unscale(p.y, self.zoom);
                let pos = display_to_pdf(dx, dy, w, h, page.orig_w, page.orig_h, page.rotation);
                let text = self.text_input.clone();
                let annotation = TextAnnotation {
                    page: page.page_index,
                    x: clamp_coord(pos.0),
                    y: clamp_coord(pos.1),
                    text,
                    font_size: self.text_font_size,
                    font_type: self.text_font_type,
                    transparent: self.text_transparent,
                };
                self.text_input = String::new();
                self.mode = Mode::Idle;
                Some(Intent::NewText(annotation))
            },
            Mode::PlacingRect { .. } => None,
            Mode::Dragging { .. } => None,
            Mode::Idle => {
                self.selection = hit_test(p, page, self.zoom, stamps, texts, rects);
                None
            },
            Mode::EditingText { .. } => {
                let hit = hit_test(p, page, self.zoom, stamps, texts, rects);
                self.selection = hit;
                self.mode = match hit {
                    Selection::Text(j) => Mode::EditingText { target: j },
                    _ => Mode::Idle,
                };
                None
            },
        }
    }

    /// A drag begins at `p`.  On an idle panel it takes hold of the selected
    /// annotation: by the handle to resize it, by the body to move it.
    /// While a rectangle is being placed it sets the anchor, if `p` is on
    /// the canvas.
    pub fn drag_start(
        &mut self,
        p: Point,
        page: PageView,
        stamps: &Vec<Stamp>,
        texts: &Vec<TextAnnotation>,
        rects: &Vec<RectAnnotation>,
    )
        requires
            old(self).wf(),
            p.wf(),
            page.wf(),
            stamps_wf(stamps@),
            texts_wf(texts@),
            rects_wf(rects@),
        ensures
            final(self).wf(),
            *final(self) == (EditorPanel {
                mode: drag_start_mode(
                    old(self).mode,
                    old(self).selection,
                    p,
                    page,
                    old(self).zoom,
                    stamps@,
                    texts@,
                    rects@,
                ),
                ..*old(self)
            }),
    {
        match self.mode {
            Mode::Idle => {
                match self.selected_box(page, stamps, texts, rects) {
                    Some(b) => {
                        let handle = b.handle();
                        if handle.contains(p) {
                            self.mode = Mode::Dragging {
                                target: self.selection,
                                kind: DragKind::Resize,
                                offset: Point { x: p.x - b.right, y: p.y - b.bottom },
                            };
                        } else if b.contains(p) {
                            self.mode = Mode::Dragging {
                                target: self.selection,
                                kind: DragKind::Move,
                                offset: Point { x: p.x - b.left, y: p.y - b.top },
                            };
                        }
                    },
                    None => {},
                }
            },
            Mode::PlacingRect { .. } => {
                if point_on_canvas(p, page, self.zoom) {
                    self.mode = Mode::PlacingRect { anchor: Some(p) };
                }
            },
            _ => {},
        }
    }

    /// The pointer is released at `p`.  A move or a resize ends and asks
    /// for its change; a rectangle that was being drawn is asked for where
    /// it is large enough.
    pub fn drag_end(
        &mut self,
        p: Point,
        page: PageView,
        stamps: &Vec<Stamp>,
        texts: &Vec<TextAnnotation>,
        rects: &Vec<RectAnnotation>,
    ) -> (intent: Option<Intent>)
        requires
            old(self).wf(),
            p.wf(),
            page.wf(),
            stamps_wf(stamps@),
            texts_wf(texts@),
            rects_wf(rects@),
        ensures
            final(self).wf(),
            intent == drag_end_intent(old(self).mode, p, page, old(self).zoom, stamps@, texts@, rects@),
            intent is Some ==> intent->0.wf(),
            *final(self) == (EditorPanel { mode: drag_end_mode(old(self).mode), ..*old(self) }),
    {
        let zoom = self.zoom;
        match self.mode {
            Mode::Dragging { target, kind, offset } => {
                self.mode = Mode::Idle;
                match target {
                    Selection::Stamp(i) => {
                        if i < stamps.len() {
                            let s = &stamps[i];
                            match kind {
                                DragKind::Move => {
                                    let pos = moved_to(p, offset, s.width, s.height, page, zoom);
                                    Some(Intent::MoveStamp(i, pos.0, pos.1))
                                },
                                DragKind::Resize => {
                                    let b = stamp_box(s, page, zoom);
                                    let e = resized_to(p, offset, b, zoom);
                                    Some(
                                        Intent::ResizeStamp(
                                            i,
                                            clamp(e.0, STAMP_MIN_SIZE, COORD_LIMIT),
                                            clamp(e.1, STAMP_MIN_SIZE, COORD_LIMIT),
                                        ),
                                    )
                                },
                            }
                        } else {
                            None
                        }
                    },
                    Selection::Text(i) => {
                        if i < texts.len() {
                            let t = &texts[i];
                            match kind {
                                DragKind::Move => {
                                    let (w, h) = text_extent(t.text.as_str(), t.font_size);
                                    let pos = moved_to(p, offset, w, h, page, zoom);
                                    Some(Intent::MoveText(i, pos.0, pos.1))
                                },
                                DragKind::Resize => {
                                    let b = text_box(t, page, zoom);
                                    let e = resized_to(p, offset, b, zoom);
                                    Some(Intent::ResizeText(i, clamp(e.1, FONT_MIN, FONT_MAX)))
                                },
                            }
                        } else {
                            None
                        }
                    },
                    Selection::Rect(i) => {
                        if i < rects.len() {
                            let r = &rects[i];
                            match kind {
                                DragKind::Move => {
                                    let pos = moved_to(p, offset, r.width, r.height, page, zoom);
                                    Some(Intent::MoveRect(i, pos.0, pos.1))
                                },
                                DragKind::Resize => {
                                    let b = rect_box(r, page, zoom);
                                    let e = resized_to(p, offset, b, zoom);
                                    Some(
                                        Intent::ResizeRect(
                                            i,
                                            clamp(e.0, RECT_MIN_SIZE, COORD_LIMIT),
                                            clamp(e.1, RECT_MIN_SIZE, COORD_LIMIT),
                                        ),
                                    )
                                },
                            }
                        } else {
                            None
                        }
                    },
                    Selection::Nothing => None,
                }
            },
            Mode::PlacingRect { anchor } => {
                self.mode = Mode::PlacingRect { anchor: None };
                match anchor {
                    Some(a) => match draw_rect(a, p, page, zoom) {
                        Some(r) => Some(Intent::NewRect(r)),
                        None => None,
                    },
                    None => None,
                }
            },
            _ => None,
        }
    }

    /// What to show of a rectangle that is being drawn while the pointer is
    /// at `p`.
    pub fn rect_preview(&self, p: Point) -> (b: Option<CanvasBox>)
        ensures
            b == preview_box_spec(self.mode, p),
    {
        match self.mode {
            Mode::PlacingRect { anchor: Some(a) } => Some(
                CanvasBox {
                    left: if a.x < p.x { a.x } else { p.x },
                    top: if a.y < p.y { a.y } else { p.y },
                    right: if a.x < p.x { p.x } else { a.x },
                    bottom: if a.y < p.y { p.y } else { a.y },
                },
            ),
            _ => None,
        }
    }

    /// The drag ended where the pointer cannot be seen: nothing is asked
    /// for.
    pub fn drag_cancel(&mut self)
        requires
            old(self).wf(),
        ensures
            final(self).wf(),
            *final(self) == (EditorPanel { mode: drag_end_mode(old(self).mode), ..*old(self) }),
    {
        let next = match self.mode {
            Mode::Dragging { .. } => Mode::Idle,
            Mode::PlacingRect { .. } => Mode::PlacingRect { anchor: None },
            m => m,
        };
        self.mode = next;
    }
}

/// Whether `p` is on the canvas of `page`.
pub fn point_on_canvas(p: Point, page: PageView, zoom: Zoom) -> (b: bool)
    requires
        page.wf(),
        zoom.wf(),
    ensures
        b == on_canvas(p, page, zoom),
{
    let size = rotated_page_size(page.orig_w, page.orig_h, page.rotation);
    proof {
        lemma_scale_bounds(size.0 as int, zoom, COORD_LIMIT as int);
        lemma_scale_bounds(size.1 as int, zoom, COORD_LIMIT as int);
    }
    let cw = scale(size.0, zoom);
    let ch = scale(size.1, zoom);
    0 <= p.x && p.x <= cw && 0 <= p.y && p.y <= ch
}

/// Where a move that ends at `p` puts the corner of a box.
pub fn moved_to(p: Point, offset: Point, w: i64, h: i64, page: PageView, zoom: Zoom) -> (r: (i64, i64))
    requires
        p.wf(),
        -OFFSET_LIMIT <= offset.x <= OFFSET_LIMIT,
        -OFFSET_LIMIT <= offset.y <= OFFSET_LIMIT,
        -COORD_LIMIT <= w <= COORD_LIMIT,
        -COORD_LIMIT <= h <= COORD_LIMIT,
        page.wf(),
        zoom.wf(),
    ensures
        (r.0 as int, r.1 as int) == moved_position(p, offset, w as int, h as int, page, zoom),
        -COORD_LIMIT <= r.0 <= COORD_LIMIT,
        -COORD_LIMIT <= r.1 <= COORD_LIMIT,
{
    proof {
        lemma_scale_bounds(p.x - offset.x, zoom, COORD_LIMIT + OFFSET_LIMIT);
        lemma_scale_bounds(p.y - offset.y, zoom, COORD_LIMIT + OFFSET_LIMIT);
    }
    let dx = unscale(p.x - offset.x, zoom);
    let dy = unscale(p.y - offset.y, zoom);
    let pos = display_to_pdf(dx, dy, w, h, page.orig_w, page.orig_h, page.rotation);
    (clamp_coord(pos.0), clamp_coord(pos.1))
}

/// Width and height that a resize which ends at `p` asks for, before any
/// floor.
pub fn resized_to(p: Point, offset: Point, b: CanvasBox, zoom: Zoom) -> (r: (i64, i64))
    requires
        p.wf(),
        -OFFSET_LIMIT <= offset.x <= OFFSET_LIMIT,
        -OFFSET_LIMIT <= offset.y <= OFFSET_LIMIT,
        b.wf(),
        zoom.wf(),
    ensures
        (r.0 as int, r.1 as int) == resized_extent(p, offset, b, zoom),
{
    (unscale(p.x - offset.x - b.left, zoom), unscale(p.y - offset.y - b.top, zoom))
}

/// The rectangle that a drag from `a` to `p` draws.
pub fn draw_rect(a: Point, p: Point, page: PageView, zoom: Zoom) -> (r: Option<RectAnnotation>)
    requires
        a.wf(),
        p.wf(),
        page.wf(),
        zoom.wf(),
    ensures
        r == drawn_rect(a, p, page, zoom),
        r is Some == drag_is_large(a, p),
        r is Some ==> r->0.wf(),
{
    let min_x = if a.x < p.x { a.x } else { p.x };
    let min_y = if a.y < p.y { a.y } else { p.y };
    let max_x = if a.x < p.x { p.x } else { a.x };
    let max_y = if a.y < p.y { p.y } else { a.y };
    proof {
        lemma_scale_bounds(max_x - min_x, zoom, 2 * COORD_LIMIT);
        lemma_scale_bounds(max_y - min_y, zoom, 2 * COORD_LIMIT);
        lemma_scale_bounds(min_x as int, zoom, COORD_LIMIT as int);
        lemma_scale_bounds(min_y as int, zoom, COORD_LIMIT as int);
    }
    if max_x - min_x > NEW_RECT_THRESHOLD && max_y - min_y > NEW_RECT_THRESHOLD {
        let cw = clamp_coord(unscale(max_x - min_x, zoom));
        let ch = clamp_coord(unscale(max_y - min_y, zoom));
        let pos = display_to_pdf(
            unscale(min_x, zoom),
            unscale(min_y, zoom),
            cw,
            ch,
            page.orig_w,
            page.orig_h,
            page.rotation,
        );
        Some(
            RectAnnotation {
                page: page.page_index,
                x: clamp_coord(pos.0),
                y: clamp_coord(pos.1),
                width: cw,
                height: ch,
                color: [255, 255, 255, 255],
            },
        )
    } else {
        None
    }
}

} // verus!
