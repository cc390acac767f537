use pdf_viewer::geometry::clamp;
use pdf_viewer::geometry::clamp_coord;
use pdf_viewer::geometry::display_box;
use pdf_viewer::geometry::display_to_pdf;
use pdf_viewer::geometry::div_floor;
use pdf_viewer::geometry::normalize_rotation;
use pdf_viewer::geometry::pdf_to_display_pos;
use pdf_viewer::geometry::rotated_page_size;
use pdf_viewer::geometry::scale;
use pdf_viewer::geometry::unscale;
use pdf_viewer::geometry::CanvasBox;
use pdf_viewer::geometry::PageView;
use pdf_viewer::geometry::Point;
use pdf_viewer::geometry::Zoom;
use pdf_viewer::geometry::COORD_LIMIT;

#[test]
fn display_position_per_rotation() {
    assert_eq!(pdf_to_display_pos(100_000, 50_000, 100_000, 50_000, 612_000, 792_000, 0), (100_000, 50_000));
    assert_eq!(pdf_to_display_pos(100_000, 50_000, 100_000, 50_000, 612_000, 792_000, 90), (692_000, 100_000));
    assert_eq!(pdf_to_display_pos(100_000, 50_000, 100_000, 50_000, 612_000, 792_000, 180), (412_000, 692_000));
    assert_eq!(pdf_to_display_pos(100_000, 50_000, 100_000, 50_000, 612_000, 792_000, 270), (50_000, 412_000));
}

#[test]
fn pdf_position_per_rotation() {
    assert_eq!(display_to_pdf(692_000, 100_000, 100_000, 50_000, 612_000, 792_000, 90), (100_000, 50_000));
    assert_eq!(display_to_pdf(412_000, 692_000, 100_000, 50_000, 612_000, 792_000, 180), (100_000, 50_000));
    assert_eq!(display_to_pdf(50_000, 412_000, 100_000, 50_000, 612_000, 792_000, 270), (100_000, 50_000));
    assert_eq!(display_to_pdf(7, -9, 100_000, 50_000, 612_000, 792_000, 0), (7, -9));
}

#[test]
fn round_trip_for_every_rotation() {
    let rotations = [0, 90, 180, 270];
    let boxes = [
        (0i64, 0i64, 0i64, 0i64),
        (100_000, 50_000, 100_000, 50_000),
        (-30_000, 700_000, 12_345, 67_890),
        (611_999, 1, 1, 791_998),
    ];
    for rot in rotations {
        for (x, y, w, h) in boxes {
            let d = pdf_to_display_pos(x, y, w, h, 612_000, 792_000, rot);
            assert_eq!(display_to_pdf(d.0, d.1, w, h, 612_000, 792_000, rot), (x, y));
            let back = display_to_pdf(x, y, w, h, 612_000, 792_000, rot);
            assert_eq!(pdf_to_display_pos(back.0, back.1, w, h, 612_000, 792_000, rot), (x, y));
        }
    }
}

#[test]
fn unrotated_page_keeps_positions() {
    assert_eq!(pdf_to_display_pos(123, -456, 10, 20, 612_000, 792_000, 0), (123, -456));
    assert_eq!(pdf_to_display_pos(123, -456, 10, 20, 0, 0, 0), (123, -456));
}

#[test]
fn unknown_angle_keeps_positions() {
    assert_eq!(pdf_to_display_pos(5, 6, 10, 20, 612_000, 792_000, 45), (5, 6));
    assert_eq!(display_to_pdf(5, 6, 10, 20, 612_000, 792_000, 360), (5, 6));
}

#[test]
fn rotation_is_normalized() {
    assert_eq!(normalize_rotation(0), 0);
    assert_eq!(normalize_rotation(90), 90);
    assert_eq!(normalize_rotation(360), 0);
    assert_eq!(normalize_rotation(450), 90);
    assert_eq!(normalize_rotation(-90), 270);
    assert_eq!(normalize_rotation(-360), 0);
    assert_eq!(normalize_rotation(-1), 359);
    assert_eq!(normalize_rotation(i32::MIN), 232);
}

#[test]
fn quarter_turn_swaps_page_sides() {
    assert_eq!(rotated_page_size(612_000, 792_000, 0), (612_000, 792_000));
    assert_eq!(rotated_page_size(612_000, 792_000, 90), (792_000, 612_000));
    assert_eq!(rotated_page_size(612_000, 792_000, 180), (612_000, 792_000));
    assert_eq!(rotated_page_size(612_000, 792_000, 270), (792_000, 612_000));
}

#[test]
fn division_rounds_down() {
    assert_eq!(div_floor(7, 2), 3);
    assert_eq!(div_floor(-7, 2), -4);
    assert_eq!(div_floor(-8, 2), -4);
    assert_eq!(div_floor(0, 5), 0);
    assert_eq!(div_floor(-1, 4), -1);
}

#[test]
fn zoom_steps_stay_in_range() {
    let z = Zoom::unit();
    assert_eq!(z.quarters, 4);
    assert_eq!(z.percent(), 100);
    assert_eq!(z.stepped_in().quarters, 5);
    assert_eq!(z.stepped_out().quarters, 3);
    assert_eq!(Zoom { quarters: 16 }.stepped_in().quarters, 16);
    assert_eq!(Zoom { quarters: 1 }.stepped_out().quarters, 1);
    assert_eq!(Zoom { quarters: 16 }.percent(), 400);
    assert_eq!(Zoom { quarters: 1 }.percent(), 25);
}

#[test]
fn scaling_follows_the_zoom() {
    let unit = Zoom::unit();
    assert_eq!(scale(123_456, unit), 123_456);
    assert_eq!(unscale(123_456, unit), 123_456);
    let double = Zoom { quarters: 8 };
    assert_eq!(scale(100_000, double), 200_000);
    assert_eq!(unscale(200_000, double), 100_000);
    let three_quarters = Zoom { quarters: 3 };
    assert_eq!(scale(10, three_quarters), 7);
    assert_eq!(scale(-10, three_quarters), -8);
    assert_eq!(unscale(10, three_quarters), 13);
    assert_eq!(unscale(-1, three_quarters), -2);
}

#[test]
fn clamping() {
    assert_eq!(clamp(5, 10, 20), 10);
    assert_eq!(clamp(25, 10, 20), 20);
    assert_eq!(clamp(15, 10, 20), 15);
    assert_eq!(clamp_coord(COORD_LIMIT + 1), COORD_LIMIT);
    assert_eq!(clamp_coord(-COORD_LIMIT - 1), -COORD_LIMIT);
    assert_eq!(clamp_coord(42), 42);
}

#[test]
fn box_on_canvas_keeps_size_under_rotation() {
    let page = PageView { page_index: 0, rotation: 90, orig_w: 612_000, orig_h: 792_000 };
    let b = display_box(100_000, 50_000, 100_000, 50_000, page, Zoom::unit());
    assert_eq!(b, CanvasBox { left: 692_000, top: 100_000, right: 792_000, bottom: 150_000 });
    let zoomed = display_box(100_000, 50_000, 100_000, 50_000, page, Zoom { quarters: 8 });
    assert_eq!(zoomed, CanvasBox { left: 1_384_000, top: 200_000, right: 1_584_000, bottom: 300_000 });
}

#[test]
fn box_holds_its_edges() {
    let b = CanvasBox { left: 10, top: 20, right: 30, bottom: 40 };
    assert!(b.contains(Point { x: 10, y: 20 }));
    assert!(b.contains(Point { x: 30, y: 40 }));
    assert!(b.contains(Point { x: 20, y: 30 }));
    assert!(!b.contains(Point { x: 9, y: 30 }));
    assert!(!b.contains(Point { x: 31, y: 30 }));
    assert!(!b.contains(Point { x: 20, y: 19 }));
    assert!(!b.contains(Point { x: 20, y: 41 }));
}

#[test]
fn handle_is_centred_on_the_corner() {
    let b = CanvasBox { left: 0, top: 0, right: 100_000, bottom: 50_000 };
    let h = b.handle();
    assert_eq!(h, CanvasBox { left: 94_000, top: 44_000, right: 106_000, bottom: 56_000 });
}
