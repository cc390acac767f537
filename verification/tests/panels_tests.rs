use pdf_viewer::annotation::FontType;
use pdf_viewer::annotation::RectAnnotation;
use pdf_viewer::annotation::Stamp;
use pdf_viewer::annotation::StampType;
use pdf_viewer::annotation::TextAnnotation;
use pdf_viewer::document::PdfDocument;
use pdf_viewer::editor::DragKind;
use pdf_viewer::editor::EditorPanel;
use pdf_viewer::editor::Mode;
use pdf_viewer::geometry::PageView;
use pdf_viewer::geometry::Point;
use pdf_viewer::geometry::Zoom;
use pdf_viewer::geometry::COORD_LIMIT;
use pdf_viewer::hit_test::lists_valid;
use pdf_viewer::hit_test::Selection;
use pdf_viewer::panels::drive_type_name;
use pdf_viewer::panels::get_drive_label;

#[test]
fn drive_type_names() {
    assert_eq!(drive_type_name(2), "リムーバブル");
    assert_eq!(drive_type_name(3), "ローカル");
    assert_eq!(drive_type_name(4), "ネットワーク");
    assert_eq!(drive_type_name(5), "CD/DVD");
    assert_eq!(drive_type_name(6), "RAM");
    assert_eq!(drive_type_name(0), "ドライブ");
    assert_eq!(drive_type_name(7), "ドライブ");
}

#[test]
fn drive_labels() {
    assert_eq!(get_drive_label("C", Some("System"), 3), "💾 C: [System]");
    assert_eq!(get_drive_label("D", Some(""), 5), "💾 D: [CD/DVD]");
    assert_eq!(get_drive_label("E", Some(""), 99), "💾 E: [ドライブ]");
    assert_eq!(get_drive_label("F", None, 3), "💾 F:");
}

#[test]
fn points_pages_and_zooms_are_checked() {
    assert!(Point { x: COORD_LIMIT, y: -COORD_LIMIT }.is_valid());
    assert!(!Point { x: COORD_LIMIT + 1, y: 0 }.is_valid());
    assert!(!Point { x: 0, y: -COORD_LIMIT - 1 }.is_valid());
    assert!(PageView { page_index: 0, rotation: 45, orig_w: 0, orig_h: COORD_LIMIT }.is_valid());
    assert!(!PageView { page_index: 0, rotation: 0, orig_w: 0, orig_h: COORD_LIMIT + 1 }.is_valid());
    assert!(Zoom { quarters: 1 }.is_valid());
    assert!(Zoom { quarters: 16 }.is_valid());
    assert!(!Zoom { quarters: 0 }.is_valid());
    assert!(!Zoom { quarters: 17 }.is_valid());
}

#[test]
fn lists_are_checked() {
    let good_stamp = Stamp::new(0, 0, 0, StampType::Approved);
    let mut bad_stamp = Stamp::new(0, 0, 0, StampType::Approved);
    bad_stamp.y = COORD_LIMIT + 1;
    let good_text = TextAnnotation::new(0, 0, 0, "x".to_string(), 10_000, FontType::Gothic, true);
    let mut bad_text = good_text.clone();
    bad_text.font_size = -1;
    let good_rect = RectAnnotation { page: 0, x: 0, y: 0, width: 1, height: 1, color: [0, 0, 0, 0] };
    let mut bad_rect = good_rect;
    bad_rect.x = -COORD_LIMIT - 1;
    assert!(lists_valid(&vec![], &vec![], &vec![]));
    assert!(lists_valid(&vec![good_stamp.clone()], &vec![good_text.clone()], &vec![good_rect]));
    assert!(!lists_valid(&vec![good_stamp.clone(), bad_stamp], &vec![good_text.clone()], &vec![good_rect]));
    assert!(!lists_valid(&vec![good_stamp.clone()], &vec![bad_text], &vec![good_rect]));
    assert!(!lists_valid(&vec![good_stamp], &vec![good_text], &vec![good_rect, bad_rect]));
}

#[test]
fn documents_are_checked() {
    let mut doc = PdfDocument::new("a.pdf".to_string(), vec![(1, 2), (3, 4)]).unwrap();
    assert!(doc.is_valid());
    doc.page_rotations[1] = 360;
    assert!(!doc.is_valid());
    doc.page_rotations[1] = -90;
    assert!(!doc.is_valid());
    doc.page_rotations[1] = 359;
    assert!(doc.is_valid());
    doc.page_rotations.push(0);
    assert!(!doc.is_valid());
    doc.page_sizes.push((COORD_LIMIT + 1, 0));
    assert!(!doc.is_valid());
}

#[test]
fn panels_are_checked() {
    let mut e = EditorPanel::new();
    assert!(e.is_valid());
    e.mode = Mode::PlacingStamp;
    assert!(e.is_valid());
    e.selection = Selection::Stamp(0);
    assert!(!e.is_valid());
    e.mode = Mode::Dragging {
        target: Selection::Stamp(0),
        kind: DragKind::Move,
        offset: Point { x: 0, y: 0 },
    };
    assert!(e.is_valid());
    e.mode = Mode::Dragging {
        target: Selection::Stamp(1),
        kind: DragKind::Move,
        offset: Point { x: 0, y: 0 },
    };
    assert!(!e.is_valid());
    e.mode = Mode::EditingText { target: 0 };
    assert!(!e.is_valid());
    e.selection = Selection::Text(0);
    assert!(e.is_valid());
    e.mode = Mode::Idle;
    e.text_font_size = -1;
    assert!(!e.is_valid());
    e.text_font_size = 24_000;
    e.zoom = Zoom { quarters: 0 };
    assert!(!e.is_valid());
}

#[test]
fn drawn_rectangle_is_previewed() {
    let page = PageView { page_index: 0, rotation: 0, orig_w: 612_000, orig_h: 792_000 };
    let mut e = EditorPanel::new();
    assert_eq!(e.rect_preview(Point { x: 1, y: 1 }), None);
    e.toggle_placing_rect();
    assert_eq!(e.rect_preview(Point { x: 1, y: 1 }), None);
    e.drag_start(Point { x: 100_000, y: 200_000 }, page, &vec![], &vec![], &vec![]);
    assert_eq!(
        e.rect_preview(Point { x: 40_000, y: 260_000 }),
        Some(pdf_viewer::geometry::CanvasBox { left: 40_000, top: 200_000, right: 100_000, bottom: 260_000 })
    );
}

#[test]
fn selected_box_follows_the_selection() {
    let page = PageView { page_index: 0, rotation: 0, orig_w: 612_000, orig_h: 792_000 };
    let stamps = vec![Stamp::new(0, 100_000, 100_000, StampType::Approved)];
    let texts = vec![TextAnnotation::new(0, 10_000, 20_000, "ab\ncde".to_string(), 10_000, FontType::Gothic, true)];
    let rects = vec![RectAnnotation { page: 0, x: 1_000, y: 2_000, width: 3_000, height: 4_000, color: [0, 0, 0, 255] }];
    let mut e = EditorPanel::new();
    assert_eq!(e.selected_box(page, &stamps, &texts, &rects), None);
    e.selection = Selection::Stamp(0);
    assert_eq!(
        e.selected_box(page, &stamps, &texts, &rects),
        Some(pdf_viewer::geometry::CanvasBox { left: 100_000, top: 100_000, right: 200_000, bottom: 150_000 })
    );
    e.selection = Selection::Text(0);
    assert_eq!(
        e.selected_box(page, &stamps, &texts, &rects),
        Some(pdf_viewer::geometry::CanvasBox { left: 10_000, top: 20_000, right: 28_000, bottom: 44_000 })
    );
    e.selection = Selection::Rect(0);
    assert_eq!(
        e.selected_box(page, &stamps, &texts, &rects),
        Some(pdf_viewer::geometry::CanvasBox { left: 1_000, top: 2_000, right: 4_000, bottom: 6_000 })
    );
    e.selection = Selection::Rect(1);
    assert_eq!(e.selected_box(page, &stamps, &texts, &rects), None);
}

#[test]
fn coordinates_are_checked() {
    assert!(pdf_viewer::annotation::coord_ok(0));
    assert!(pdf_viewer::annotation::coord_ok(COORD_LIMIT));
    assert!(pdf_viewer::annotation::coord_ok(-COORD_LIMIT));
    assert!(!pdf_viewer::annotation::coord_ok(COORD_LIMIT + 1));
    assert!(!pdf_viewer::annotation::coord_ok(i64::MIN));
}
