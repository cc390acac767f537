use pdf_viewer::annotation::FontType;
use pdf_viewer::annotation::RectAnnotation;
use pdf_viewer::annotation::Stamp;
use pdf_viewer::annotation::StampType;
use pdf_viewer::annotation::TextAnnotation;
use pdf_viewer::panels::ClipboardItem;
use pdf_viewer::document::DocumentError;
use pdf_viewer::panels::FileExplorerResult;
use pdf_viewer::document::OperationError;
use pdf_viewer::document::PdfDocument;
use pdf_viewer::document::PdfOperations;
use pdf_viewer::document::RenderRequest;
use pdf_viewer::panels::ThumbnailResult;
use pdf_viewer::document::sizes_valid;
use pdf_viewer::geometry::PageView;
use pdf_viewer::geometry::COORD_LIMIT;
use pdf_viewer::intent::apply;
use pdf_viewer::intent::EditorResult;
use pdf_viewer::intent::Intent;
use pdf_viewer::raster::base_render_size;
use pdf_viewer::raster::cache_key;
use pdf_viewer::raster::fitted_size;
use pdf_viewer::raster::CacheKey;
use pdf_viewer::raster::RasterCache;

fn lists() -> (Vec<Stamp>, Vec<TextAnnotation>, Vec<RectAnnotation>) {
    (
        vec![Stamp::new(0, 1, 2, StampType::Approved), Stamp::new(1, 3, 4, StampType::Custom("seal".to_string()))],
        vec![TextAnnotation::new(0, 5, 6, "one\ntwo".to_string(), 12_000, FontType::Gothic, true)],
        vec![RectAnnotation { page: 0, x: 7, y: 8, width: 9, height: 10, color: [1, 2, 3, 4] }],
    )
}

#[test]
fn new_annotations_go_to_the_end() {
    let (mut s, mut t, mut r) = lists();
    assert!(apply(Intent::NewStamp(Stamp::new(2, 9, 9, StampType::Draft)), &mut s, &mut t, &mut r));
    assert_eq!(s.len(), 3);
    assert_eq!(s[2], Stamp::new(2, 9, 9, StampType::Draft));
    let text = TextAnnotation::new(0, 0, 0, "x".to_string(), 8_000, FontType::Mincho, false);
    assert!(apply(Intent::NewText(text.clone()), &mut s, &mut t, &mut r));
    assert_eq!(t[1], text);
    let rect = RectAnnotation { page: 3, x: 0, y: 0, width: 6_000, height: 6_000, color: [255, 255, 255, 255] };
    assert!(apply(Intent::NewRect(rect), &mut s, &mut t, &mut r));
    assert_eq!(r[1], rect);
}

#[test]
fn deletes_remove_by_index() {
    let (mut s, mut t, mut r) = lists();
    assert!(apply(Intent::DeleteStamp(0), &mut s, &mut t, &mut r));
    assert_eq!(s, vec![Stamp::new(1, 3, 4, StampType::Custom("seal".to_string()))]);
    assert!(apply(Intent::DeleteText(0), &mut s, &mut t, &mut r));
    assert!(t.is_empty());
    assert!(apply(Intent::DeleteRect(0), &mut s, &mut t, &mut r));
    assert!(r.is_empty());
}

#[test]
fn stale_indices_change_nothing() {
    let (mut s, mut t, mut r) = lists();
    let before = lists();
    let stale = vec![
        Intent::DeleteStamp(2),
        Intent::MoveStamp(2, 1, 1),
        Intent::ResizeStamp(9, 20_000, 20_000),
        Intent::DeleteText(1),
        Intent::MoveText(1, 1, 1),
        Intent::ResizeText(1, 9_000),
        Intent::EditText(1, "x".to_string(), FontType::Gothic, true),
        Intent::DeleteRect(1),
        Intent::MoveRect(1, 1, 1),
        Intent::ResizeRect(usize::MAX, 10_000, 10_000),
        Intent::DeleteCustomStamp(0),
        Intent::RegisterStamp,
    ];
    for intent in stale {
        assert!(!apply(intent, &mut s, &mut t, &mut r));
        assert_eq!((s.clone(), t.clone(), r.clone()), before);
    }
}

#[test]
fn moves_and_resizes_change_one_annotation() {
    let (mut s, mut t, mut r) = lists();
    assert!(apply(Intent::MoveStamp(1, 30, 40), &mut s, &mut t, &mut r));
    assert_eq!(s[1], Stamp {
        page: 1,
        x: 30,
        y: 40,
        width: 100_000,
        height: 50_000,
        stamp_type: StampType::Custom("seal".to_string())
    });
    assert_eq!(s[0], Stamp::new(0, 1, 2, StampType::Approved));
    assert!(apply(Intent::ResizeStamp(0, 20_000, 25_000), &mut s, &mut t, &mut r));
    assert_eq!((s[0].x, s[0].y, s[0].width, s[0].height), (1, 2, 20_000, 25_000));
    assert!(apply(Intent::MoveText(0, 50, 60), &mut s, &mut t, &mut r));
    assert!(apply(Intent::ResizeText(0, 40_000), &mut s, &mut t, &mut r));
    assert_eq!(t[0], TextAnnotation::new(0, 50, 60, "one\ntwo".to_string(), 40_000, FontType::Gothic, true));
    assert!(apply(Intent::EditText(0, "three".to_string(), FontType::Mincho, false), &mut s, &mut t, &mut r));
    assert_eq!(t[0], TextAnnotation::new(0, 50, 60, "three".to_string(), 40_000, FontType::Mincho, false));
    assert!(apply(Intent::MoveRect(0, 70, 80), &mut s, &mut t, &mut r));
    assert!(apply(Intent::ResizeRect(0, 10_000, 11_000), &mut s, &mut t, &mut r));
    assert_eq!(r[0], RectAnnotation { page: 0, x: 70, y: 80, width: 10_000, height: 11_000, color: [1, 2, 3, 4] });
}

#[test]
fn result_slots_are_filled() {
    let mut res = EditorResult::default();
    assert_eq!(res.new_stamp, None);
    assert_eq!(res.edit_text, None);
    assert!(!res.register_stamp_clicked);
    res.record(Intent::MoveStamp(1, 2, 3));
    res.record(Intent::DeleteText(4));
    res.record(Intent::ResizeText(5, 9_000));
    res.record(Intent::EditText(6, "x".to_string(), FontType::Mincho, false));
    res.record(Intent::RegisterStamp);
    res.record(Intent::NewStamp(Stamp::new(0, 0, 0, StampType::Draft)));
    res.record(Intent::DeleteCustomStamp(7));
    res.record(Intent::ResizeRect(8, 10_000, 10_000));
    assert_eq!(res.move_stamp, Some((1, 2, 3)));
    assert_eq!(res.delete_text, Some(4));
    assert_eq!(res.resize_text, Some((5, 9_000)));
    assert_eq!(res.edit_text, Some((6, "x".to_string(), FontType::Mincho, false)));
    assert!(res.register_stamp_clicked);
    assert_eq!(res.new_stamp, Some(Stamp::new(0, 0, 0, StampType::Draft)));
    assert_eq!(res.delete_custom_stamp, Some(7));
    assert_eq!(res.resize_rect, Some((8, 10_000, 10_000)));
    assert_eq!(res.delete_stamp, None);
    assert_eq!(res.move_rect, None);
}

#[test]
fn render_size_is_capped() {
    assert_eq!(base_render_size(612_000, 792_000), (612, 792));
    assert_eq!(base_render_size(800_000, 800_000), (800, 800));
    assert_eq!(base_render_size(1_600_000, 800_000), (800, 400));
    assert_eq!(base_render_size(1_000_000, 3_000_000), (266, 800));
    assert_eq!(base_render_size(612_999, 1), (612, 0));
    assert_eq!(base_render_size(-5, 100_000), (0, 100));
    assert_eq!(base_render_size(0, 0), (0, 0));
}

#[test]
fn size_is_fitted_into_a_frame() {
    assert_eq!(fitted_size(612_000, 792_000, 150, 200), (150, 194));
    assert_eq!(fitted_size(792_000, 612_000, 150, 200), (150, 115));
    assert_eq!(fitted_size(100_000, 400_000, 150, 200), (50, 200));
    assert_eq!(fitted_size(0, 400_000, 150, 200), (0, 0));
    assert_eq!(fitted_size(COORD_LIMIT, COORD_LIMIT, u32::MAX, u32::MAX), (u32::MAX, u32::MAX));
}

#[test]
fn cache_key_of_a_page() {
    let page = PageView { page_index: 3, rotation: 270, orig_w: 1_600_000, orig_h: 800_000 };
    assert_eq!(cache_key(page), CacheKey { page_index: 3, rotation: 270, base_width: 400, base_height: 800 });
}

#[test]
fn cache_drops_bitmap_on_new_key() {
    let a = CacheKey { page_index: 0, rotation: 0, base_width: 612, base_height: 792 };
    let b = CacheKey { page_index: 0, rotation: 90, base_width: 792, base_height: 612 };
    let mut c = RasterCache::new();
    assert!(c.needs_render());
    c.rendered(true);
    assert!(c.needs_render());
    assert!(c.retarget(a));
    c.rendered(true);
    assert!(!c.needs_render());
    assert!(!c.retarget(a));
    assert!(!c.needs_render());
    assert!(c.retarget(b));
    assert!(c.needs_render());
    c.rendered(false);
    assert!(c.needs_render());
    c.rendered(true);
    c.invalidate();
    assert!(c.needs_render());
    assert_eq!(c.key, Some(b));
}

#[test]
fn document_pages() {
    let doc = PdfDocument::new("a.pdf".to_string(), vec![(612_000, 792_000), (500_000, 300_000)]).unwrap();
    assert_eq!(doc.page_count(), 2);
    assert_eq!(doc.path, "a.pdf");
    assert_eq!(doc.path(), "a.pdf");
    assert_eq!(doc.page_rotations, vec![0, 0]);
    assert_eq!(doc.page_size(1), (500_000, 300_000));
    assert_eq!(doc.original_page_size(1), (500_000, 300_000));
    assert_eq!(doc.page_size(5), (612_000, 792_000));
    assert_eq!(doc.get_page_rotation(5), 0);
    assert_eq!(doc.page_view(1), PageView { page_index: 1, rotation: 0, orig_w: 500_000, orig_h: 300_000 });
}

#[test]
fn document_refuses_sizes_out_of_range() {
    assert!(sizes_valid(&vec![(COORD_LIMIT, -COORD_LIMIT)]));
    assert!(!sizes_valid(&vec![(1, 1), (COORD_LIMIT + 1, 1)]));
    assert_eq!(PdfDocument::new("a.pdf".to_string(), vec![(1, COORD_LIMIT + 1)]), None);
}

#[test]
fn document_rotation_accumulates() {
    let mut doc = PdfDocument::new("a.pdf".to_string(), vec![(612_000, 792_000), (500_000, 300_000)]).unwrap();
    assert_eq!(doc.rotate_page(0, 90), Ok(()));
    assert_eq!(doc.get_page_rotation(0), 90);
    assert_eq!(doc.page_size(0), (792_000, 612_000));
    assert_eq!(doc.original_page_size(0), (612_000, 792_000));
    assert_eq!(doc.rotate_page(0, 270), Ok(()));
    assert_eq!(doc.get_page_rotation(0), 0);
    assert_eq!(doc.rotate_page(0, -90), Ok(()));
    assert_eq!(doc.get_page_rotation(0), 270);
    assert_eq!(doc.rotate_page(0, i32::MAX), Ok(()));
    assert_eq!(doc.get_page_rotation(0), 37);
    assert_eq!(doc.get_page_rotation(1), 0);
    assert_eq!(doc.rotate_page(2, 90), Err(DocumentError::InvalidPage));
    assert_eq!(PdfOperations::rotate_page(&mut doc, 1, 180), Ok(()));
    assert_eq!(doc.get_page_rotation(1), 180);
    assert_eq!(PdfOperations::rotate_page(&mut doc, 7, 180), Err(OperationError::InvalidPage));
}

#[test]
fn document_refresh_keeps_angles() {
    let mut doc = PdfDocument::new("a.pdf".to_string(), vec![(1, 2), (3, 4)]).unwrap();
    doc.rotate_page(1, 90).unwrap();
    assert!(doc.refresh_page_count(vec![(5, 6), (7, 8), (9, 10)]));
    assert_eq!(doc.page_sizes, vec![(5, 6), (7, 8), (9, 10)]);
    assert_eq!(doc.page_rotations, vec![0, 90, 0]);
    assert!(doc.refresh_page_count(vec![(5, 6)]));
    assert_eq!(doc.page_rotations, vec![0]);
    assert!(!doc.refresh_page_count(vec![(COORD_LIMIT + 1, 6)]));
    assert_eq!(doc.page_sizes, vec![(5, 6)]);
}

#[test]
fn render_requests() {
    let mut doc = PdfDocument::new("a.pdf".to_string(), vec![(612_000, 792_000)]).unwrap();
    assert_eq!(
        doc.render_request(0, 612, 792),
        Some(RenderRequest { page_index: 0, target_width: 612, target_height: 792, rotation: 0 })
    );
    assert_eq!(doc.render_request(1, 612, 792), None);
    doc.rotate_page(0, 90).unwrap();
    assert_eq!(
        doc.render_request(0, 400, 400),
        Some(RenderRequest { page_index: 0, target_width: 400, target_height: 309, rotation: 90 })
    );
    assert_eq!(
        doc.render_page_thumbnail(0, 150, 200),
        Some(RenderRequest { page_index: 0, target_width: 148, target_height: 115, rotation: 90 })
    );
    assert_eq!(doc.render_page_thumbnail(3, 150, 200), None);
}

#[test]
fn merge_and_split() {
    assert_eq!(PdfOperations::merge(&vec![]), Err(OperationError::NothingToMerge));
    let mut a = PdfDocument::new("a.pdf".to_string(), vec![(1, 2), (3, 4)]).unwrap();
    a.rotate_page(1, 90).unwrap();
    let b = PdfDocument::new("b.pdf".to_string(), vec![(5, 6)]).unwrap();
    assert_eq!(PdfOperations::merge(&vec![a.clone(), b]), Ok(a.clone()));
    assert_eq!(a.duplicate(), a);
    assert_eq!(PdfOperations::split(&a, 0, 2), Ok(()));
    assert_eq!(PdfOperations::split(&a, 2, 2), Ok(()));
    assert_eq!(PdfOperations::split(&a, 2, 1), Err(OperationError::InvalidRange));
    assert_eq!(PdfOperations::split(&a, 0, 3), Err(OperationError::InvalidRange));
    assert_eq!(PdfOperations::split_range(1, 2, 2), Some((0, 2)));
    assert_eq!(PdfOperations::split_range(0, 2, 2), None);
    assert_eq!(PdfOperations::split_range(2, 1, 2), None);
    assert_eq!(PdfOperations::split_range(1, 3, 2), None);
}

#[test]
fn empty_frame_results() {
    let t = ThumbnailResult::default();
    assert_eq!((t.selected_page, t.page_reorder, t.page_deleted, t.page_rotated), (None, None, None, None));
    let f = FileExplorerResult::default();
    assert_eq!(f.selected_folder, None);
    assert_eq!(f.file_moved, None);
    assert_eq!(f.drop_target_folder, None);
    let c = ClipboardItem { path: "x".to_string(), is_cut: true };
    assert_eq!(c.clone(), c);
}

#[test]
fn intents_come_out_in_order() {
    assert_eq!(EditorResult::default().intents(), vec![]);
    let mut res = EditorResult::default();
    res.record(Intent::RegisterStamp);
    res.record(Intent::EditText(6, "x".to_string(), FontType::Mincho, false));
    res.record(Intent::ResizeRect(8, 10_000, 10_000));
    res.record(Intent::MoveText(2, 3, 4));
    res.record(Intent::DeleteRect(5));
    res.record(Intent::DeleteStamp(1));
    res.record(Intent::NewText(TextAnnotation::new(0, 0, 0, "t".to_string(), 8_000, FontType::Gothic, true)));
    res.record(Intent::NewStamp(Stamp::new(0, 0, 0, StampType::Draft)));
    res.record(Intent::DeleteCustomStamp(7));
    assert_eq!(
        res.intents(),
        vec![
            Intent::NewStamp(Stamp::new(0, 0, 0, StampType::Draft)),
            Intent::NewText(TextAnnotation::new(0, 0, 0, "t".to_string(), 8_000, FontType::Gothic, true)),
            Intent::DeleteStamp(1),
            Intent::DeleteRect(5),
            Intent::MoveText(2, 3, 4),
            Intent::ResizeRect(8, 10_000, 10_000),
            Intent::EditText(6, "x".to_string(), FontType::Mincho, false),
            Intent::DeleteCustomStamp(7),
            Intent::RegisterStamp,
        ]
    );
}

#[test]
fn every_slot_hands_out_its_intent() {
    let all = vec![
        Intent::NewStamp(Stamp::new(0, 1, 2, StampType::Approved)),
        Intent::NewText(TextAnnotation::new(0, 0, 0, "t".to_string(), 8_000, FontType::Gothic, true)),
        Intent::NewRect(RectAnnotation { page: 0, x: 0, y: 0, width: 6_000, height: 6_000, color: [9, 9, 9, 9] }),
        Intent::DeleteStamp(1),
        Intent::DeleteText(2),
        Intent::DeleteRect(3),
        Intent::MoveStamp(4, 1, 2),
        Intent::MoveText(5, 3, 4),
        Intent::MoveRect(6, 5, 6),
        Intent::ResizeStamp(7, 20_000, 21_000),
        Intent::ResizeText(8, 9_000),
        Intent::ResizeRect(9, 10_000, 11_000),
        Intent::EditText(10, "e".to_string(), FontType::Mincho, true),
        Intent::DeleteCustomStamp(11),
        Intent::RegisterStamp,
    ];
    let mut res = EditorResult::default();
    for intent in all.iter().rev() {
        res.record(intent.clone());
    }
    assert_eq!(res.intents(), all);
}
