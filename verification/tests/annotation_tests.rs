use pdf_viewer::annotation::default_rect_color;
use pdf_viewer::annotation::default_transparent;
use pdf_viewer::annotation::FontType;
use pdf_viewer::annotation::RectAnnotation;
use pdf_viewer::annotation::Stamp;
use pdf_viewer::annotation::StampType;
use pdf_viewer::annotation::TextAnnotation;
use pdf_viewer::geometry::COORD_LIMIT;
use pdf_viewer::text_metrics::measure_lines;
use pdf_viewer::text_metrics::text_extent;

#[test]
fn stamp_names() {
    assert_eq!(StampType::Approved.name(), "approved");
    assert_eq!(StampType::Rejected.name(), "rejected");
    assert_eq!(StampType::Draft.name(), "draft");
    assert_eq!(StampType::Confidential.name(), "confidential");
    assert_eq!(StampType::Custom("seal".to_string()).name(), "seal");
}

#[test]
fn stamp_labels() {
    assert_eq!(StampType::Approved.label(), "承認");
    assert_eq!(StampType::Rejected.label(), "却下");
    assert_eq!(StampType::Draft.label(), "下書き");
    assert_eq!(StampType::Confidential.label(), "機密");
    assert_eq!(StampType::Custom("seal".to_string()).label(), "seal");
}

#[test]
fn builtin_stamps_in_order() {
    assert_eq!(
        StampType::builtin(),
        vec![StampType::Approved, StampType::Rejected, StampType::Draft, StampType::Confidential]
    );
}

#[test]
fn stamp_duplicate_is_equal() {
    let s = StampType::Custom("seal".to_string());
    assert_eq!(s.duplicate(), s);
    assert_eq!(StampType::Draft.duplicate(), StampType::Draft);
}

#[test]
fn new_stamp_has_builtin_size() {
    let s = Stamp::new(2, 10_000, 20_000, StampType::Draft);
    assert_eq!(s.page, 2);
    assert_eq!((s.x, s.y, s.width, s.height), (10_000, 20_000, 100_000, 50_000));
    assert_eq!(s.stamp_type, StampType::Draft);
    assert_eq!(s.rect(), (10_000, 20_000, 110_000, 70_000));
    assert!(s.is_valid());
}

#[test]
fn stamp_out_of_range_is_not_valid() {
    let mut s = Stamp::new(0, 0, 0, StampType::Approved);
    s.x = COORD_LIMIT + 1;
    assert!(!s.is_valid());
    s.x = COORD_LIMIT;
    assert!(s.is_valid());
    s.height = -COORD_LIMIT - 1;
    assert!(!s.is_valid());
}

#[test]
fn font_labels_and_default() {
    assert_eq!(FontType::Gothic.label(), "ゴシック");
    assert_eq!(FontType::Mincho.label(), "明朝");
    assert_eq!(FontType::default(), FontType::Gothic);
}

#[test]
fn record_defaults() {
    assert!(default_transparent());
    assert_eq!(default_rect_color(), [255, 255, 255, 255]);
}

#[test]
fn new_text_keeps_its_fields() {
    let t = TextAnnotation::new(1, 5, 6, "a\nb".to_string(), 12_000, FontType::Mincho, false);
    assert_eq!(t.page, 1);
    assert_eq!((t.x, t.y), (5, 6));
    assert_eq!(t.text, "a\nb");
    assert_eq!(t.font_size, 12_000);
    assert_eq!(t.font_type, FontType::Mincho);
    assert!(!t.transparent);
    assert!(t.is_valid());
}

#[test]
fn text_validity_limits() {
    let mut t = TextAnnotation::new(0, 0, 0, "x".to_string(), 1_000_000, FontType::Gothic, true);
    assert!(t.is_valid());
    t.font_size = 1_000_001;
    assert!(!t.is_valid());
    t.font_size = -1;
    assert!(!t.is_valid());
    t.font_size = 0;
    assert!(t.is_valid());
}

#[test]
fn rect_validity() {
    let mut r = RectAnnotation { page: 0, x: 0, y: 0, width: 10, height: 10, color: [0, 0, 0, 255] };
    assert!(r.is_valid());
    r.width = COORD_LIMIT + 1;
    assert!(!r.is_valid());
}

#[test]
fn lines_are_counted() {
    assert_eq!(measure_lines(""), (0, 1));
    assert_eq!(measure_lines("a"), (1, 1));
    assert_eq!(measure_lines("a\n"), (1, 1));
    assert_eq!(measure_lines("a\nb"), (2, 1));
    assert_eq!(measure_lines("\n"), (1, 0));
    assert_eq!(measure_lines("a\n\n"), (2, 1));
    assert_eq!(measure_lines("ab\ncde"), (2, 3));
    assert_eq!(measure_lines("abcd\ne"), (2, 4));
    assert_eq!(measure_lines("日本語\nab"), (2, 3));
}

#[test]
fn carriage_return_before_line_feed_does_not_count() {
    assert_eq!(measure_lines("abc\r\nde"), (2, 3));
    assert_eq!(measure_lines("abc\r"), (1, 4));
    assert_eq!(measure_lines("a\rb\n"), (1, 3));
    assert_eq!(measure_lines("\r\n"), (1, 0));
}

#[test]
fn lines_agree_with_std() {
    let samples = ["", "a", "a\n", "a\nb", "\n", "\n\n", "ab\r\ncd\r\n", "x\ny\nzzz", "\r", "a\r\n\r\nb"];
    for s in samples {
        let count = s.lines().count();
        let longest = s.lines().map(|l| l.chars().count()).max().unwrap_or(1);
        assert_eq!(measure_lines(s), (count, longest), "{:?}", s);
    }
}

#[test]
fn text_box_size() {
    assert_eq!(text_extent("hello", 24_000), (72_000, 28_800));
    assert_eq!(text_extent("ab\ncde", 10_000), (18_000, 24_000));
    assert_eq!(text_extent("", 10_000), (6_000, 12_000));
    assert_eq!(text_extent("abc", 0), (0, 0));
    assert_eq!(text_extent("a", 1), (0, 1));
}
