//! The three kinds of annotation and what belongs to them.  Every position
//! and size is stored in the unrotated space of its page.

use vstd::prelude::*;
use crate::geometry::in_range;
use crate::geometry::COORD_LIMIT;

verus! {

/// Width of a built-in stamp: 100 pt.
pub const STAMP_WIDTH: i64 = 100_000;

/// Height of a built-in stamp: 50 pt.
pub const STAMP_HEIGHT: i64 = 50_000;

/// Longer side of a custom stamp when it is placed: 100 pt.
pub const CUSTOM_STAMP_SIDE: i64 = 100_000;

/// Largest font size that an annotation can hold: 1000 pt.
pub const FONT_LIMIT: i64 = 1_000_000;

/// Largest number of characters that an annotation can hold.
pub const TEXT_LIMIT: usize = 1_000_000;

#[derive(Debug, Clone, PartialEq, Eq)]
pub enum StampType {
    Approved,
    Rejected,
    Draft,
    Confidential,
    /// A stamp whose image the application holds under this name.
    Custom(String),
}

impl StampType {
    pub open spec fn name_spec(self) -> Seq<char> {
        match self {
            StampType::Approved => "approved"@,
            StampType::Rejected => "rejected"@,
            StampType::Draft => "draft"@,
            StampType::Confidential => "confidential"@,
            StampType::Custom(name) => name@,
        }
    }

    pub open spec fn label_spec(self) -> Seq<char> {
        match self {
            StampType::Approved => "承認"@,
            StampType::Rejected => "却下"@,
            StampType::Draft => "下書き"@,
            StampType::Confidential => "機密"@,
            StampType::Custom(name) => name@,
        }
    }

    /// The name under which the stamp's image is found.
    pub fn name(&self) -> (r: String)
        ensures
            r@ == self.name_spec(),
    {
        match self {
            StampType::Approved => "approved".to_owned(),
            StampType::Rejected => "rejected".to_owned(),
            StampType::Draft => "draft".to_owned(),
            StampType::Confidential => "confidential".to_owned(),
            StampType::Custom(name) => name.clone(),
        }
    }

    /// The text that the stamp shows.
    pub fn label(&self) -> (r: String)
        ensures
            r@ == self.label_spec(),
    {
        match self {
            StampType::Approved => "承認".to_owned(),
            StampType::Rejected => "却下".to_owned(),
            StampType::Draft => "下書き".to_owned(),
            StampType::Confidential => "機密".to_owned(),
            StampType::Custom(name) => name.clone(),
        }
    }

    /// The built-in kinds, in the order in which they are offered.
    pub fn builtin() -> (r: Vec<StampType>)
        ensures
            r@ == seq![StampType::Approved, StampType::Rejected, StampType::Draft, StampType::Confidential],
    {
        let mut v: Vec<StampType> = Vec::new();
        v.push(StampType::Approved);
        v.push(StampType::Rejected);
        v.push(StampType::Draft);
        v.push(StampType::Confidential);
        proof {
            assert(v@ =~= seq![StampType::Approved, StampType::Rejected, StampType::Draft, StampType::Confidential]);
        }
        v
    }

    /// A second value of the same kind, with the same name.
    pub fn duplicate(&self) -> (r: StampType)
        ensures
            r == *self,
    {
        match self {
            StampType::Approved => StampType::Approved,
            StampType::Rejected => StampType::Rejected,
            StampType::Draft => StampType::Draft,
            StampType::Confidential => StampType::Confidential,
            StampType::Custom(name) => StampType::Custom(name.clone()),
        }
    }
}

/// What the application knows of an image that was registered as a stamp.
#[derive(Debug, Clone)]
pub struct CustomStampInfo {
    pub name: String,
    pub path: String,
    pub image_data: Vec<u8>,
}

/// A registered stamp image with its size in pixels.
#[derive(Debug, Clone)]
pub struct CustomStamp {
    pub name: String,
    pub path: String,
    pub image_data: Vec<u8>,
    pub width: u32,
    pub height: u32,
}

#[derive(Debug, Clone, PartialEq, Eq)]
pub struct Stamp {
    pub page: usize,
    pub x: i64,
    pub y: i64,
    pub width: i64,
    pub height: i64,
    pub stamp_type: StampType,
}

impl Stamp {
    pub open spec fn wf(self) -> bool {
        &&& in_range(self.x as int)
        &&& in_range(self.y as int)
        &&& in_range(self.width as int)
        &&& in_range(self.height as int)
    }

    /// A stamp of the built-in size whose top-left corner is `(x, y)`.
    pub fn new(page: usize, x: i64, y: i64, stamp_type: StampType) -> (s: Stamp)
        ensures
            s.page == page,
            s.x == x,
            s.y == y,
            s.width == STAMP_WIDTH,
            s.height == STAMP_HEIGHT,
            s.stamp_type == stamp_type,
    {
        Stamp { page, x, y, width: STAMP_WIDTH, height: STAMP_HEIGHT, stamp_type }
    }

    /// Left, top, right and bottom edge in PDF space.
    pub fn rect(&self) -> (r: (i64, i64, i64, i64))
        requires
            self.wf(),
        ensures
            r.0 == self.x,
            r.1 == self.y,
            r.2 == self.x + self.width,
            r.3 == self.y + self.height,
    {
        (self.x, self.y, self.x + self.width, self.y + self.height)
    }

    pub fn is_valid(&self) -> (b: bool)
        ensures
            b == self.wf(),
    {
        coord_ok(self.x) && coord_ok(self.y) && coord_ok(self.width) && coord_ok(self.height)
    }
}

pub fn coord_ok(v: i64) -> (b: bool)
    ensures
        b == in_range(v as int),
{
    -COORD_LIMIT <= v && v <= COORD_LIMIT
}

#[derive(Debug, Clone, Copy, PartialEq, Eq, Structural)]
pub enum FontType {
    Gothic,
    Mincho,
}

impl FontType {
    pub open spec fn label_spec(self) -> Seq<char> {
        match self {
            FontType::Gothic => "ゴシック"@,
            FontType::Mincho => "明朝"@,
        }
    }

    pub fn label(&self) -> (r: &'static str)
        ensures
            r@ == self.label_spec(),
    {
        match self {
            FontType::Gothic => "ゴシック",
            FontType::Mincho => "明朝",
        }
    }
}

impl Default for FontType {
    fn default() -> (r: FontType)
        ensures
            r == FontType::Gothic,
    {
        FontType::Gothic
    }
}

/// Whether a text annotation whose record names no background is
/// transparent: it is.
pub fn default_transparent() -> (b: bool)
    ensures
        b,
{
    true
}

#[derive(Debug, Clone, PartialEq, Eq)]
pub struct TextAnnotation {
    pub page: usize,
    pub x: i64,
    pub y: i64,
    pub text: String,
    pub font_size: i64,
    pub font_type: FontType,
    pub transparent: bool,
}

impl TextAnnotation {
    pub open spec fn wf(self) -> bool {
        &&& in_range(self.x as int)
        &&& in_range(self.y as int)
        &&& 0 <= self.font_size <= FONT_LIMIT
        &&& self.text@.len() <= TEXT_LIMIT
    }

    pub fn new(page: usize, x: i64, y: i64, text: String, font_size: i64, font_type: FontType, transparent: bool) -> (t: TextAnnotation)
        ensures
            t.page == page,
            t.x == x,
            t.y == y,
            t.text == text,
            t.font_size == font_size,
            t.font_type == font_type,
            t.transparent == transparent,
    {
        TextAnnotation { page, x, y, text, font_size, font_type, transparent }
    }

    pub fn is_valid(&self) -> (b: bool)
        ensures
            b == self.wf(),
    {
        coord_ok(self.x) && coord_ok(self.y) && 0 <= self.font_size && self.font_size <= FONT_LIMIT
            && self.text.as_str().unicode_len() <= TEXT_LIMIT
    }
}

/// The fill of a rectangle whose record names none: opaque white.
pub fn default_rect_color() -> (c: [u8; 4])
    ensures
        c@ == seq![255u8, 255u8, 255u8, 255u8],
{
    let c: [u8; 4] = [255, 255, 255, 255];
    proof {
        assert(c@ =~= seq![255u8, 255u8, 255u8, 255u8]);
    }
    c
}

/// A filled rectangle without a stroke, as used to cover content.
#[derive(Debug, Clone, Copy, PartialEq, Eq)]
pub struct RectAnnotation {
    pub page: usize,
    pub x: i64,
    pub y: i64,
    pub width: i64,
    pub height: i64,
    pub color: [u8; 4],
}

impl RectAnnotation {
    pub open spec fn wf(self) -> bool {
        &&& in_range(self.x as int)
        &&& in_range(self.y as int)
        &&& in_range(self.width as int)
        &&& in_range(self.height as int)
    }

    pub fn is_valid(&self) -> (b: bool)
        ensures
            b == self.wf(),
    {
        coord_ok(self.x) && coord_ok(self.y) && coord_ok(self.width) && coord_ok(self.height)
    }
}

} // verus!
