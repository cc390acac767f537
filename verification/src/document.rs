//! What the editor knows of an open document: the size of each page and the
//! angle by which it is shown.  The pages themselves stay with the rendering
//! service; a rotation changes how a page is shown and nothing in the file.

use vstd::prelude::*;
use crate::annotation::coord_ok;
use crate::geometry::in_range;
use crate::geometry::normalize_rotation_spec;
use crate::geometry::rotated_page_size;
use crate::geometry::rotated_size;
use crate::geometry::PageView;
use crate::raster::fitted_size;
use crate::raster::fitted_size_spec;

verus! {

/// Width of a page whose size is not known: 612 pt.
pub const DEFAULT_PAGE_WIDTH: i64 = 612_000;

/// Height of a page whose size is not known: 792 pt.
pub const DEFAULT_PAGE_HEIGHT: i64 = 792_000;

#[derive(Clone, Copy, PartialEq, Eq, Structural, Debug)]
pub enum DocumentError {
    /// The document has no page with that index.
    InvalidPage,
}

#[derive(Clone, Copy, PartialEq, Eq, Structural, Debug)]
pub enum OperationError {
    /// There is no document to merge.
    NothingToMerge,
    /// The first page is after the last, or the last is past the end.
    InvalidRange,
    /// The document has no page with that index.
    InvalidPage,
}

/// What the rendering service is asked for.
#[derive(Clone, Copy, PartialEq, Eq, Structural, Debug)]
pub struct RenderRequest {
    pub page_index: usize,
    pub target_width: u32,
    pub target_height: u32,
    pub rotation: i32,
}

#[derive(Debug, Clone, PartialEq, Eq)]
pub struct PdfDocument {
    pub path: String,
    pub page_sizes: Vec<(i64, i64)>,
    pub page_rotations: Vec<i32>,
}

pub open spec fn sizes_wf(sizes: Seq<(i64, i64)>) -> bool {
    forall|i: int| 0 <= i < sizes.len() ==> in_range((#[trigger] sizes[i]).0 as int) && in_range(sizes[i].1 as int)
}

/// Whether every size can be stored.
pub fn sizes_valid(sizes: &Vec<(i64, i64)>) -> (b: bool)
    ensures
        b == sizes_wf(sizes@),
{
    let mut i: usize = 0;
    while i < sizes.len()
        invariant
            i <= sizes.len(),
            forall|k: int| 0 <= k < i ==> in_range((#[trigger] sizes@[k]).0 as int) && in_range(sizes@[k].1 as int),
        decreases sizes.len() - i,
    {
        let s = sizes[i];
        if !(coord_ok(s.0) && coord_ok(s.1)) {
            return false;
        }
        i = i + 1;
    }
    true
}

/// Angles for `count` pages: those of `kept` as far as they go, then 0.
pub open spec fn refreshed_rotations(kept: Seq<i32>, count: nat) -> Seq<i32> {
    Seq::new(count, |i: int| if i < kept.len() { kept[i] } else { 0i32 })
}

fn rotations_for(kept: &Vec<i32>, count: usize) -> (r: Vec<i32>)
    ensures
        r@ == refreshed_rotations(kept@, count as nat),
{
    let mut r: Vec<i32> = Vec::new();
    let mut i: usize = 0;
    while i < count
        invariant
            i <= count,
            r@.len() == i,
            forall|k: int| 0 <= k < i ==> r@[k] == if k < kept@.len() { kept@[k] } else { 0i32 },
        decreases count - i,
    {
        let v: i32 = if i < kept.len() { kept[i] } else { 0 };
        r.push(v);
        i = i + 1;
    }
    proof {
        assert(r@ =~= refreshed_rotations(kept@, count as nat));
    }
    r
}

fn copy_sizes(v: &Vec<(i64, i64)>) -> (r: Vec<(i64, i64)>)
    ensures
        r@ == v@,
{
    let mut r: Vec<(i64, i64)> = Vec::new();
    let mut i: usize = 0;
    while i < v.len()
        invariant
            i <= v.len(),
            r@ == v@.take(i as int),
        decreases v.len() - i,
    {
        r.push(v[i]);
        proof {
            assert(r@ =~= v@.take(i + 1));
        }
        i = i + 1;
    }
    proof {
        assert(v@.take(v@.len() as int) =~= v@);
    }
    r
}

impl PdfDocument {
    pub open spec fn wf(self) -> bool {
        &&& self.page_sizes@.len() == self.page_rotations@.len()
        &&& sizes_wf(self.page_sizes@)
        &&& forall|i: int| 0 <= i < self.page_rotations@.len() ==> 0 <= #[trigger] self.page_rotations@[i] < 360
    }

    /// Angle by which page `page_index` is shown; 0 for a page that the
    /// document does not have.
    pub open spec fn rotation_of(self, page_index: int) -> int {
        if 0 <= page_index < self.page_rotations@.len() {
            self.page_rotations@[page_index] as int
        } else {
            0
        }
    }

    /// Unrotated size of page `page_index`; 612 pt by 792 pt for a page that
    /// the document does not have.
    pub open spec fn original_size_of(self, page_index: int) -> (int, int) {
        if 0 <= page_index < self.page_sizes@.len() {
            (self.page_sizes@[page_index].0 as int, self.page_sizes@[page_index].1 as int)
        } else {
            (DEFAULT_PAGE_WIDTH as int, DEFAULT_PAGE_HEIGHT as int)
        }
    }

    /// Size of page `page_index` as it is shown.
    pub open spec fn size_of(self, page_index: int) -> (int, int) {
        let o = self.original_size_of(page_index);
        rotated_size(o.0, o.1, self.rotation_of(page_index))
    }

    /// Whether the document is well formed.
    pub fn is_valid(&self) -> (b: bool)
        ensures
            b == self.wf(),
    {
        if self.page_sizes.len() != self.page_rotations.len() {
            return false;
        }
        if !sizes_valid(&self.page_sizes) {
            return false;
        }
        let mut i: usize = 0;
        while i < self.page_rotations.len()
            invariant
                i <= self.page_rotations@.len(),
                forall|k: int| 0 <= k < i ==> 0 <= #[trigger] self.page_rotations@[k] < 360,
            decreases self.page_rotations@.len() - i,
        {
            let r = self.page_rotations[i];
            if r < 0 || r >= 360 {
                return false;
            }
            i = i + 1;
        }
        true
    }

    /// A document at `path` whose pages have the sizes given, none of them
    /// rotated.  There is none where a size cannot be stored.
    pub fn new(path: String, page_sizes: Vec<(i64, i64)>) -> (r: Option<PdfDocument>)
        ensures
            r is Some == sizes_wf(page_sizes@),
            r is Some ==> {
                &&& r->0.wf()
                &&& r->0.path == path
                &&& r->0.page_sizes == page_sizes
                &&& r->0.page_rotations@ == Seq::new(page_sizes@.len(), |i: int| 0i32)
            },
    {
        if !sizes_valid(&page_sizes) {
            return None;
        }
        let none: Vec<i32> = Vec::new();
        let rotations = rotations_for(&none, page_sizes.len());
        proof {
            assert(rotations@ =~= Seq::new(page_sizes@.len(), |i: int| 0i32));
        }
        Some(PdfDocument { path, page_sizes, page_rotations: rotations })
    }

    /// Where the file of the document is.
    pub fn path(&self) -> (p: &str)
        ensures
            p@ == self.path@,
    {
        self.path.as_str()
    }

    pub fn page_count(&self) -> (n: usize)
        ensures
            n == self.page_sizes@.len(),
    {
        self.page_sizes.len()
    }

    pub fn get_page_rotation(&self, page_index: usize) -> (r: i32)
        ensures
            r == self.rotation_of(page_index as int),
    {
        if page_index < self.page_rotations.len() {
            self.page_rotations[page_index]
        } else {
            0
        }
    }

    pub fn original_page_size(&self, page_index: usize) -> (r: (i64, i64))
        ensures
            (r.0 as int, r.1 as int) == self.original_size_of(page_index as int),
    {
        if page_index < self.page_sizes.len() {
            self.page_sizes[page_index]
        } else {
            (DEFAULT_PAGE_WIDTH, DEFAULT_PAGE_HEIGHT)
        }
    }

    /// Size of a page as it is shown: a quarter turn swaps the sides.
    pub fn page_size(&self, page_index: usize) -> (r: (i64, i64))
        ensures
            (r.0 as int, r.1 as int) == self.size_of(page_index as int),
    {
        let o = self.original_page_size(page_index);
        rotated_page_size(o.0, o.1, self.get_page_rotation(page_index))
    }

    /// The page as a frame shows it.
    pub fn page_view(&self, page_index: usize) -> (v: PageView)
        requires
            self.wf(),
        ensures
            v.wf(),
            v.page_index == page_index,
            v.rotation == self.rotation_of(page_index as int),
            (v.orig_w as int, v.orig_h as int) == self.original_size_of(page_index as int),
    {
        let o = self.original_page_size(page_index);
        PageView { page_index, rotation: self.get_page_rotation(page_index), orig_w: o.0, orig_h: o.1 }
    }

    /// Turns a page by `degrees` more.  The angle kept is the remainder by
    /// 360 that is not negative.
    pub fn rotate_page(&mut self, page_index: usize, degrees: i32) -> (r: Result<(), DocumentError>)
        requires
            old(self).wf(),
        ensures
            final(self).wf(),
            final(self).path == old(self).path,
            final(self).page_sizes == old(self).page_sizes,
            page_index >= old(self).page_sizes@.len() ==> r == Err::<(), DocumentError>(DocumentError::InvalidPage)
                && *final(self) == *old(self),
            page_index < old(self).page_sizes@.len() ==> r is Ok && final(self).page_rotations@ == old(
                self,
            ).page_rotations@.update(
                page_index as int,
                normalize_rotation_spec(old(self).page_rotations@[page_index as int] + degrees) as i32,
            ),
    {
        if page_index >= self.page_sizes.len() {
            return Err(DocumentError::InvalidPage);
        }
        let current: i64 = self.page_rotations[page_index] as i64;
        let sum: i64 = current + degrees as i64;
        let m: i64 = sum % 360;
        let next: i64 = if m < 0 { m + 360 } else { m };
        self.page_rotations.set(page_index, next as i32);
        Ok(())
    }

    /// Takes the page sizes that the file now has.  Pages that stay keep
    /// their angle; new pages are not rotated.  Sizes that cannot be stored
    /// are not taken.
    pub fn refresh_page_count(&mut self, page_sizes: Vec<(i64, i64)>) -> (taken: bool)
        requires
            old(self).wf(),
        ensures
            final(self).wf(),
            taken == sizes_wf(page_sizes@),
            !taken ==> *final(self) == *old(self),
            taken ==> {
                &&& final(self).path == old(self).path
                &&& final(self).page_sizes == page_sizes
                &&& final(self).page_rotations@ == refreshed_rotations(
                    old(self).page_rotations@,
                    page_sizes@.len(),
                )
            },
    {
        if !sizes_valid(&page_sizes) {
            return false;
        }
        let rotations = rotations_for(&self.page_rotations, page_sizes.len());
        self.page_rotations = rotations;
        self.page_sizes = page_sizes;
        true
    }

    /// What to ask of the rendering service for a bitmap of a page that
    /// fits into `width` by `height` pixels; nothing for a page that the
    /// document does not have.
    pub fn render_request(&self, page_index: usize, width: u32, height: u32) -> (r: Option<RenderRequest>)
        requires
            self.wf(),
        ensures
            r is Some == (page_index < self.page_sizes@.len()),
            r is Some ==> {
                let size = self.size_of(page_index as int);
                let fit = fitted_size_spec(size.0, size.1, width as int, height as int);
                r->0 == (RenderRequest {
                    page_index: page_index,
                    target_width: fit.0 as u32,
                    target_height: fit.1 as u32,
                    rotation: self.page_rotations@[page_index as int],
                })
            },
    {
        if page_index >= self.page_sizes.len() {
            return None;
        }
        let size = self.page_size(page_index);
        let fit = fitted_size(size.0, size.1, width, height);
        Some(
            RenderRequest {
                page_index,
                target_width: fit.0,
                target_height: fit.1,
                rotation: self.page_rotations[page_index],
            },
        )
    }

    /// As `render_request`, for a thumbnail of at most `max_width` by
    /// `max_height` pixels.
    pub fn render_page_thumbnail(&self, page_index: usize, max_width: u32, max_height: u32) -> (r: Option<
        RenderRequest,
    >)
        requires
            self.wf(),
        ensures
            r is Some == (page_index < self.page_sizes@.len()),
            r is Some ==> {
                let size = self.size_of(page_index as int);
                let thumb = fitted_size_spec(size.0, size.1, max_width as int, max_height as int);
                let fit = fitted_size_spec(size.0, size.1, thumb.0, thumb.1);
                r->0 == (RenderRequest {
                    page_index: page_index,
                    target_width: fit.0 as u32,
                    target_height: fit.1 as u32,
                    rotation: self.page_rotations@[page_index as int],
                })
            },
    {
        let size = self.page_size(page_index);
        if page_index >= self.page_sizes.len() {
            return None;
        }
        let thumb = fitted_size(size.0, size.1, max_width, max_height);
        self.render_request(page_index, thumb.0, thumb.1)
    }

    /// A second document with the same path, sizes and angles.
    pub fn duplicate(&self) -> (r: PdfDocument)
        ensures
            r.path == self.path,
            r.page_sizes@ == self.page_sizes@,
            r.page_rotations@ == self.page_rotations@,
            self.wf() ==> r.wf(),
    {
        let rotations = rotations_for(&self.page_rotations, self.page_rotations.len());
        proof {
            assert(rotations@ =~= self.page_rotations@);
        }
        PdfDocument { path: self.path.clone(), page_sizes: copy_sizes(&self.page_sizes), page_rotations: rotations }
    }
}

/// Operations on whole documents.
pub struct PdfOperations;

impl PdfOperations {
    pub fn rotate_page(doc: &mut PdfDocument, page_index: usize, degrees: i32) -> (r: Result<(), OperationError>)
        requires
            old(doc).wf(),
        ensures
            final(doc).wf(),
            final(doc).path == old(doc).path,
            final(doc).page_sizes == old(doc).page_sizes,
            page_index >= old(doc).page_sizes@.len() ==> r == Err::<(), OperationError>(OperationError::InvalidPage)
                && *final(doc) == *old(doc),
            page_index < old(doc).page_sizes@.len() ==> r is Ok && final(doc).page_rotations@ == old(
                doc,
            ).page_rotations@.update(
                page_index as int,
                normalize_rotation_spec(old(doc).page_rotations@[page_index as int] + degrees) as i32,
            ),
    {
        match doc.rotate_page(page_index, degrees) {
            Ok(()) => Ok(()),
            Err(_) => Err(OperationError::InvalidPage),
        }
    }

    /// The merged document: as yet the first of `documents`.  Fails where
    /// there is none.
    pub fn merge(documents: &Vec<PdfDocument>) -> (r: Result<PdfDocument, OperationError>)
        ensures
            documents@.len() == 0 ==> r == Err::<PdfDocument, OperationError>(OperationError::NothingToMerge),
            documents@.len() > 0 ==> r is Ok && r->Ok_0.path == documents@[0].path && r->Ok_0.page_sizes@
                == documents@[0].page_sizes@ && r->Ok_0.page_rotations@ == documents@[0].page_rotations@,
    {
        if documents.len() == 0 {
            return Err(OperationError::NothingToMerge);
        }
        Ok(documents[0].duplicate())
    }

    /// Checks the page range `start..end` of a split: `start` is the index
    /// of the first page, `end` one past that of the last.
    pub fn split(doc: &PdfDocument, start: usize, end: usize) -> (r: Result<(), OperationError>)
        ensures
            r is Ok == (start <= end && end <= doc.page_sizes@.len()),
            r is Err ==> r == Err::<(), OperationError>(OperationError::InvalidRange),
    {
        if start > end || end > doc.page_count() {
            return Err(OperationError::InvalidRange);
        }
        Ok(())
    }

    /// The range to split for a first and a last page as the user counts
    /// them, from 1; nothing where they name no range of the document.
    pub fn split_range(first: usize, last: usize, page_count: usize) -> (r: Option<(usize, usize)>)
        ensures
            r is Some == (first > 0 && last <= page_count && first <= last),
            r is Some ==> r->0 == (((first - 1) as usize, last)),
    {
        if first > 0 && last <= page_count && first <= last {
            Some((first - 1, last))
        } else {
            None
        }
    }
}

} // verus!
