//! What the editor asks its caller to change.  The editor never touches the
//! annotation lists: it hands out intents, each naming its target by index,
//! and the owner of the lists applies them.

use vstd::prelude::*;
use crate::annotation::FontType;
use crate::annotation::RectAnnotation;
use crate::annotation::Stamp;
use crate::annotation::TextAnnotation;
use crate::annotation::FONT_LIMIT;
use crate::annotation::TEXT_LIMIT;
use crate::geometry::in_range;
use crate::hit_test::rects_wf;
use crate::hit_test::stamps_wf;
use crate::hit_test::texts_wf;

verus! {

/// One change that the editor asks for.
#[derive(Debug, Clone, PartialEq, Eq)]
pub enum Intent {
    NewStamp(Stamp),
    NewText(TextAnnotation),
    NewRect(RectAnnotation),
    DeleteStamp(usize),
    DeleteText(usize),
    DeleteRect(usize),
    /// Index, new x, new y.
    MoveStamp(usize, i64, i64),
    MoveText(usize, i64, i64),
    MoveRect(usize, i64, i64),
    /// Index, new width, new height.
    ResizeStamp(usize, i64, i64),
    /// Index, new font size.
    ResizeText(usize, i64),
    ResizeRect(usize, i64, i64),
    /// Index, new text, font, transparency.
    EditText(usize, String, FontType, bool),
    DeleteCustomStamp(usize),
    RegisterStamp,
}

impl Intent {
    /// Whether every value that the intent carries can be stored.
    pub open spec fn wf(self) -> bool {
        match self {
            Intent::NewStamp(s) => s.wf(),
            Intent::NewText(t) => t.wf(),
            Intent::NewRect(r) => r.wf(),
            Intent::MoveStamp(_, x, y) => in_range(x as int) && in_range(y as int),
            Intent::MoveText(_, x, y) => in_range(x as int) && in_range(y as int),
            Intent::MoveRect(_, x, y) => in_range(x as int) && in_range(y as int),
            Intent::ResizeStamp(_, w, h) => in_range(w as int) && in_range(h as int),
            Intent::ResizeRect(_, w, h) => in_range(w as int) && in_range(h as int),
            Intent::ResizeText(_, size) => 0 <= size <= FONT_LIMIT,
            Intent::EditText(_, text, _, _) => text@.len() <= TEXT_LIMIT,
            _ => true,
        }
    }
}

/// The intents of one frame, one slot for each kind of change.
#[derive(Debug, Clone, PartialEq, Eq)]
pub struct EditorResult {
    pub new_stamp: Option<Stamp>,
    pub new_text: Option<TextAnnotation>,
    pub new_rect: Option<RectAnnotation>,
    pub delete_stamp: Option<usize>,
    pub delete_text: Option<usize>,
    pub delete_rect: Option<usize>,
    pub move_stamp: Option<(usize, i64, i64)>,
    pub move_text: Option<(usize, i64, i64)>,
    pub move_rect: Option<(usize, i64, i64)>,
    pub resize_stamp: Option<(usize, i64, i64)>,
    pub resize_text: Option<(usize, i64)>,
    pub resize_rect: Option<(usize, i64, i64)>,
    pub edit_text: Option<(usize, String, FontType, bool)>,
    pub delete_custom_stamp: Option<usize>,
    pub register_stamp_clicked: bool,
}

impl EditorResult {
    /// The result of a frame in which nothing happened.
    pub open spec fn empty() -> EditorResult {
        EditorResult {
            new_stamp: None,
            new_text: None,
            new_rect: None,
            delete_stamp: None,
            delete_text: None,
            delete_rect: None,
            move_stamp: None,
            move_text: None,
            move_rect: None,
            resize_stamp: None,
            resize_text: None,
            resize_rect: None,
            edit_text: None,
            delete_custom_stamp: None,
            register_stamp_clicked: false,
        }
    }

    /// `self` with the slot of `intent` filled, the other slots as they were.
    pub open spec fn with(self, intent: Intent) -> EditorResult {
        match intent {
            Intent::NewStamp(s) => EditorResult { new_stamp: Some(s), ..self },
            Intent::NewText(t) => EditorResult { new_text: Some(t), ..self },
            Intent::NewRect(r) => EditorResult { new_rect: Some(r), ..self },
            Intent::DeleteStamp(i) => EditorResult { delete_stamp: Some(i), ..self },
            Intent::DeleteText(i) => EditorResult { delete_text: Some(i), ..self },
            Intent::DeleteRect(i) => EditorResult { delete_rect: Some(i), ..self },
            Intent::MoveStamp(i, x, y) => EditorResult { move_stamp: Some((i, x, y)), ..self },
            Intent::MoveText(i, x, y) => EditorResult { move_text: Some((i, x, y)), ..self },
            Intent::MoveRect(i, x, y) => EditorResult { move_rect: Some((i, x, y)), ..self },
            Intent::ResizeStamp(i, w, h) => EditorResult { resize_stamp: Some((i, w, h)), ..self },
            Intent::ResizeText(i, size) => EditorResult { resize_text: Some((i, size)), ..self },
            Intent::ResizeRect(i, w, h) => EditorResult { resize_rect: Some((i, w, h)), ..self },
            Intent::EditText(i, text, font, transparent) => EditorResult {
                edit_text: Some((i, text, font, transparent)),
                ..self
            },
            Intent::DeleteCustomStamp(i) => EditorResult { delete_custom_stamp: Some(i), ..self },
            Intent::RegisterStamp => EditorResult { register_stamp_clicked: true, ..self },
        }
    }

    /// The intents that the slots hold, in the order in which they are to
    /// be applied: additions, then deletions, moves, resizes and the edit,
    /// and within each of these stamp, text, rectangle; last what concerns
    /// the custom stamps.
    pub open spec fn intents_spec(self) -> Seq<Intent> {
        let added = with_additions(Seq::<Intent>::empty(), self.new_stamp, self.new_text, self.new_rect);
        let deleted = with_deletions(added, self.delete_stamp, self.delete_text, self.delete_rect);
        let moved = with_moves(deleted, self.move_stamp, self.move_text, self.move_rect);
        let resized = with_resizes(moved, self.resize_stamp, self.resize_text, self.resize_rect, self.edit_text);
        with_stamp_requests(resized, self.delete_custom_stamp, self.register_stamp_clicked)
    }

    /// Hands out the intents of the frame in the order in which they are to
    /// be applied.
    pub fn intents(self) -> (r: Vec<Intent>)
        ensures
            r@ == self.intents_spec(),
    {
        let mut v: Vec<Intent> = Vec::new();
        push_additions(&mut v, self.new_stamp, self.new_text, self.new_rect);
        push_deletions(&mut v, self.delete_stamp, self.delete_text, self.delete_rect);
        push_moves(&mut v, self.move_stamp, self.move_text, self.move_rect);
        push_resizes(&mut v, self.resize_stamp, self.resize_text, self.resize_rect, self.edit_text);
        push_stamp_requests(&mut v, self.delete_custom_stamp, self.register_stamp_clicked);
        v
    }

    /// Puts `intent` into its slot.
    pub fn record(&mut self, intent: Intent)
        ensures
            *final(self) == old(self).with(intent),
    {
        match intent {
            Intent::NewStamp(s) => {
                self.new_stamp = Some(s);
            },
            Intent::NewText(t) => {
                self.new_text = Some(t);
            },
            Intent::NewRect(r) => {
                self.new_rect = Some(r);
            },
            Intent::DeleteStamp(i) => {
                self.delete_stamp = Some(i);
            },
            Intent::DeleteText(i) => {
                self.delete_text = Some(i);
            },
            Intent::DeleteRect(i) => {
                self.delete_rect = Some(i);
            },
            Intent::MoveStamp(i, x, y) => {
                self.move_stamp = Some((i, x, y));
            },
            Intent::MoveText(i, x, y) => {
                self.move_text = Some((i, x, y));
            },
            Intent::MoveRect(i, x, y) => {
                self.move_rect = Some((i, x, y));
            },
            Intent::ResizeStamp(i, w, h) => {
                self.resize_stamp = Some((i, w, h));
            },
            Intent::ResizeText(i, size) => {
                self.resize_text = Some((i, size));
            },
            Intent::ResizeRect(i, w, h) => {
                self.resize_rect = Some((i, w, h));
            },
            Intent::EditText(i, text, font, transparent) => {
                self.edit_text = Some((i, text, font, transparent));
            },
            Intent::DeleteCustomStamp(i) => {
                self.delete_custom_stamp = Some(i);
            },
            Intent::RegisterStamp => {
                self.register_stamp_clicked = true;
            },
        }
    }
}

/// `before` and then what a frame adds: stamp, text, rectangle.
pub open spec fn with_additions(
    before: Seq<Intent>,
    new_stamp: Option<Stamp>,
    new_text: Option<TextAnnotation>,
    new_rect: Option<RectAnnotation>,
) -> Seq<Intent> {
    let s1 = match new_stamp {
        Some(s) => before.push(Intent::NewStamp(s)),
        None => before,
    };
    let s2 = match new_text {
        Some(t) => s1.push(Intent::NewText(t)),
        None => s1,
    };
    match new_rect {
        Some(r) => s2.push(Intent::NewRect(r)),
        None => s2,
    }
}

/// `before` and then what a frame deletes.
pub open spec fn with_deletions(
    before: Seq<Intent>,
    delete_stamp: Option<usize>,
    delete_text: Option<usize>,
    delete_rect: Option<usize>,
) -> Seq<Intent> {
    let s1 = match delete_stamp {
        Some(i) => before.push(Intent::DeleteStamp(i)),
        None => before,
    };
    let s2 = match delete_text {
        Some(i) => s1.push(Intent::DeleteText(i)),
        None => s1,
    };
    match delete_rect {
        Some(i) => s2.push(Intent::DeleteRect(i)),
        None => s2,
    }
}

/// `before` and then what a frame moves.
pub open spec fn with_moves(
    before: Seq<Intent>,
    move_stamp: Option<(usize, i64, i64)>,
    move_text: Option<(usize, i64, i64)>,
    move_rect: Option<(usize, i64, i64)>,
) -> Seq<Intent> {
    let s1 = match move_stamp {
        Some((i, x, y)) => before.push(Intent::MoveStamp(i, x, y)),
        None => before,
    };
    let s2 = match move_text {
        Some((i, x, y)) => s1.push(Intent::MoveText(i, x, y)),
        None => s1,
    };
    match move_rect {
        Some((i, x, y)) => s2.push(Intent::MoveRect(i, x, y)),
        None => s2,
    }
}

/// `before` and then what a frame resizes and edits.
pub open spec fn with_resizes(
    before: Seq<Intent>,
    resize_stamp: Option<(usize, i64, i64)>,
    resize_text: Option<(usize, i64)>,
    resize_rect: Option<(usize, i64, i64)>,
    edit_text: Option<(usize, String, FontType, bool)>,
) -> Seq<Intent> {
    let s1 = match resize_stamp {
        Some((i, w, h)) => before.push(Intent::ResizeStamp(i, w, h)),
        None => before,
    };
    let s2 = match resize_text {
        Some((i, size)) => s1.push(Intent::ResizeText(i, size)),
        None => s1,
    };
    let s3 = match resize_rect {
        Some((i, w, h)) => s2.push(Intent::ResizeRect(i, w, h)),
        None => s2,
    };
    match edit_text {
        Some((i, text, font, transparent)) => s3.push(Intent::EditText(i, text, font, transparent)),
        None => s3,
    }
}

/// `before` and then what a frame asks of the custom stamps.
pub open spec fn with_stamp_requests(before: Seq<Intent>, delete_custom_stamp: Option<usize>, register: bool) -> Seq<
    Intent,
> {
    let s1 = match delete_custom_stamp {
        Some(i) => before.push(Intent::DeleteCustomStamp(i)),
        None => before,
    };
    if register {
        s1.push(Intent::RegisterStamp)
    } else {
        s1
    }
}

fn push_additions(
    v: &mut Vec<Intent>,
    new_stamp: Option<Stamp>,
    new_text: Option<TextAnnotation>,
    new_rect: Option<RectAnnotation>,
)
    ensures
        final(v)@ == with_additions(old(v)@, new_stamp, new_text, new_rect),
{
    if let Some(s) = new_stamp {
        v.push(Intent::NewStamp(s));
    }
    if let Some(t) = new_text {
        v.push(Intent::NewText(t));
    }
    if let Some(r) = new_rect {
        v.push(Intent::NewRect(r));
    }
}

fn push_deletions(
    v: &mut Vec<Intent>,
    delete_stamp: Option<usize>,
    delete_text: Option<usize>,
    delete_rect: Option<usize>,
)
    ensures
        final(v)@ == with_deletions(old(v)@, delete_stamp, delete_text, delete_rect),
{
    if let Some(i) = delete_stamp {
        v.push(Intent::DeleteStamp(i));
    }
    if let Some(i) = delete_text {
        v.push(Intent::DeleteText(i));
    }
    if let Some(i) = delete_rect {
        v.push(Intent::DeleteRect(i));
    }
}

fn push_moves(
    v: &mut Vec<Intent>,
    move_stamp: Option<(usize, i64, i64)>,
    move_text: Option<(usize, i64, i64)>,
    move_rect: Option<(usize, i64, i64)>,
)
    ensures
        final(v)@ == with_moves(old(v)@, move_stamp, move_text, move_rect),
{
    if let Some((i, x, y)) = move_stamp {
        v.push(Intent::MoveStamp(i, x, y));
    }
    if let Some((i, x, y)) = move_text {
        v.push(Intent::MoveText(i, x, y));
    }
    if let Some((i, x, y)) = move_rect {
        v.push(Intent::MoveRect(i, x, y));
    }
}

fn push_resizes(
    v: &mut Vec<Intent>,
    resize_stamp: Option<(usize, i64, i64)>,
    resize_text: Option<(usize, i64)>,
    resize_rect: Option<(usize, i64, i64)>,
    edit_text: Option<(usize, String, FontType, bool)>,
)
    ensures
        final(v)@ == with_resizes(old(v)@, resize_stamp, resize_text, resize_rect, edit_text),
{
    if let Some((i, w, h)) = resize_stamp {
        v.push(Intent::ResizeStamp(i, w, h));
    }
    if let Some((i, size)) = resize_text {
        v.push(Intent::ResizeText(i, size));
    }
    if let Some((i, w, h)) = resize_rect {
        v.push(Intent::ResizeRect(i, w, h));
    }
    if let Some((i, text, font, transparent)) = edit_text {
        v.push(Intent::EditText(i, text, font, transparent));
    }
}

fn push_stamp_requests(v: &mut Vec<Intent>, delete_custom_stamp: Option<usize>, register: bool)
    ensures
        final(v)@ == with_stamp_requests(old(v)@, delete_custom_stamp, register),
{
    if let Some(i) = delete_custom_stamp {
        v.push(Intent::DeleteCustomStamp(i));
    }
    if register {
        v.push(Intent::RegisterStamp);
    }
}

impl Default for EditorResult {
    fn default() -> (r: EditorResult)
        ensures
            r == EditorResult::empty(),
    {
        EditorResult {
            new_stamp: None,
            new_text: None,
            new_rect: None,
            delete_stamp: None,
            delete_text: None,
            delete_rect: None,
            move_stamp: None,
            move_text: None,
            move_rect: None,
            resize_stamp: None,
            resize_text: None,
            resize_rect: None,
            edit_text: None,
            delete_custom_stamp: None,
            register_stamp_clicked: false,
        }
    }
}

/// The stamps after `intent`: a new stamp goes to the end; a deletion, a
/// move or a resize changes the stamp at its index and nothing where the
/// index is past the end; any other intent leaves the stamps alone.
pub open spec fn applied_stamps(stamps: Seq<Stamp>, intent: Intent) -> Seq<Stamp> {
    match intent {
        Intent::NewStamp(s) => stamps.push(s),
        Intent::DeleteStamp(i) => if i < stamps.len() { stamps.remove(i as int) } else { stamps },
        Intent::MoveStamp(i, x, y) => if i < stamps.len() {
            stamps.update(i as int, Stamp { x: x, y: y, ..stamps[i as int] })
        } else {
            stamps
        },
        Intent::ResizeStamp(i, w, h) => if i < stamps.len() {
            stamps.update(i as int, Stamp { width: w, height: h, ..stamps[i as int] })
        } else {
            stamps
        },
        _ => stamps,
    }
}

/// The texts after `intent`.
pub open spec fn applied_texts(texts: Seq<TextAnnotation>, intent: Intent) -> Seq<TextAnnotation> {
    match intent {
        Intent::NewText(t) => texts.push(t),
        Intent::DeleteText(i) => if i < texts.len() { texts.remove(i as int) } else { texts },
        Intent::MoveText(i, x, y) => if i < texts.len() {
            texts.update(i as int, TextAnnotation { x: x, y: y, ..texts[i as int] })
        } else {
            texts
        },
        Intent::ResizeText(i, size) => if i < texts.len() {
            texts.update(i as int, TextAnnotation { font_size: size, ..texts[i as int] })
        } else {
            texts
        },
        Intent::EditText(i, text, font, transparent) => if i < texts.len() {
            texts.update(
                i as int,
                TextAnnotation { text: text, font_type: font, transparent: transparent, ..texts[i as int] },
            )
        } else {
            texts
        },
        _ => texts,
    }
}

/// The rectangles after `intent`.
pub open spec fn applied_rects(rects: Seq<RectAnnotation>, intent: Intent) -> Seq<RectAnnotation> {
    match intent {
        Intent::NewRect(r) => rects.push(r),
        Intent::DeleteRect(i) => if i < rects.len() { rects.remove(i as int) } else { rects },
        Intent::MoveRect(i, x, y) => if i < rects.len() {
            rects.update(i as int, RectAnnotation { x: x, y: y, ..rects[i as int] })
        } else {
            rects
        },
        Intent::ResizeRect(i, w, h) => if i < rects.len() {
            rects.update(i as int, RectAnnotation { width: w, height: h, ..rects[i as int] })
        } else {
            rects
        },
        _ => rects,
    }
}

/// Applying an intent that can be stored to lists that are valid leaves
/// them valid.
pub proof fn lemma_apply_keeps_wf(
    stamps: Seq<Stamp>,
    texts: Seq<TextAnnotation>,
    rects: Seq<RectAnnotation>,
    intent: Intent,
)
    requires
        stamps_wf(stamps),
        texts_wf(texts),
        rects_wf(rects),
        intent.wf(),
    ensures
        stamps_wf(applied_stamps(stamps, intent)),
        texts_wf(applied_texts(texts, intent)),
        rects_wf(applied_rects(rects, intent)),
{
}

/// An intent whose index is past the end of its list changes nothing.
pub proof fn lemma_stale_index_is_ignored(
    stamps: Seq<Stamp>,
    texts: Seq<TextAnnotation>,
    rects: Seq<RectAnnotation>,
    intent: Intent,
)
    requires
        match intent {
            Intent::DeleteStamp(i) | Intent::MoveStamp(i, _, _) | Intent::ResizeStamp(i, _, _) => i >= stamps.len(),
            Intent::DeleteText(i) | Intent::MoveText(i, _, _) | Intent::ResizeText(i, _) | Intent::EditText(
                i,
                _,
                _,
                _,
            ) => i >= texts.len(),
            Intent::DeleteRect(i) | Intent::MoveRect(i, _, _) | Intent::ResizeRect(i, _, _) => i >= rects.len(),
            _ => false,
        },
    ensures
        applied_stamps(stamps, intent) == stamps,
        applied_texts(texts, intent) == texts,
        applied_rects(rects, intent) == rects,
{
}

/// Carries out `intent` on the three lists.  Returns whether a list
/// changed.
pub fn apply(
    intent: Intent,
    stamps: &mut Vec<Stamp>,
    texts: &mut Vec<TextAnnotation>,
    rects: &mut Vec<RectAnnotation>,
) -> (changed: bool)
    ensures
        final(stamps)@ == applied_stamps(old(stamps)@, intent),
        final(texts)@ == applied_texts(old(texts)@, intent),
        final(rects)@ == applied_rects(old(rects)@, intent),
        changed == match intent {
            Intent::NewStamp(_) | Intent::NewText(_) | Intent::NewRect(_) => true,
            Intent::DeleteStamp(i) | Intent::MoveStamp(i, _, _) | Intent::ResizeStamp(i, _, _) => i < old(
                stamps,
            )@.len(),
            Intent::DeleteText(i) | Intent::MoveText(i, _, _) | Intent::ResizeText(i, _) | Intent::EditText(
                i,
                _,
                _,
                _,
            ) => i < old(texts)@.len(),
            Intent::DeleteRect(i) | Intent::MoveRect(i, _, _) | Intent::ResizeRect(i, _, _) => i < old(rects)@.len(),
            Intent::DeleteCustomStamp(_) | Intent::RegisterStamp => false,
        },
{
    match intent {
        Intent::NewStamp(s) => {
            stamps.push(s);
            true
        },
        Intent::NewText(t) => {
            texts.push(t);
            true
        },
        Intent::NewRect(r) => {
            rects.push(r);
            true
        },
        Intent::DeleteStamp(i) => {
            if i < stamps.len() {
                stamps.remove(i);
                true
            } else {
                false
            }
        },
        Intent::DeleteText(i) => {
            if i < texts.len() {
                texts.remove(i);
                true
            } else {
                false
            }
        },
        Intent::DeleteRect(i) => {
            if i < rects.len() {
                rects.remove(i);
                true
            } else {
                false
            }
        },
        Intent::MoveStamp(i, x, y) => {
            if i < stamps.len() {
                let cur = &stamps[i];
                let next = Stamp {
                    page: cur.page,
                    x,
                    y,
                    width: cur.width,
                    height: cur.height,
                    stamp_type: cur.stamp_type.duplicate(),
                };
                stamps.set(i, next);
                true
            } else {
                false
            }
        },
        Intent::ResizeStamp(i, w, h) => {
            if i < stamps.len() {
                let cur = &stamps[i];
                let next = Stamp {
                    page: cur.page,
                    x: cur.x,
                    y: cur.y,
                    width: w,
                    height: h,
                    stamp_type: cur.stamp_type.duplicate(),
                };
                stamps.set(i, next);
                true
            } else {
                false
            }
        },
        Intent::MoveText(i, x, y) => {
            if i < texts.len() {
                let cur = &texts[i];
                let next = TextAnnotation {
                    page: cur.page,
                    x,
                    y,
                    text: cur.text.clone(),
                    font_size: cur.font_size,
                    font_type: cur.font_type,
                    transparent: cur.transparent,
                };
                texts.set(i, next);
                true
            } else {
                false
            }
        },
        Intent::ResizeText(i, size) => {
            if i < texts.len() {
                let cur = &texts[i];
                let next = TextAnnotation {
                    page: cur.page,
                    x: cur.x,
                    y: cur.y,
                    text: cur.text.clone(),
                    font_size: size,
                    font_type: cur.font_type,
                    transparent: cur.transparent,
                };
                texts.set(i, next);
                true
            } else {
                false
            }
        },
        Intent::EditText(i, text, font, transparent) => {
            if i < texts.len() {
                let cur = &texts[i];
                let next = TextAnnotation {
                    page: cur.page,
                    x: cur.x,
                    y: cur.y,
                    text,
                    font_size: cur.font_size,
                    font_type: font,
                    transparent,
                };
                texts.set(i, next);
                true
            } else {
                false
            }
        },
        Intent::MoveRect(i, x, y) => {
            if i < rects.len() {
                let cur = &rects[i];
                let next = RectAnnotation {
                    page: cur.page,
                    x,
                    y,
                    width: cur.width,
                    height: cur.height,
                    color: cur.color,
                };
                rects.set(i, next);
                true
            } else {
                false
            }
        },
        Intent::ResizeRect(i, w, h) => {
            if i < rects.len() {
                let cur = &rects[i];
                let next = RectAnnotation {
                    page: cur.page,
                    x: cur.x,
                    y: cur.y,
                    width: w,
                    height: h,
                    color: cur.color,
                };
                rects.set(i, next);
                true
            } else {
                false
            }
        },
        Intent::DeleteCustomStamp(_) => false,
        Intent::RegisterStamp => false,
    }
}

} // verus!
