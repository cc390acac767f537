//! What the side panels hand to the application: the page list and the file
//! tree report at most one request of each kind per frame.

use vstd::prelude::*;
use vstd::string::StringExecFns;

verus! {

/// What a frame of the page list asks for.
#[derive(Clone, Copy, PartialEq, Eq, Debug)]
pub struct ThumbnailResult {
    pub selected_page: Option<usize>,
    pub page_reorder: Option<(usize, usize)>,
    pub page_deleted: Option<usize>,
    pub page_rotated: Option<(usize, i32)>,
}

impl Default for ThumbnailResult {
    fn default() -> (r: ThumbnailResult)
        ensures
            r.selected_page is None,
            r.page_reorder is None,
            r.page_deleted is None,
            r.page_rotated is None,
    {
        ThumbnailResult { selected_page: None, page_reorder: None, page_deleted: None, page_rotated: None }
    }
}

/// A file or folder that was cut or copied in the file tree.
#[derive(Clone, Debug, PartialEq, Eq)]
pub struct ClipboardItem {
    pub path: String,
    pub is_cut: bool,
}

/// What a frame of the file tree asks for.
#[derive(Clone, Debug, PartialEq, Eq)]
pub struct FileExplorerResult {
    pub selected_folder: Option<String>,
    pub selected_file: Option<String>,
    pub file_moved: Option<(String, String)>,
    pub file_copied: Option<(String, String)>,
    pub file_deleted: Option<String>,
    pub drop_target_folder: Option<String>,
}

impl Default for FileExplorerResult {
    fn default() -> (r: FileExplorerResult)
        ensures
            r.selected_folder is None,
            r.selected_file is None,
            r.file_moved is None,
            r.file_copied is None,
            r.file_deleted is None,
            r.drop_target_folder is None,
    {
        FileExplorerResult {
            selected_folder: None,
            selected_file: None,
            file_moved: None,
            file_copied: None,
            file_deleted: None,
            drop_target_folder: None,
        }
    }
}

/// Name of a kind of drive, by the code under which the system reports it.
pub open spec fn drive_type_name_spec(drive_type: u32) -> Seq<char> {
    if drive_type == 2 {
        "リムーバブル"@
    } else if drive_type == 3 {
        "ローカル"@
    } else if drive_type == 4 {
        "ネットワーク"@
    } else if drive_type == 5 {
        "CD/DVD"@
    } else if drive_type == 6 {
        "RAM"@
    } else {
        "ドライブ"@
    }
}

pub fn drive_type_name(drive_type: u32) -> (r: &'static str)
    ensures
        r@ == drive_type_name_spec(drive_type),
{
    if drive_type == 2 {
        "リムーバブル"
    } else if drive_type == 3 {
        "ローカル"
    } else if drive_type == 4 {
        "ネットワーク"
    } else if drive_type == 5 {
        "CD/DVD"
    } else if drive_type == 6 {
        "RAM"
    } else {
        "ドライブ"
    }
}

/// Label of a drive in the file tree: its letter, then in brackets the name
/// of the volume or, where the volume has none, the kind of drive.  Where
/// nothing is known of the volume, the letter alone.
pub open spec fn drive_label_spec(letter: Seq<char>, volume_label: Option<Seq<char>>, drive_type: u32) -> Seq<char> {
    match volume_label {
        Some(name) => "💾 "@ + letter + ": ["@ + (if name.len() > 0 {
            name
        } else {
            drive_type_name_spec(drive_type)
        }) + "]"@,
        None => "💾 "@ + letter + ":"@,
    }
}

pub fn get_drive_label(letter: &str, volume_label: Option<&str>, drive_type: u32) -> (r: String)
    ensures
        r@ == drive_label_spec(
            letter@,
            match volume_label {
                Some(name) => Some(name@),
                None => None,
            },
            drive_type,
        ),
{
    let mut label = String::from_str("💾 ");
    label.append(letter);
    match volume_label {
        Some(name) => {
            label.append(": [");
            if name.unicode_len() > 0 {
                label.append(name);
            } else {
                label.append(drive_type_name(drive_type));
            }
            label.append("]");
        },
        None => {
            label.append(":");
        },
    }
    label
}

} // verus!
