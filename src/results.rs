use vstd::prelude::*;
use crate::category::{Category, category_of_path, is_target_file};

verus! {

/// What the scan keeps of one data file.
#[derive(Debug)]
pub struct FileInfo {
    pub path: String,
    pub size: u64,
    /// The time of the last change, or `unknown`.
    pub modified: String,
    /// The time of creation, or `unknown`.
    pub created: String,
}

/// What was read from the file system about one file: its length, and each
/// timestamp where the platform could give it.
#[derive(Debug)]
pub struct FileMeta {
    pub size: u64,
    pub modified: Option<String>,
    pub created: Option<String>,
}

/// A mail profile, listed by name only: its folders are never read.
#[derive(Debug)]
pub struct EmailInfo {
    pub name: String,
    pub folders: Vec<FolderInfo>,
}

/// A folder of a mail profile.
#[derive(Debug)]
pub struct FolderInfo {
    pub name: String,
    pub item_count: i32,
    pub subfolders: Vec<FolderInfo>,
}

/// The marker that stands for a timestamp that could not be read.
pub open spec fn unknown_marker() -> Seq<char> {
    seq!['u', 'n', 'k', 'n', 'o', 'w', 'n']
}

/// The text of a timestamp, or the marker where there is none.
pub open spec fn time_text(t: Option<String>) -> Seq<char> {
    match t {
        Some(s) => s@,
        None => unknown_marker(),
    }
}

/// `info` is the record of the file at `path` with metadata `meta`.
pub open spec fn describes(info: FileInfo, path: Seq<char>, meta: FileMeta) -> bool {
    &&& info.path@ == path
    &&& info.size == meta.size
    &&& info.modified@ == time_text(meta.modified)
    &&& info.created@ == time_text(meta.created)
}

fn time_or_unknown(t: Option<String>) -> (r: String)
    ensures
        r@ == time_text(t),
{
    match t {
        Some(s) => s,
        None => {
            let r = String::from_str("unknown");
            proof {
                reveal_strlit("unknown");
            }
            assert(r@ =~= unknown_marker());
            r
        },
    }
}

/// The record of the file at `path`, with each missing timestamp replaced by
/// `unknown`.
pub fn file_record(path: &str, meta: FileMeta) -> (r: FileInfo)
    ensures
        describes(r, path@, meta),
{
    FileInfo {
        path: path.to_string(),
        size: meta.size,
        modified: time_or_unknown(meta.modified),
        created: time_or_unknown(meta.created),
    }
}

/// The category and record of a file, where its extension is one the scanner
/// looks for and its metadata could be read (`meta` is `None` where it could
/// not); `None` otherwise.
pub fn process_file(path: &str, meta: Option<FileMeta>) -> (r: Option<(Category, FileInfo)>)
    ensures
        r is Some <==> (category_of_path(path@) is Some && meta is Some),
        r matches Some((c, info)) ==> category_of_path(path@) == Some(c) && describes(
            info,
            path@,
            meta->0,
        ),
{
    let category = match is_target_file(path) {
        Some(c) => c,
        None => return None,
    };
    match meta {
        Some(m) => Some((category, file_record(path, m))),
        None => None,
    }
}

/// The mail profiles with the given names, each with no folders listed.
pub fn email_profiles(names: &[String]) -> (r: Vec<EmailInfo>)
    ensures
        r@.len() == names@.len(),
        forall|i: int|
            0 <= i < r@.len() ==> (#[trigger] r@[i]).name@ == names@[i]@ && r@[i].folders@.len() == 0,
{
    let mut out: Vec<EmailInfo> = Vec::new();
    let mut k: usize = 0;
    while k < names.len()
        invariant
            0 <= k <= names@.len(),
            out@.len() == k,
            forall|i: int|
                0 <= i < k ==> (#[trigger] out@[i]).name@ == names@[i]@ && out@[i].folders@.len() == 0,
        decreases names@.len() - k,
    {
        out.push(EmailInfo { name: names[k].clone(), folders: Vec::new() });
        k = k + 1;
    }
    out
}

} // verus!
