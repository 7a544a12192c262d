//! Filesystem facts the user interface asks for, and the decisions drawn from them.
//!
//! The caller gathers the facts (metadata, directory entries, ancestors of a path);
//! the functions here decide what they mean.
use vstd::prelude::*;

use crate::text::{eq_ignore_ascii_case, str_eq_ignore_ascii_case, string_from};

verus! {

/// Writing a text file failed, with the path and the rendered I/O error.
#[derive(Debug, Clone, PartialEq, Eq)]
pub enum WriteTextError {
    CreateDirectory { path: String, source: String },
    Write { path: String, source: String },
}

/// Free space of the volume a path lives on.
#[derive(Debug, Clone, PartialEq, Eq)]
pub struct PathVolumeSpace {
    pub volume_root: String,
    pub free_bytes: u64,
}

/// What a path is, and for a directory, what it directly holds.
#[derive(Debug, Clone, Copy, PartialEq, Eq, Structural)]
pub struct FileSystemPathProbe {
    pub exists: bool,
    pub is_file: bool,
    pub is_dir: bool,
    pub direct_child_count: Option<u32>,
    pub child_count_limit_exceeded: bool,
    pub direct_vhdx_file_count: Option<u32>,
    pub has_direct_children: Option<bool>,
}

/// Reading volume free space failed; causes are rendered text.
#[derive(Debug, Clone, PartialEq, Eq)]
pub enum PathVolumeSpaceQueryError {
    Join(String),
    CurrentDir(String),
    InvalidPath,
    AnchorNotFound(String),
    VolumeRoot { path: String, source: String },
    FreeSpace { volume_root: String, source: String },
}

/// Probing a path failed; causes are rendered text.
#[derive(Debug, Clone, PartialEq, Eq)]
pub enum FileSystemProbeError {
    Join(String),
    InvalidPath,
    Metadata { path: String, source: String },
    ReadDir { path: String, source: String },
    ReadEntry { path: String, source: String },
}

/// Reading a file size failed; causes are rendered text.
#[derive(Debug, Clone, PartialEq, Eq)]
pub enum FileSizeProbeError {
    Join(String),
    Metadata { path: String, source: String },
    NotAFile(String),
}

/// Copying a file failed: an I/O error, or the progress callback refused to go on.
#[derive(Debug, Clone, PartialEq, Eq)]
pub enum FileCopyError {
    Io(String),
    Progress(String),
}

/// What reading the metadata of a path gave.
#[derive(Debug, Clone, PartialEq, Eq)]
pub enum PathMetadata {
    /// The path does not exist.
    Missing,
    /// Reading the metadata failed for another reason.
    Failed(String),
    Found { is_file: bool, is_dir: bool },
}

/// What reading one directory entry gave.
#[derive(Debug, PartialEq, Eq)]
pub enum DirEntryFact {
    /// Reading the entry failed.
    Failed(String),
    /// The entry, with whether it is a file (or why its type is unknown) and the
    /// extension of its path.
    Read { file_type: Result<bool, String>, extension: Option<String> },
}

/// The next step of a probe once the metadata is known.
#[derive(Debug, PartialEq, Eq)]
pub enum ProbeNext {
    Finished(Result<FileSystemPathProbe, FileSystemProbeError>),
    /// The path is a directory: its entries are needed.
    ListDirectory { is_file: bool, is_dir: bool },
}

/// One ancestor of a path (the path itself first), with what is known of it.
#[derive(Debug, Clone, PartialEq, Eq)]
pub struct AncestorFact {
    pub path: String,
    pub exists: bool,
    pub is_dir: bool,
    pub parent: Option<String>,
}

/// An absolute path and its ancestors, nearest first.
#[derive(Debug, Clone, PartialEq, Eq)]
pub struct AnchorSearch {
    pub absolute_path: String,
    pub ancestors: Vec<AncestorFact>,
}

/// What reading the metadata of a file gave.
#[derive(Debug, Clone, Copy, PartialEq, Eq, Structural)]
pub struct FileFacts {
    pub is_file: bool,
    pub len: u64,
}

pub open spec fn path_volume_space_message() -> Seq<char> {
    "Failed to read volume free space information."@
}

pub open spec fn file_system_probe_message() -> Seq<char> {
    "Failed to read filesystem information."@
}

pub open spec fn file_size_message() -> Seq<char> {
    "Failed to read file size information."@
}

impl PathVolumeSpaceQueryError {
    /// The stable user-facing message.
    pub fn to_user_message(&self) -> (s: String)
        ensures
            s@ == path_volume_space_message(),
    {
        string_from("Failed to read volume free space information.")
    }

    /// The diagnostic rendering of the error.
    pub fn to_display_string(&self) -> (s: String)
        ensures
            s@ == match self {
                PathVolumeSpaceQueryError::Join(d) => "failed to join path volume-space task: "@ + d@,
                PathVolumeSpaceQueryError::CurrentDir(src) => "failed to resolve current working directory: "@ + src@,
                PathVolumeSpaceQueryError::InvalidPath => "path is required"@,
                PathVolumeSpaceQueryError::AnchorNotFound(p) => "failed to resolve an existing storage anchor for "@ + p@,
                PathVolumeSpaceQueryError::VolumeRoot { path, source } => "failed to resolve volume root for "@ + path@ + ": "@ + source@,
                PathVolumeSpaceQueryError::FreeSpace { volume_root, source } => "failed to query free space for "@ + volume_root@ + ": "@ + source@,
            },
    {
        match self {
            PathVolumeSpaceQueryError::Join(d) => crate::text::join2("failed to join path volume-space task: ", d.as_str()),
            PathVolumeSpaceQueryError::CurrentDir(src) => crate::text::join2("failed to resolve current working directory: ", src.as_str()),
            PathVolumeSpaceQueryError::InvalidPath => string_from("path is required"),
            PathVolumeSpaceQueryError::AnchorNotFound(p) => crate::text::join2("failed to resolve an existing storage anchor for ", p.as_str()),
            PathVolumeSpaceQueryError::VolumeRoot { path, source } => {
                let mut s = crate::text::join3("failed to resolve volume root for ", path.as_str(), ": ");
                s.append(source.as_str());
                s
            },
            PathVolumeSpaceQueryError::FreeSpace { volume_root, source } => {
                let mut s = crate::text::join3("failed to query free space for ", volume_root.as_str(), ": ");
                s.append(source.as_str());
                s
            },
        }
    }
}

impl FileSystemProbeError {
    /// The stable user-facing message.
    pub fn to_user_message(&self) -> (s: String)
        ensures
            s@ == file_system_probe_message(),
    {
        string_from("Failed to read filesystem information.")
    }

    /// The diagnostic rendering of the error.
    pub fn to_display_string(&self) -> (s: String)
        ensures
            s@ == match self {
                FileSystemProbeError::Join(d) => "failed to join filesystem probe task: "@ + d@,
                FileSystemProbeError::InvalidPath => "path is required"@,
                FileSystemProbeError::Metadata { path, source } => "failed to read metadata for "@ + path@ + ": "@ + source@,
                FileSystemProbeError::ReadDir { path, source } => "failed to read directory "@ + path@ + ": "@ + source@,
                FileSystemProbeError::ReadEntry { path, source } => "failed to read directory entry under "@ + path@ + ": "@ + source@,
            },
    {
        match self {
            FileSystemProbeError::Join(d) => crate::text::join2("failed to join filesystem probe task: ", d.as_str()),
            FileSystemProbeError::InvalidPath => string_from("path is required"),
            FileSystemProbeError::Metadata { path, source } => {
                let mut s = crate::text::join3("failed to read metadata for ", path.as_str(), ": ");
                s.append(source.as_str());
                s
            },
            FileSystemProbeError::ReadDir { path, source } => {
                let mut s = crate::text::join3("failed to read directory ", path.as_str(), ": ");
                s.append(source.as_str());
                s
            },
            FileSystemProbeError::ReadEntry { path, source } => {
                let mut s = crate::text::join3("failed to read directory entry under ", path.as_str(), ": ");
                s.append(source.as_str());
                s
            },
        }
    }
}

impl FileSizeProbeError {
    /// The stable user-facing message.
    pub fn to_user_message(&self) -> (s: String)
        ensures
            s@ == file_size_message(),
    {
        string_from("Failed to read file size information.")
    }

    /// The diagnostic rendering of the error.
    pub fn to_display_string(&self) -> (s: String)
        ensures
            s@ == match self {
                FileSizeProbeError::Join(d) => "failed to join file size task: "@ + d@,
                FileSizeProbeError::Metadata { path, source } => "failed to read metadata for "@ + path@ + ": "@ + source@,
                FileSizeProbeError::NotAFile(p) => p@ + " is not a file"@,
            },
    {
        match self {
            FileSizeProbeError::Join(d) => crate::text::join2("failed to join file size task: ", d.as_str()),
            FileSizeProbeError::Metadata { path, source } => {
                let mut s = crate::text::join3("failed to read metadata for ", path.as_str(), ": ");
                s.append(source.as_str());
                s
            },
            FileSizeProbeError::NotAFile(p) => crate::text::join2(p.as_str(), " is not a file"),
        }
    }
}

impl FileCopyError {
    /// The diagnostic rendering of the error: its cause.
    pub fn to_display_string(&self) -> (s: String)
        ensures
            s@ == match self {
                FileCopyError::Io(e) => e@,
                FileCopyError::Progress(e) => e@,
            },
    {
        match self {
            FileCopyError::Io(e) => e.clone(),
            FileCopyError::Progress(e) => e.clone(),
        }
    }
}

// ---------------------------------------------------------------------------
// Extensions
// ---------------------------------------------------------------------------
/// A character that separates path components on some platform.
pub open spec fn is_path_separator(c: char) -> bool {
    c == '/' || c == '\\'
}

/// The index of the last `.` of the text, or `-1` when it has none.
pub open spec fn last_dot_index(p: Seq<char>) -> int
    decreases p.len(),
{
    if p.len() == 0 {
        -1
    } else if p.last() == '.' {
        p.len() - 1
    } else {
        last_dot_index(p.drop_last())
    }
}

/// A path whose extension is the same on every platform: its last `.` lies in its
/// final component, after a character that is no `.`, `:` or separator, and the
/// path does not start with two separators (a network or device prefix).
pub open spec fn extension_is_portable(p: Seq<char>) -> bool {
    let d = last_dot_index(p);
    &&& d > 0
    &&& !(p[d - 1] == '.' || p[d - 1] == ':' || is_path_separator(p[d - 1]))
    &&& forall|k: int| d < k < p.len() ==> !is_path_separator(#[trigger] p[k])
    &&& !(p.len() >= 2 && is_path_separator(p[0]) && is_path_separator(p[1]))
}

/// The text after the last `.` of the path.
pub open spec fn text_after_last_dot(p: Seq<char>) -> Seq<char> {
    p.skip(last_dot_index(p) + 1)
}

/// `Path::extension` of the path, as text.
///
/// Its documentation defines the extension as the part of the file name after
/// its final `.`, absent when the file name starts with its only `.`. Which part
/// of a path is the file name depends on the platform's separators and prefixes,
/// so this states the extension only for paths where every platform agrees
/// ([`extension_is_portable`]); of other paths it states only that an extension
/// holds no `.` and appears in the path right after a `.`.
#[verifier::external_body]
fn path_extension(path: &str) -> (r: Option<String>)
    ensures
        r matches Some(e) ==> !e@.contains('.') && exists|i: int|
            0 <= i && i + e@.len() + 1 <= path@.len() && #[trigger] path@.subrange(i, i + e@.len() + 1)
                == seq!['.'] + e@,
        r is None ==> !extension_is_portable(path@),
        r matches Some(e) ==> (extension_is_portable(path@) ==> e@ == text_after_last_dot(path@)),
{
    std::path::Path::new(path).extension().and_then(|value| value.to_str()).map(|value| value.to_string())
}

/// The extension of a path as the library reads it (`Path::extension`): fixed
/// for paths every platform reads alike, and for other paths an extension that
/// holds no `.` and stands in the path right after a `.`.
pub fn file_extension(path: &str) -> (r: Option<String>)
    ensures
        r matches Some(e) ==> !e@.contains('.') && exists|i: int|
            0 <= i && i + e@.len() + 1 <= path@.len() && #[trigger] path@.subrange(i, i + e@.len() + 1)
                == seq!['.'] + e@,
        r is None ==> !extension_is_portable(path@),
        r matches Some(e) ==> (extension_is_portable(path@) ==> e@ == text_after_last_dot(path@)),
{
    path_extension(path)
}

/// The extension names a VHDX image, ignoring ASCII case.
pub open spec fn is_vhdx_text(ext: Seq<char>) -> bool {
    eq_ignore_ascii_case(ext, "vhdx"@)
}

/// Whether an extension names a VHDX image, ignoring ASCII case.
pub fn is_vhdx_extension(extension: &Option<String>) -> (b: bool)
    ensures
        b == (extension matches Some(e) && is_vhdx_text(e@)),
{
    match extension {
        Some(e) => str_eq_ignore_ascii_case(e.as_str(), "vhdx"),
        None => false,
    }
}

/// Some `.` in the path is followed by `vhdx` (in any ASCII case) holding no further `.`:
/// what a path with a `vhdx` extension has, whatever the platform's separators.
pub open spec fn has_vhdx_suffix_somewhere(path: Seq<char>) -> bool {
    exists|i: int, e: Seq<char>|
        0 <= i && i + e.len() + 1 <= path.len() && is_vhdx_text(e) && !e.contains('.')
            && #[trigger] path.subrange(i, i + e.len() + 1) == seq!['.'] + e
}

/// Whether the path's extension is `vhdx`, ignoring ASCII case.
///
/// Which part of a path is its file name depends on the platform, so the answer
/// is fixed only for paths every platform reads alike ([`extension_is_portable`]);
/// for other paths a `true` still means the path has a `.vhdx` suffix.
pub fn has_vhdx_extension(path: &str) -> (b: bool)
    ensures
        b ==> has_vhdx_suffix_somewhere(path@),
        extension_is_portable(path@) ==> (b == is_vhdx_text(text_after_last_dot(path@))),
{
    let ext = path_extension(path);
    let b = is_vhdx_extension(&ext);
    proof {
        if b {
            let e = ext->0@;
            let i = choose|i: int| 0 <= i && i + e.len() + 1 <= path@.len() && #[trigger] path@.subrange(i, i + e.len() + 1) == seq!['.'] + e;
            assert(path@.subrange(i, i + e.len() + 1) == seq!['.'] + e);
        }
    }
    b
}

// ---------------------------------------------------------------------------
// Probing a path
// ---------------------------------------------------------------------------
/// A path that does not exist.
pub open spec fn missing_probe() -> FileSystemPathProbe {
    FileSystemPathProbe {
        exists: false,
        is_file: false,
        is_dir: false,
        direct_child_count: None,
        child_count_limit_exceeded: false,
        direct_vhdx_file_count: None,
        has_direct_children: None,
    }
}

/// An existing path that is not a directory.
pub open spec fn non_directory_probe(is_file: bool, is_dir: bool) -> FileSystemPathProbe {
    FileSystemPathProbe {
        exists: true,
        is_file,
        is_dir,
        direct_child_count: None,
        child_count_limit_exceeded: false,
        direct_vhdx_file_count: None,
        has_direct_children: None,
    }
}

/// Counting the entries of a directory from entry `i` on, with `count` entries and
/// `vhdx` VHDX files counted so far: the final counts and whether the limit cut
/// the count short, or the cause of a failed read.
pub open spec fn scan_entries(
    entries: Seq<DirEntryFact>,
    i: int,
    count: nat,
    vhdx: nat,
    limit: nat,
) -> Result<(nat, nat, bool), Seq<char>>
    decreases entries.len() - i,
{
    if i < 0 || i >= entries.len() {
        Ok((count, vhdx, false))
    } else {
        match entries[i] {
            DirEntryFact::Failed(source) => Err(source@),
            DirEntryFact::Read { file_type, extension } => if count >= limit {
                Ok((count, vhdx, true))
            } else {
                match file_type {
                    Err(source) => Err(source@),
                    Ok(is_file) => {
                        let is_vhdx = is_file && (extension matches Some(e) && is_vhdx_text(e@));
                        scan_entries(entries, i + 1, count + 1, if is_vhdx { vhdx + 1 } else { vhdx }, limit)
                    },
                }
            },
        }
    }
}

/// The entry limit: the given one, or no limit.
pub open spec fn entry_limit(child_limit: Option<u32>) -> nat {
    match child_limit {
        Some(l) => l as nat,
        None => u32::MAX as nat,
    }
}

/// The probe result of a directory with the given entries.
pub open spec fn directory_probe(
    path: Seq<char>,
    is_file: bool,
    is_dir: bool,
    listing: Result<Seq<DirEntryFact>, Seq<char>>,
    child_limit: Option<u32>,
) -> Result<FileSystemPathProbe, FileSystemProbeErrorView> {
    match listing {
        Err(source) => Err(FileSystemProbeErrorView::ReadDir { path, source }),
        Ok(entries) => match scan_entries(entries, 0, 0, 0, entry_limit(child_limit)) {
            Err(source) => Err(FileSystemProbeErrorView::ReadEntry { path, source }),
            Ok((count, vhdx, exceeded)) => Ok(
                FileSystemPathProbe {
                    exists: true,
                    is_file,
                    is_dir,
                    direct_child_count: Some(count as u32),
                    child_count_limit_exceeded: exceeded,
                    direct_vhdx_file_count: Some(vhdx as u32),
                    has_direct_children: Some(count > 0 || exceeded),
                },
            ),
        },
    }
}

proof fn lemma_scan_readable_entries(entries: Seq<DirEntryFact>, i: int, count: nat, vhdx: nat, limit: nat)
    requires
        0 <= i <= entries.len(),
        count <= limit,
        vhdx <= count,
        forall|k: int| i <= k < entries.len() ==> (#[trigger] entries[k] matches DirEntryFact::Read { file_type: Ok(_), .. }),
    ensures
        scan_entries(entries, i, count, vhdx, limit) matches Ok((c, v, ex)) && v <= c && (if count + (entries.len()
            - i) <= limit {
            c == count + (entries.len() - i) && !ex
        } else {
            c == limit && ex
        }),
    decreases entries.len() - i,
{
    if i < entries.len() {
        assert(entries[i] matches DirEntryFact::Read { file_type: Ok(_), .. });
        if count < limit {
            match entries[i] {
                DirEntryFact::Read { file_type, extension } => {
                    let is_file = file_type->Ok_0;
                    let is_vhdx = is_file && (extension matches Some(e) && is_vhdx_text(e@));
                    lemma_scan_readable_entries(entries, i + 1, count + 1, if is_vhdx { vhdx + 1 } else { vhdx }, limit);
                },
                DirEntryFact::Failed(_) => {},
            }
        }
    }
}

/// Probing a directory whose entries all read: at most `child_limit` entries are
/// counted (all of them without a limit); the limit is reported exceeded exactly
/// when the directory holds more entries than that; the directory has children
/// exactly when it holds an entry; and no more VHDX files are counted than entries.
pub proof fn lemma_directory_probe_counts(
    path: Seq<char>,
    is_file: bool,
    is_dir: bool,
    entries: Seq<DirEntryFact>,
    child_limit: Option<u32>,
)
    requires
        forall|k: int| 0 <= k < entries.len() ==> (#[trigger] entries[k] matches DirEntryFact::Read { file_type: Ok(_), .. }),
    ensures
        match directory_probe(path, is_file, is_dir, Ok(entries), child_limit) {
            Ok(p) => {
                let l: int = match child_limit {
                    Some(l) => l as int,
                    None => u32::MAX as int,
                };
                &&& p.exists && p.is_file == is_file && p.is_dir == is_dir
                &&& p.child_count_limit_exceeded == (entries.len() > l)
                &&& p.direct_child_count == Some((if entries.len() > l { l } else { entries.len() as int }) as u32)
                &&& (match p.direct_vhdx_file_count {
                    Some(v) => v <= p.direct_child_count->0,
                    None => false,
                })
                &&& p.has_direct_children == Some(entries.len() > 0)
            },
            Err(_) => false,
        },
{
    let limit = entry_limit(child_limit);
    lemma_scan_readable_entries(entries, 0, 0, 0, limit);
}


/// `FileSystemProbeError` with its text as character sequences.
pub enum FileSystemProbeErrorView {
    Join(Seq<char>),
    InvalidPath,
    Metadata { path: Seq<char>, source: Seq<char> },
    ReadDir { path: Seq<char>, source: Seq<char> },
    ReadEntry { path: Seq<char>, source: Seq<char> },
}

impl View for FileSystemProbeError {
    type V = FileSystemProbeErrorView;

    open spec fn view(&self) -> FileSystemProbeErrorView {
        match self {
            FileSystemProbeError::Join(d) => FileSystemProbeErrorView::Join(d@),
            FileSystemProbeError::InvalidPath => FileSystemProbeErrorView::InvalidPath,
            FileSystemProbeError::Metadata { path, source } => FileSystemProbeErrorView::Metadata { path: path@, source: source@ },
            FileSystemProbeError::ReadDir { path, source } => FileSystemProbeErrorView::ReadDir { path: path@, source: source@ },
            FileSystemProbeError::ReadEntry { path, source } => FileSystemProbeErrorView::ReadEntry { path: path@, source: source@ },
        }
    }
}

pub open spec fn probe_result_view(r: Result<FileSystemPathProbe, FileSystemProbeError>) -> Result<FileSystemPathProbe, FileSystemProbeErrorView> {
    match r {
        Ok(p) => Ok(p),
        Err(e) => Err(e@),
    }
}

pub open spec fn listing_view(l: Result<Vec<DirEntryFact>, String>) -> Result<Seq<DirEntryFact>, Seq<char>> {
    match l {
        Ok(v) => Ok(v@),
        Err(s) => Err(s@),
    }
}

/// A path must be given to be probed.
pub fn validate_probe_path(path: &str) -> (r: Result<(), FileSystemProbeError>)
    ensures
        r is Err <==> path@.len() == 0,
        r matches Err(e) ==> e == FileSystemProbeError::InvalidPath,
{
    if path.is_empty() {
        return Err(FileSystemProbeError::InvalidPath);
    }
    Ok(())
}

/// What the metadata of a probed path means: a missing path and a non-directory
/// are answered at once, other read failures are errors, and a directory needs
/// its entries.
pub fn probe_from_metadata(path: &str, metadata: PathMetadata) -> (r: ProbeNext)
    ensures
        match metadata {
            PathMetadata::Missing => r == ProbeNext::Finished(Ok(missing_probe())),
            PathMetadata::Failed(source) => r matches ProbeNext::Finished(Err(e)) && e@ == (FileSystemProbeErrorView::Metadata { path: path@, source: source@ }),
            PathMetadata::Found { is_file, is_dir } => if is_dir {
                r == (ProbeNext::ListDirectory { is_file, is_dir })
            } else {
                r == ProbeNext::Finished(Ok(non_directory_probe(is_file, is_dir)))
            },
        },
{
    match metadata {
        PathMetadata::Missing => ProbeNext::Finished(Ok(FileSystemPathProbe {
            exists: false,
            is_file: false,
            is_dir: false,
            direct_child_count: None,
            child_count_limit_exceeded: false,
            direct_vhdx_file_count: None,
            has_direct_children: None,
        })),
        PathMetadata::Failed(source) => ProbeNext::Finished(Err(FileSystemProbeError::Metadata { path: string_from(path), source })),
        PathMetadata::Found { is_file, is_dir } => {
            if !is_dir {
                ProbeNext::Finished(Ok(FileSystemPathProbe {
                    exists: true,
                    is_file,
                    is_dir,
                    direct_child_count: None,
                    child_count_limit_exceeded: false,
                    direct_vhdx_file_count: None,
                    has_direct_children: None,
                }))
            } else {
                ProbeNext::ListDirectory { is_file, is_dir }
            }
        },
    }
}

/// The probe result of a directory from its entries, counting at most `child_limit`
/// of them (no limit when absent).
pub fn probe_directory_entries(
    path: &str,
    is_file: bool,
    is_dir: bool,
    listing: Result<Vec<DirEntryFact>, String>,
    child_limit: Option<u32>,
) -> (r: Result<FileSystemPathProbe, FileSystemProbeError>)
    ensures
        probe_result_view(r) == directory_probe(path@, is_file, is_dir, listing_view(listing), child_limit),
{
    let entries = match listing {
        Ok(entries) => entries,
        Err(source) => {
            return Err(FileSystemProbeError::ReadDir { path: string_from(path), source });
        },
    };
    let limit: u32 = match child_limit {
        Some(l) => l,
        None => u32::MAX,
    };
    let ghost lim = entry_limit(child_limit);
    let ghost lv = listing_view(listing);
    assert(lv == Ok::<Seq<DirEntryFact>, Seq<char>>(entries@));
    let mut count: u32 = 0;
    let mut vhdx: u32 = 0;
    let mut i: usize = 0;
    while i < entries.len()
        invariant
            i <= entries.len(),
            limit as nat == lim,
            lim == entry_limit(child_limit),
            lv == Ok::<Seq<DirEntryFact>, Seq<char>>(entries@),
            lv == listing_view(listing),
            count <= limit,
            vhdx <= count,
            scan_entries(entries@, 0, 0, 0, lim) == scan_entries(entries@, i as int, count as nat, vhdx as nat, lim),
        decreases entries.len() - i,
    {
        let ghost before = scan_entries(entries@, i as int, count as nat, vhdx as nat, lim);
        match &entries[i] {
            DirEntryFact::Failed(source) => {
                assert(before == Err::<(nat, nat, bool), Seq<char>>(source@));
                let e = FileSystemProbeError::ReadEntry { path: string_from(path), source: source.clone() };
                assert(e@ == (FileSystemProbeErrorView::ReadEntry { path: path@, source: source@ }));
                assert(directory_probe(path@, is_file, is_dir, lv, child_limit) == Err::<FileSystemPathProbe, FileSystemProbeErrorView>(e@));
                return Err(e);
            },
            DirEntryFact::Read { file_type, extension } => {
                if count >= limit {
                    assert(before == Ok::<(nat, nat, bool), Seq<char>>((count as nat, vhdx as nat, true)));
                    return Ok(FileSystemPathProbe {
                        exists: true,
                        is_file,
                        is_dir,
                        direct_child_count: Some(count),
                        child_count_limit_exceeded: true,
                        direct_vhdx_file_count: Some(vhdx),
                        has_direct_children: Some(true),
                    });
                }
                match file_type {
                    Err(source) => {
                        assert(before == Err::<(nat, nat, bool), Seq<char>>(source@));
                        return Err(FileSystemProbeError::ReadEntry { path: string_from(path), source: source.clone() });
                    },
                    Ok(entry_is_file) => {
                        let is_vhdx = *entry_is_file && is_vhdx_extension(extension);
                        count += 1;
                        if is_vhdx {
                            vhdx += 1;
                        }
                    },
                }
            },
        }
        i += 1;
    }
    assert(scan_entries(entries@, i as int, count as nat, vhdx as nat, lim) == Ok::<(nat, nat, bool), Seq<char>>((count as nat, vhdx as nat, false)));
    Ok(FileSystemPathProbe {
        exists: true,
        is_file,
        is_dir,
        direct_child_count: Some(count),
        child_count_limit_exceeded: false,
        direct_vhdx_file_count: Some(vhdx),
        has_direct_children: Some(count > 0),
    })
}

// ---------------------------------------------------------------------------
// File size
// ---------------------------------------------------------------------------
/// The size of a file from its metadata; a directory or other non-file is refused.
pub fn file_size_from_metadata(path: &str, metadata: Result<FileFacts, String>) -> (r: Result<u64, FileSizeProbeError>)
    ensures
        match metadata {
            Err(source) => r matches Err(FileSizeProbeError::Metadata { path: p, source: s }) && p@ == path@ && s == source,
            Ok(facts) => if facts.is_file {
                r == Ok::<u64, FileSizeProbeError>(facts.len)
            } else {
                r matches Err(FileSizeProbeError::NotAFile(p)) && p@ == path@
            },
        },
{
    let facts = match metadata {
        Ok(facts) => facts,
        Err(source) => {
            return Err(FileSizeProbeError::Metadata { path: string_from(path), source });
        },
    };
    if !facts.is_file {
        return Err(FileSizeProbeError::NotAFile(string_from(path)));
    }
    Ok(facts.len)
}

// ---------------------------------------------------------------------------
// Storage anchor
// ---------------------------------------------------------------------------
/// The first ancestor that exists (skipping empty ones), or `-1`.
pub open spec fn first_existing(ancestors: Seq<AncestorFact>, i: int) -> int
    decreases ancestors.len() - i,
{
    if i < 0 || i >= ancestors.len() {
        -1
    } else if ancestors[i].path@.len() > 0 && ancestors[i].exists {
        i
    } else {
        first_existing(ancestors, i + 1)
    }
}

/// The directory that anchors the volume query of an existing ancestor: itself when
/// it is a directory, else its parent, else itself.
pub open spec fn anchor_of(a: AncestorFact) -> Seq<char> {
    if a.is_dir {
        a.path@
    } else {
        match a.parent {
            Some(p) => p@,
            None => a.path@,
        }
    }
}

/// The anchor directory of a volume query, or why none is found.
pub fn resolve_storage_anchor(path: &str, resolved: Result<AnchorSearch, String>) -> (r: Result<String, PathVolumeSpaceQueryError>)
    ensures
        path@.len() == 0 ==> r == Err::<String, PathVolumeSpaceQueryError>(PathVolumeSpaceQueryError::InvalidPath),
        path@.len() > 0 ==> match resolved {
            Err(source) => r == Err::<String, PathVolumeSpaceQueryError>(PathVolumeSpaceQueryError::CurrentDir(source)),
            Ok(search) => {
                let k = first_existing(search.ancestors@, 0);
                if k < 0 {
                    r matches Err(PathVolumeSpaceQueryError::AnchorNotFound(p)) && p@ == search.absolute_path@
                } else {
                    r matches Ok(a) && a@ == anchor_of(search.ancestors@[k])
                }
            },
        },
{
    if path.is_empty() {
        return Err(PathVolumeSpaceQueryError::InvalidPath);
    }
    let search = match resolved {
        Ok(search) => search,
        Err(source) => {
            return Err(PathVolumeSpaceQueryError::CurrentDir(source));
        },
    };
    let ancestors = &search.ancestors;
    let mut i: usize = 0;
    while i < ancestors.len()
        invariant
            i <= ancestors.len(),
            path@.len() > 0,
            ancestors == &search.ancestors,
            resolved == Ok::<AnchorSearch, String>(search),
            first_existing(ancestors@, 0) == first_existing(ancestors@, i as int),
        decreases ancestors.len() - i,
    {
        let a = &ancestors[i];
        if !a.path.as_str().is_empty() && a.exists {
            if a.is_dir {
                return Ok(a.path.clone());
            }
            return match &a.parent {
                Some(p) => Ok(p.clone()),
                None => Ok(a.path.clone()),
            };
        }
        i += 1;
    }
    Err(PathVolumeSpaceQueryError::AnchorNotFound(search.absolute_path.clone()))
}

} // verus!
