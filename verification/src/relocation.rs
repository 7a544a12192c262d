//! Relocating a VHDX before it is registered in place.
//!
//! Without a target directory the source VHDX is registered where it is. With one,
//! the directory must not exist yet; the VHDX is copied into it under its own file
//! name, and a failed import removes the copy and the directory again.
use vstd::prelude::*;

use crate::filesystem::{
    extension_is_portable, has_vhdx_extension, has_vhdx_suffix_somewhere, is_vhdx_text, text_after_last_dot, FileCopyError,
};
use crate::text::string_from;

verus! {

/// Where the VHDX that gets registered lives.
#[derive(Debug, Clone, PartialEq, Eq)]
pub struct VhdxRelocation {
    pub final_vhdx: String,
    pub created_dir: Option<String>,
}

/// What to do with the source VHDX.
#[derive(Debug, Clone, PartialEq, Eq)]
pub enum RelocationPlan {
    /// Register the source where it is.
    InPlace,
    /// Copy the source into a new directory under the given file name.
    CopyTo { target_dir: String, file_name: String },
}

pub open spec fn target_directory_exists_message() -> Seq<char> {
    "The target VHDX directory already exists."@
}

pub open spec fn relocation_failed_message() -> Seq<char> {
    "Failed to relocate the VHDX file."@
}

/// The message when the target directory already exists.
pub fn target_directory_exists_message_text() -> (s: String)
    ensures
        s@ == target_directory_exists_message(),
{
    string_from("The target VHDX directory already exists.")
}

/// The message when the VHDX cannot be relocated.
pub fn relocation_failed_message_text() -> (s: String)
    ensures
        s@ == relocation_failed_message(),
{
    string_from("Failed to relocate the VHDX file.")
}

impl VhdxRelocation {
    /// The source is registered where it is.
    pub fn in_place(source_vhdx: String) -> (r: VhdxRelocation)
        ensures
            r.final_vhdx == source_vhdx,
            r.created_dir is None,
    {
        VhdxRelocation { final_vhdx: source_vhdx, created_dir: None }
    }

    /// The source was copied to `final_vhdx` inside the new directory `created_dir`.
    pub fn copied(final_vhdx: String, created_dir: String) -> (r: VhdxRelocation)
        ensures
            r.final_vhdx == final_vhdx,
            r.created_dir == Some(created_dir),
    {
        VhdxRelocation { final_vhdx, created_dir: Some(created_dir) }
    }

    /// What to remove after a failed import: the copied file and the directory
    /// created for it; nothing when the source was registered in place.
    pub fn cleanup_failed_import(&self) -> (r: Option<(String, String)>)
        ensures
            match self.created_dir {
                None => r is None,
                Some(dir) => r == Some((self.final_vhdx, dir)),
            },
    {
        match &self.created_dir {
            None => None,
            Some(dir) => Some((self.final_vhdx.clone(), dir.clone())),
        }
    }
}

/// The relocation decision, or the message refusing it.
///
/// `source_is_file` is `None` when the source metadata cannot be read; `target_exists`
/// and `file_name` describe the target directory and the source file name.
pub open spec fn relocation_decision(
    source_is_file: Option<bool>,
    source_is_vhdx: bool,
    target_directory: Option<Seq<char>>,
    target_exists: bool,
    file_name: Option<Seq<char>>,
) -> Result<Option<(Seq<char>, Seq<char>)>, Seq<char>> {
    if !(source_is_file == Some(true)) || !source_is_vhdx {
        Err(relocation_failed_message())
    } else {
        match target_directory {
            None => Ok(None),
            Some(dir) => if dir.len() == 0 {
                Err(relocation_failed_message())
            } else if target_exists {
                Err(target_directory_exists_message())
            } else {
                match file_name {
                    None => Err(relocation_failed_message()),
                    Some(name) => Ok(Some((dir, name))),
                }
            },
        }
    }
}

pub open spec fn plan_view(r: Result<RelocationPlan, String>) -> Result<Option<(Seq<char>, Seq<char>)>, Seq<char>> {
    match r {
        Ok(RelocationPlan::InPlace) => Ok(None),
        Ok(RelocationPlan::CopyTo { target_dir, file_name }) => Ok(Some((target_dir@, file_name@))),
        Err(m) => Err(m@),
    }
}

pub open spec fn opt_text(o: Option<String>) -> Option<Seq<char>> {
    match o {
        Some(s) => Some(s@),
        None => None,
    }
}

/// Decides how the source VHDX is relocated (see the module documentation).
///
/// The extension check is fixed only for source paths every platform reads
/// alike ([`extension_is_portable`]); see [`has_vhdx_extension`].
pub fn plan_vhdx_relocation(
    source_vhdx: &str,
    source_is_file: Option<bool>,
    target_directory: Option<String>,
    target_exists: bool,
    file_name: Option<String>,
) -> (r: Result<RelocationPlan, String>)
    ensures
        exists|is_vhdx: bool|
            (is_vhdx ==> has_vhdx_suffix_somewhere(source_vhdx@)) && plan_view(r) == #[trigger] relocation_decision(
                source_is_file,
                is_vhdx,
                opt_text(target_directory),
                target_exists,
                opt_text(file_name),
            ),
        extension_is_portable(source_vhdx@) ==> plan_view(r) == relocation_decision(
            source_is_file,
            is_vhdx_text(text_after_last_dot(source_vhdx@)),
            opt_text(target_directory),
            target_exists,
            opt_text(file_name),
        ),
{
    let is_vhdx = has_vhdx_extension(source_vhdx);
    plan_from_facts(source_is_file, is_vhdx, target_directory, target_exists, file_name)
}

/// The decision of `plan_vhdx_relocation` from the facts, the extension check included.
pub fn plan_from_facts(
    source_is_file: Option<bool>,
    source_is_vhdx: bool,
    target_directory: Option<String>,
    target_exists: bool,
    file_name: Option<String>,
) -> (r: Result<RelocationPlan, String>)
    ensures
        plan_view(r) == relocation_decision(
            source_is_file,
            source_is_vhdx,
            opt_text(target_directory),
            target_exists,
            opt_text(file_name),
        ),
{
    let is_file = match source_is_file {
        Some(b) => b,
        None => false,
    };
    if !is_file || !source_is_vhdx {
        return Err(relocation_failed_message_text());
    }
    let target_dir = match target_directory {
        None => {
            return Ok(RelocationPlan::InPlace);
        },
        Some(dir) => dir,
    };
    if target_dir.as_str().is_empty() {
        return Err(relocation_failed_message_text());
    }
    if target_exists {
        return Err(target_directory_exists_message_text());
    }
    match file_name {
        None => Err(relocation_failed_message_text()),
        Some(name) => Ok(RelocationPlan::CopyTo { target_dir, file_name: name }),
    }
}

/// The message a failed copy reports: its own for a progress failure, the stable
/// relocation message for an I/O failure.
pub fn map_file_copy_error(err: FileCopyError) -> (s: String)
    ensures
        s@ == match err {
            FileCopyError::Io(_) => relocation_failed_message(),
            FileCopyError::Progress(m) => m@,
        },
{
    match err {
        FileCopyError::Io(_) => relocation_failed_message_text(),
        FileCopyError::Progress(m) => m,
    }
}

/// The relocation rules: a source that is not a readable file with a `.vhdx`
/// extension cannot be relocated; without a target directory the source is
/// registered where it is; an empty target directory, or a source without a file
/// name, cannot be used; an existing target directory is refused with its own
/// message; otherwise the source is copied into the new directory under its own
/// file name.
pub proof fn lemma_relocation_rules(
    source_is_file: Option<bool>,
    source_is_vhdx: bool,
    target_directory: Option<Seq<char>>,
    target_exists: bool,
    file_name: Option<Seq<char>>,
)
    ensures
        source_is_file != Some(true) || !source_is_vhdx ==> relocation_decision(
            source_is_file,
            source_is_vhdx,
            target_directory,
            target_exists,
            file_name,
        ) == Err::<Option<(Seq<char>, Seq<char>)>, Seq<char>>("Failed to relocate the VHDX file."@),
        source_is_file == Some(true) && source_is_vhdx && target_directory is None ==> relocation_decision(
            source_is_file,
            source_is_vhdx,
            target_directory,
            target_exists,
            file_name,
        ) == Ok::<Option<(Seq<char>, Seq<char>)>, Seq<char>>(None),
        source_is_file == Some(true) && source_is_vhdx && target_directory == Some(Seq::<char>::empty())
            ==> relocation_decision(source_is_file, source_is_vhdx, target_directory, target_exists, file_name)
            == Err::<Option<(Seq<char>, Seq<char>)>, Seq<char>>("Failed to relocate the VHDX file."@),
        source_is_file == Some(true) && source_is_vhdx && (target_directory matches Some(d) && d.len() > 0)
            && target_exists ==> relocation_decision(
            source_is_file,
            source_is_vhdx,
            target_directory,
            target_exists,
            file_name,
        ) == Err::<Option<(Seq<char>, Seq<char>)>, Seq<char>>("The target VHDX directory already exists."@),
        source_is_file == Some(true) && source_is_vhdx && (target_directory matches Some(d) && d.len() > 0)
            && !target_exists && file_name is None ==> relocation_decision(
            source_is_file,
            source_is_vhdx,
            target_directory,
            target_exists,
            file_name,
        ) == Err::<Option<(Seq<char>, Seq<char>)>, Seq<char>>("Failed to relocate the VHDX file."@),
        source_is_file == Some(true) && source_is_vhdx && (target_directory matches Some(d) && d.len() > 0)
            && !target_exists && file_name is Some ==> relocation_decision(
            source_is_file,
            source_is_vhdx,
            target_directory,
            target_exists,
            file_name,
        ) == Ok::<Option<(Seq<char>, Seq<char>)>, Seq<char>>(Some((target_directory->0, file_name->0))),
{
}

} // verus!
