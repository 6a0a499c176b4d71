use vstd::prelude::*;
use crate::config::CopyConfiguration;
use crate::dispatch::{join_path, joined};
use crate::engine::{CopyOutcome, CopyPhase};

verus! {

/// The step of a directory walk that failed; fatal to that subtree.
#[derive(Clone, Copy, Debug, PartialEq, Eq, Structural)]
pub enum DirPhase {
    CreateDir,
    ReadDir,
    EntryType,
}

/// The errors of a copy run.
#[derive(Clone, Copy, Debug, PartialEq, Eq, Structural)]
pub enum CopyError {
    /// A source or destination path could not be canonicalized.
    PathResolution,
    /// A directory could not be created, listed, or a child's type queried.
    DirectoryFatal(DirPhase),
    /// One file failed in the given phase.
    FileCopy(CopyPhase),
    /// The default policy refused to overwrite an existing destination.
    AlreadyExists,
    /// The source is a directory and `recursive` is not set.
    SourceIsDirectory,
    /// The source path has no file name to place inside a destination
    /// directory.
    NoFileName,
}

/// The result that a single-file copy reports to its caller.
pub open spec fn outcome_result_spec(o: CopyOutcome) -> Result<(), CopyError> {
    match o {
        CopyOutcome::Copied => Ok(()),
        CopyOutcome::Skipped(_) => Ok(()),
        CopyOutcome::AlreadyExists => Err(CopyError::AlreadyExists),
        CopyOutcome::Failed(p) => Err(CopyError::FileCopy(p)),
    }
}

/// Maps how a single-file copy ended to the result it reports.
pub fn outcome_result(o: CopyOutcome) -> (r: Result<(), CopyError>)
    ensures
        r == outcome_result_spec(o),
{
    match o {
        CopyOutcome::Copied => Ok(()),
        CopyOutcome::Skipped(_) => Ok(()),
        CopyOutcome::AlreadyExists => Err(CopyError::AlreadyExists),
        CopyOutcome::Failed(p) => Err(CopyError::FileCopy(p)),
    }
}

/// What a copy run does at the top level.
#[derive(Clone, Debug)]
pub enum CopyTarget {
    /// Walk the source directory into the destination directory.
    Directory { source: String, destination: String },
    /// Copy one file to the given destination file.
    File { source: String, destination: String },
}

/// Whether a target walks a directory, with its source and destination paths.
pub open spec fn target_view(t: CopyTarget) -> (bool, Seq<char>, Seq<char>) {
    match t {
        CopyTarget::Directory { source, destination } => (true, source@, destination@),
        CopyTarget::File { source, destination } => (false, source@, destination@),
    }
}

/// What `Path::file_name` gives for a path: its last normal component.
pub uninterp spec fn file_name_of(p: Seq<char>) -> Option<Seq<char>>;

/// Relies on `std::path::Path::file_name`: the final component of the path,
/// `None` when it ends in `..` or is a root. The result depends on the
/// characters alone.
#[verifier::external_body]
fn path_file_name(path: &str) -> (r: Option<String>)
    ensures
        r matches Some(n) ==> file_name_of(path@) == Some(n@),
        r is None ==> file_name_of(path@) is None,
{
    std::path::Path::new(path).file_name().map(|n| n.to_string_lossy().into_owned())
}

/// Decides the top-level copy, given whether the source and the destination
/// are directories: a directory source needs `recursive` and is walked; a
/// file copied onto a directory lands under its own file name there.
pub fn plan_copy(
    source: &str,
    destination: &str,
    source_is_dir: bool,
    dest_is_dir: bool,
    config: &CopyConfiguration,
) -> (r: Result<CopyTarget, CopyError>)
    ensures
        source_is_dir && !config.recursive ==> r == Err::<CopyTarget, CopyError>(
            CopyError::SourceIsDirectory,
        ),
        source_is_dir && config.recursive ==> r is Ok && target_view(r->Ok_0) == (
            true,
            source@,
            destination@,
        ),
        !source_is_dir && !dest_is_dir ==> r is Ok && target_view(r->Ok_0) == (
            false,
            source@,
            destination@,
        ),
        !source_is_dir && dest_is_dir && file_name_of(source@) is None ==> r == Err::<
            CopyTarget,
            CopyError,
        >(CopyError::NoFileName),
        !source_is_dir && dest_is_dir && file_name_of(source@) is Some ==> r is Ok && target_view(
            r->Ok_0,
        ) == (false, source@, joined(destination@, file_name_of(source@)->Some_0)),
{
    if source_is_dir {
        if !config.recursive {
            return Err(CopyError::SourceIsDirectory);
        }
        return Ok(CopyTarget::Directory { source: source.to_owned(), destination: destination.to_owned() });
    }
    if dest_is_dir {
        match path_file_name(source) {
            Some(name) => Ok(
                CopyTarget::File {
                    source: source.to_owned(),
                    destination: join_path(destination, name.as_str()),
                },
            ),
            None => Err(CopyError::NoFileName),
        }
    } else {
        Ok(CopyTarget::File { source: source.to_owned(), destination: destination.to_owned() })
    }
}

} // verus!
