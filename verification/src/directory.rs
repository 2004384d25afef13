//! Making sure that the directory for the downloads exists.

use crate::error::{Error, ErrorView};
use vstd::prelude::*;

verus! {

/// What the caller found at a path.
#[derive(Clone, Copy, Debug, PartialEq, Eq)]
pub enum PathKind {
    /// Nothing is there.
    Missing,
    /// A directory is there.
    Directory,
    /// Something else is there, such as a regular file.
    Other,
}

/// The failure for a path that is taken by something other than a directory.
pub open spec fn occupied(path: Seq<char>) -> ErrorView {
    ErrorView::FilesystemError { path, detail: "already exists and is not a directory"@ }
}

/// Decides what to do about the directory `path`, given what was found
/// there: `Ok(true)` asks for it to be created with its parents, `Ok(false)`
/// means that nothing is left to do, and a path that holds something else is
/// a failure.
pub fn create_dir(path: &str, found: PathKind) -> (r: Result<bool, Error>)
    ensures
        match found {
            PathKind::Missing => r == Ok::<bool, Error>(true),
            PathKind::Directory => r == Ok::<bool, Error>(false),
            PathKind::Other => r matches Err(e) && e@ == occupied(path@),
        },
{
    match found {
        PathKind::Missing => Ok(true),
        PathKind::Directory => Ok(false),
        PathKind::Other => Err(
            Error::FilesystemError {
                path: path.to_owned(),
                detail: "already exists and is not a directory".to_owned(),
            },
        ),
    }
}

/// The notice for a directory that has just been created.
pub open spec fn notice(path: Seq<char>) -> Seq<char> {
    path + " dir created successfully!"@
}

/// The notice for a directory that has just been created.
pub fn created_notice(path: &str) -> (r: String)
    ensures
        r@ == notice(path@),
{
    let mut text = path.to_owned();
    text.append(" dir created successfully!");
    text
}

} // verus!
