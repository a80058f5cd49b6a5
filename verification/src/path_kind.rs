//! Naming what a filesystem path is, once its metadata has been asked for.

use vstd::prelude::*;

verus! {

/// The name given to a path: `folder` for a directory, `file` for anything
/// else that has metadata.
pub open spec fn kind_name(is_dir: bool) -> Seq<char> {
    if is_dir {
        "folder"@
    } else {
        "file"@
    }
}

/// Classifies a path from the outcome of the metadata query made for it:
/// `Ok` holds whether the path is a directory, `Err` the text of the error
/// that kept the metadata from being read.
///
/// A directory is a `folder`; every other path with metadata is a `file`.
/// An error is handed on with its text unchanged.
pub fn path_kind(metadata: Result<bool, String>) -> (kind: Result<String, String>)
    ensures
        match metadata {
            Ok(is_dir) => kind is Ok && kind->Ok_0@ == kind_name(is_dir),
            Err(message) => kind == Err::<String, String>(message),
        },
{
    match metadata {
        Ok(is_dir) => {
            if is_dir {
                Ok("folder".to_owned())
            } else {
                Ok("file".to_owned())
            }
        },
        Err(message) => Err(message),
    }
}

/// The two names differ, so the name tells whether the path is a directory.
pub proof fn lemma_kind_name_tells_directory(is_dir: bool)
    ensures
        kind_name(is_dir) == "folder"@ <==> is_dir,
        kind_name(is_dir) == "file"@ <==> !is_dir,
{
    reveal_strlit("folder");
    reveal_strlit("file");
    assert("folder"@.len() == 6 && "file"@.len() == 4);
}

} // verus!
