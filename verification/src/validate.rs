//! What a target directory has to be.

use vstd::prelude::*;
use crate::error::PathError;

verus! {

/// Whether a path may be installed into, given what the file system says of
/// it: it has to be a directory, and one that can be written to.
pub open spec fn path_verdict(is_directory: bool, read_only: bool) -> Option<PathError> {
    if !is_directory {
        Some(PathError::NotADirectory)
    } else if read_only {
        Some(PathError::NotWritable)
    } else {
        None
    }
}

/// Accepts the path `v` as target directory, or says why it cannot be one.
/// `is_directory` and `read_only` are what the file system says of `v`;
/// `read_only` is not looked at for a path that is no directory.
pub fn path_validator(v: &str, is_directory: bool, read_only: bool) -> (checked: Result<
    String,
    PathError,
>)
    ensures
        checked is Ok <==> is_directory && !read_only,
        checked matches Ok(path) ==> path@ == v@,
        checked matches Err(error) ==> Some(error) == path_verdict(is_directory, read_only),
{
    if is_directory {
        if read_only {
            return Err(PathError::NotWritable);
        }
        return Ok(v.to_owned());
    }
    Err(PathError::NotADirectory)
}

} // verus!
