//! The commands a front end sends to the playback engine.

use std::path::PathBuf;
use vstd::prelude::*;

verus! {

/// `std::path::PathBuf`, taken as an opaque value: the library hands a path
/// on without ever looking inside it.
#[verifier::external_type_specification]
#[verifier::external_body]
pub struct ExPathBuf(PathBuf);

/// `PathBuf::clone` returns a path equal to the one it was called on.
pub assume_specification[ <PathBuf as Clone>::clone ](path: &PathBuf) -> (copy: PathBuf)
    ensures
        copy == *path,
;

/// One command for the engine. A command is made once, travels through the
/// queue and is consumed once.
#[derive(Debug, PartialEq, Eq)]
pub enum Action {
    /// Play the file at this path, in place of whatever is playing.
    Load(PathBuf),
    /// Stop whatever is playing.
    Stop,
}

} // verus!
