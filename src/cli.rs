//! Errors of reading the host's configuration file.
use vstd::prelude::*;

verus! {

#[derive(Clone, Copy, Debug, PartialEq, Eq, Structural)]
pub enum ConfigFileError {
    FileNotLoaded,
    FileNotParsed,
    ExePathNotFound,
}

} // verus!
