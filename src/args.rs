//! Command-line options.

use vstd::prelude::*;

verus! {

/// Options of one invocation: the files to add to the dotfile directory, as
/// given or as their patterns expand. None given means update the repository.
pub struct Opt {
    pub files: Vec<String>,
}

} // verus!
