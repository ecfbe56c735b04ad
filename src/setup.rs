//! First-run setup of the dotfile path in the user's shell configuration.

use vstd::prelude::*;
use vstd::string::*;

verus! {

pub const BASH_RC: &'static str = "/.bashrc";
pub const ZSH_RC: &'static str = "/.zshrc";
pub const EXPORT_PREFIX: &'static str = "export DOTFILE_PATH=";

/// The rc file under `home` that the shell named `shell` reads, for the
/// shells that are supported.
pub open spec fn rc_file(home: Seq<char>, shell: Seq<char>) -> Option<Seq<char>> {
    if shell == "bash"@ {
        Some(home + BASH_RC@)
    } else if shell == "zsh"@ {
        Some(home + ZSH_RC@)
    } else {
        None
    }
}

/// Path of the rc file to extend for `shell`; `None` for an unsupported shell.
pub fn rc_file_for(home: &str, shell: &str) -> (r: Option<String>)
    ensures
        r matches Some(p) ==> rc_file(home@, shell@) == Some(p@),
        r is None ==> rc_file(home@, shell@) is None,
{
    let s = String::from_str(shell);
    if s == String::from_str("bash") {
        Some(String::from_str(home).concat(BASH_RC))
    } else if s == String::from_str("zsh") {
        Some(String::from_str(home).concat(ZSH_RC))
    } else {
        None
    }
}

/// The line that sets the dotfile path to `path` in an rc file.
pub fn export_line(path: &str) -> (r: String)
    ensures
        r@ == EXPORT_PREFIX@ + path@,
{
    String::from_str(EXPORT_PREFIX).concat(path)
}

} // verus!
