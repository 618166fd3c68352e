use vstd::prelude::*;

use crate::cmd::Cmd;
use crate::error::VarError;
use crate::search::{candidates_spec, Platform};

verus! {

/// Choose the editor to drive, given whether each variant's binary can be
/// started from the search path: the neovim-like variant is preferred, the
/// vim-like one is the fallback, and with neither available the lookup
/// cannot proceed at all.  The two flags come from spawn probes that the
/// caller runs; this choice itself is fixed by them alone.
pub fn find_cmd(has_nvim: bool, has_vim: bool) -> (r: Result<Cmd, VarError>)
    ensures
        has_nvim ==> r == Ok::<Cmd, VarError>(Cmd::Neovim),
        !has_nvim && has_vim ==> r == Ok::<Cmd, VarError>(Cmd::Vim),
        !has_nvim && !has_vim ==> r == Err::<Cmd, VarError>(VarError::NotFound),
{
    if has_nvim {
        Ok(Cmd::Neovim)
    } else if has_vim {
        Ok(Cmd::Vim)
    } else {
        Err(VarError::NotFound)
    }
}

/// Searches the platform family's ordered candidate locations for a
/// startup configuration file; a thin call-through kept beside `find_cmd`
/// for convenience.
pub fn find_vimrc(platform: Platform) -> (r: Option<String>)
    ensures
        r matches Some(p) ==> exists|
            xdg: Option<Seq<char>>,
            home: Seq<char>,
            vim_env: Option<Seq<char>>,
        | candidates_spec(platform, xdg, home, vim_env).contains(p@),
{
    crate::search::find_vimrc(platform)
}

} // verus!
