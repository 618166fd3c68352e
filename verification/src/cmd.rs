use vstd::prelude::*;

verus! {

/// The editor variant a lookup drives.  The two variants take different
/// non-interactive command lines, write the result to different streams,
/// and treat exit codes differently; each variant carries that behaviour
/// so that adding another one touches only this type.
#[derive(Clone, Copy, Debug, PartialEq, Eq, Structural)]
pub enum Cmd {
    /// The neovim-like editor: run headless, the result arrives on the
    /// standard error stream.
    Neovim,
    /// The vim-like editor: run in silent batch mode, the result arrives on
    /// the standard output stream, and exit code 1 is routinely reported
    /// even on success.
    Vim,
}

/// The name of the binary that invokes the editor variant.
pub open spec fn cmd_binary(c: Cmd) -> Seq<char> {
    match c {
        Cmd::Neovim => "nvim"@,
        Cmd::Vim => "vim"@,
    }
}

/// Whether the captured standard output stream carries the result text for
/// the variant; otherwise the standard error stream does.
pub open spec fn reads_stdout_spec(c: Cmd) -> bool {
    c is Vim
}

/// Whether the variant treats the exit code as success: code 0 always, and
/// code 1 as a benign quirk of the vim-like variant's batch mode.
pub open spec fn exit_ok_spec(c: Cmd, code: i32) -> bool {
    code == 0 || (c is Vim && code == 1)
}

impl Cmd {
    /// The name of the binary to invoke: `nvim` or `vim`.
    pub fn as_str(&self) -> (r: &'static str)
        ensures
            r@ == cmd_binary(*self),
    {
        match self {
            Cmd::Neovim => "nvim",
            Cmd::Vim => "vim",
        }
    }

    /// Whether the result text is read from the captured standard output
    /// stream rather than the standard error stream.
    pub fn reads_stdout(&self) -> (r: bool)
        ensures
            r == reads_stdout_spec(*self),
    {
        match self {
            Cmd::Neovim => false,
            Cmd::Vim => true,
        }
    }

    /// Whether the exit code counts as success for this variant.
    pub fn accepts_exit_code(&self, code: i32) -> (r: bool)
        ensures
            r == exit_ok_spec(*self, code),
    {
        match self {
            Cmd::Neovim => code == 0,
            Cmd::Vim => code == 0 || code == 1,
        }
    }
}

} // verus!
