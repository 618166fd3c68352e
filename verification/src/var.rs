use vstd::prelude::*;
use vstd::string::{StrSliceExecFns, StringExecFns};

use crate::cmd::{cmd_binary, exit_ok_spec, reads_stdout_spec, Cmd};
use crate::decode::{decode_trimmed, json_parse_of, means_absent};
use crate::error::VarError;
use crate::scope::{scope_prefix, Scope};
use crate::text::{char_is_whitespace, lemma_whitespace_only_trims_empty, trim_spec, trim_text};

verus! {

/// A reference to one scripting variable: the variable named `name`, in
/// scope `scope`, as editor `cmd` sees it.  A value of this type never
/// changes after construction and has no identity beyond its fields.
#[derive(Clone, Debug)]
pub struct VimVar {
    /// The editor variant asked about the variable.
    pub cmd: Cmd,
    /// The namespace the variable lives in.
    pub scope: Scope,
    /// The variable's name, without its scope prefix.
    pub name: String,
}

impl PartialEq for VimVar {
    fn eq(&self, other: &Self) -> (r: bool) {
        self.cmd == other.cmd && self.scope == other.scope && self.name == other.name
    }
}

impl vstd::std_specs::cmp::PartialEqSpecImpl for VimVar {
    open spec fn obeys_eq_spec() -> bool {
        true
    }

    open spec fn eq_spec(&self, other: &VimVar) -> bool {
        self.cmd == other.cmd && self.scope == other.scope && self.name@ == other.name@
    }
}

/// The editor expression that prints the variable as JSON: it looks the
/// name up in its scope, falls back to the integer 0 when the variable is
/// not set (so an undefined variable raises no scripting error), and JSON
/// encodes the outcome with the editor's native encoder.
pub open spec fn encode_expr(scope: Scope, name: Seq<char>) -> Seq<char> {
    "json_encode(get("@ + scope_prefix(scope) + ", \""@ + name + "\"))"@
}

/// The exact shell command line for one lookup.  The vim-like variant is
/// meaningful only with a configuration path; without one the builder
/// refuses before this is ever used.
pub open spec fn invocation_spec(
    cmd: Cmd,
    config: Option<Seq<char>>,
    scope: Scope,
    name: Seq<char>,
) -> Seq<char> {
    let expr = encode_expr(scope, name);
    match cmd {
        Cmd::Neovim => match config {
            None => "nvim --headless '+echon "@ + expr + "' '+qa!'"@,
            Some(c) => "nvim --headless -u \""@ + c + "\" '+echon "@ + expr + "' '+qa!'"@,
        },
        Cmd::Vim => match config {
            Some(c) => "vim -Es -i NONE -u \""@ + c
                + "\" '+set nonumber' '+redir => m | echon "@ + expr
                + " | redir END | put=m' '+%p' '+qa!'"@,
            None => Seq::empty(),
        },
    }
}

impl VimVar {
    /// A reference to the variable named `name` in scope `scope`, as seen
    /// by editor `cmd`.
    pub fn new(cmd: Cmd, scope: Scope, name: &str) -> (r: VimVar)
        ensures
            r.cmd == cmd,
            r.scope == scope,
            r.name@ == name@,
    {
        VimVar { cmd, scope, name: name.to_owned() }
    }

    /// Build the exact shell command line that makes this variable's editor
    /// print the variable's JSON encoding and exit.  The vim-like variant
    /// cannot run without a startup configuration: asked for one with no
    /// configuration path, this refuses with `InvalidInput`, and with that
    /// input alone.
    pub fn build_invocation(&self, config: &Option<String>) -> (r: Result<String, VarError>)
        ensures
            r is Err <==> (self.cmd is Vim && config is None),
            r is Err ==> r == Err::<String, VarError>(VarError::InvalidInput),
            r matches Ok(s) ==> s@ == invocation_spec(
                self.cmd,
                config.deep_view(),
                self.scope,
                self.name@,
            ),
    {
        let mut expr = String::from_str("json_encode(get(");
        expr.append(self.scope.as_str());
        expr.append(", \"");
        expr.append(self.name.as_str());
        expr.append("\"))");
        proof {
            assert(expr@ =~= encode_expr(self.scope, self.name@));
        }
        match self.cmd {
            Cmd::Neovim => {
                let mut out;
                match config {
                    Some(c) => {
                        out = String::from_str("nvim --headless -u \"");
                        out.append(c.as_str());
                        out.append("\" '+echon ");
                    },
                    None => {
                        out = String::from_str("nvim --headless '+echon ");
                    },
                }
                out.append(expr.as_str());
                out.append("' '+qa!'");
                proof {
                    assert(out@ =~= invocation_spec(
                        self.cmd,
                        config.deep_view(),
                        self.scope,
                        self.name@,
                    ));
                }
                Ok(out)
            },
            Cmd::Vim => {
                match config {
                    Some(c) => {
                        let mut out = String::from_str("vim -Es -i NONE -u \"");
                        out.append(c.as_str());
                        out.append("\" '+set nonumber' '+redir => m | echon ");
                        out.append(expr.as_str());
                        out.append(" | redir END | put=m' '+%p' '+qa!'");
                        proof {
                            assert(out@ =~= invocation_spec(
                                self.cmd,
                                config.deep_view(),
                                self.scope,
                                self.name@,
                            ));
                        }
                        Ok(out)
                    },
                    None => Err(VarError::InvalidInput),
                }
            },
        }
    }
}

/// The stream whose captured text carries the result for the variant: the
/// standard output stream for the vim-like variant, the standard error
/// stream for the neovim-like one.
pub open spec fn selected_stream(cmd: Cmd, out: Seq<char>, err: Seq<char>) -> Seq<char> {
    if reads_stdout_spec(cmd) {
        out
    } else {
        err
    }
}

/// The exit code a process failure reports: the code itself, or -1 when
/// the process ended without one (for instance by a signal).
pub open spec fn reported_code(status: Option<i32>) -> i32 {
    match status {
        Some(c) => c,
        None => -1i32,
    }
}

/// Whether the exit status counts as success for the variant: an exit code
/// must be present and be one the variant accepts.
pub open spec fn status_ok(cmd: Cmd, status: Option<i32>) -> bool {
    match status {
        Some(c) => exit_ok_spec(cmd, c),
        None => false,
    }
}

/// Classify a finished lookup process.  An unacceptable exit status is a
/// process failure carrying the code and the trimmed error stream; an
/// acceptable one selects the variant's result stream, whose trimmed text
/// must be non-empty to count as usable output.
pub fn classify_output(cmd: Cmd, status: Option<i32>, stdout: &str, stderr: &str) -> (r: Result<
    String,
    VarError,
>)
    ensures
        !status_ok(cmd, status) ==> (r matches Err(VarError::ProcessFailure { code, output })
            && code == reported_code(status) && output@ == trim_spec(stderr@)),
        status_ok(cmd, status) && trim_spec(selected_stream(cmd, stdout@, stderr@)).len() == 0
            ==> (r matches Err(VarError::EmptyResult { editor }) && editor == cmd),
        status_ok(cmd, status) && trim_spec(selected_stream(cmd, stdout@, stderr@)).len() > 0
            ==> (r matches Ok(t) && t@ == trim_spec(selected_stream(cmd, stdout@, stderr@))),
        status_ok(cmd, status) && (forall|i: int|
            0 <= i < selected_stream(cmd, stdout@, stderr@).len() ==> char_is_whitespace(
                selected_stream(cmd, stdout@, stderr@)[i],
            )) ==> (r matches Err(VarError::EmptyResult { editor }) && editor == cmd),
{
    proof {
        if status_ok(cmd, status) && (forall|i: int|
            0 <= i < selected_stream(cmd, stdout@, stderr@).len() ==> char_is_whitespace(
                selected_stream(cmd, stdout@, stderr@)[i],
            )) {
            lemma_whitespace_only_trims_empty(selected_stream(cmd, stdout@, stderr@));
        }
    }
    let ok = match status {
        Some(c) => cmd.accepts_exit_code(c),
        None => false,
    };
    if !ok {
        let code = match status {
            Some(c) => c,
            None => -1,
        };
        return Err(VarError::ProcessFailure { code, output: trim_text(stderr) });
    }
    let selected = if cmd.reads_stdout() {
        stdout
    } else {
        stderr
    };
    let t = trim_text(selected);
    if t.as_str().unicode_len() == 0 {
        return Err(VarError::EmptyResult { editor: cmd });
    }
    Ok(t)
}

/// The whole treatment of a finished lookup process: classify the exit
/// status and the captured streams, then decode the selected text as JSON
/// under the zero-means-absent convention.
pub fn interpret_output(
    cmd: Cmd,
    status: Option<i32>,
    stdout: &str,
    stderr: &str,
    allow_zero: bool,
) -> (r: Result<Option<serde_json::Value>, VarError>)
    ensures
        !status_ok(cmd, status) ==> (r matches Err(VarError::ProcessFailure { code, output })
            && code == reported_code(status) && output@ == trim_spec(stderr@)),
        status_ok(cmd, status) && trim_spec(selected_stream(cmd, stdout@, stderr@)).len() == 0
            ==> (r matches Err(VarError::EmptyResult { editor }) && editor == cmd),
        ({
            let t = trim_spec(selected_stream(cmd, stdout@, stderr@));
            status_ok(cmd, status) && t.len() > 0 ==> {
                &&& json_parse_of(t) is None ==> (r matches Err(VarError::MalformedOutput {
                    text,
                }) && text@ == t)
                &&& json_parse_of(t) matches Some(v) ==> r == (if means_absent(v, allow_zero) {
                    Ok::<Option<serde_json::Value>, VarError>(None)
                } else {
                    Ok(Some(v))
                })
            }
        }),
{
    match classify_output(cmd, status, stdout, stderr) {
        Err(e) => Err(e),
        Ok(t) => decode_trimmed(t.as_str(), allow_zero),
    }
}

} // verus!
