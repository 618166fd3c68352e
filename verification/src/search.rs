use vstd::prelude::*;
use vstd::string::{StrSliceExecFns, StringExecFns};

verus! {

/// The platform family a candidate list is built for.  The family decides
/// which startup-configuration locations are searched and in which order;
/// keeping it a runtime value keeps the search order testable everywhere.
#[derive(Clone, Copy, Debug, PartialEq, Eq, Structural)]
pub enum Platform {
    /// Unix-like platforms.
    Unix,
    /// Windows-like platforms.
    Windows,
    /// Anything else; only the explicit configuration directory is tried.
    Other,
}

/// One path component appended to a base path.
pub open spec fn joined(base: Seq<char>, rest: Seq<char>) -> Seq<char> {
    base + "/"@ + rest
}

/// The lua startup file of the neovim configuration directory under `base`.
pub open spec fn nvim_init_lua(base: Seq<char>) -> Seq<char> {
    joined(joined(base, "nvim"@), "init.lua"@)
}

/// The vimscript startup file of the neovim configuration directory under
/// `base`.
pub open spec fn nvim_init_vim(base: Seq<char>) -> Seq<char> {
    joined(joined(base, "nvim"@), "init.vim"@)
}

/// The candidates under the explicit configuration directory, tried first
/// on every platform.  With the directory unknown (its environment
/// variable unset) these candidates are skipped, not an error.
pub open spec fn xdg_candidates(xdg: Option<Seq<char>>) -> Seq<Seq<char>> {
    match xdg {
        Some(x) => seq![nvim_init_lua(x), nvim_init_vim(x)],
        None => Seq::empty(),
    }
}

/// The platform-specific candidates tried after the explicit configuration
/// directory, in search order.  On Windows-like platforms the editor
/// installation directory (`vim_env`, when known) supplies one final
/// candidate.
pub open spec fn platform_candidates(
    platform: Platform,
    home: Seq<char>,
    vim_env: Option<Seq<char>>,
) -> Seq<Seq<char>> {
    match platform {
        Platform::Unix => seq![
            nvim_init_lua(joined(home, ".config"@)),
            nvim_init_vim(joined(home, ".config"@)),
            joined(home, ".vimrc"@),
            joined(joined(home, ".vim"@), "vimrc"@),
        ],
        Platform::Windows => seq![
            nvim_init_lua(joined(joined(home, "AppData"@), "Local"@)),
            nvim_init_vim(joined(joined(home, "AppData"@), "Local"@)),
            joined(home, "_vimrc"@),
            joined(joined(home, "vimfiles"@), "vimrc"@),
        ] + match vim_env {
            Some(v) => seq![joined(v, "_vimrc"@)],
            None => Seq::empty(),
        },
        Platform::Other => Seq::empty(),
    }
}

/// The full ordered candidate list: the explicit configuration directory's
/// entries first, then the platform family's own locations.
pub open spec fn candidates_spec(
    platform: Platform,
    xdg: Option<Seq<char>>,
    home: Seq<char>,
    vim_env: Option<Seq<char>>,
) -> Seq<Seq<char>> {
    xdg_candidates(xdg) + platform_candidates(platform, home, vim_env)
}

/// One path component appended to a base path, as `joined` states it.
fn join_path(base: &str, rest: &str) -> (r: String)
    ensures
        r@ == joined(base@, rest@),
{
    let mut out = base.to_owned();
    out.append("/");
    out.append(rest);
    out
}

/// The ordered candidate list for the platform family, built from the
/// environment values handed in: the explicit configuration directory (or
/// `None` when its variable is unset), the home directory, and the editor
/// installation directory (consulted on Windows-like platforms only).  A
/// candidate whose environment value is missing is skipped without
/// aborting the search.
pub fn candidate_paths(
    platform: Platform,
    xdg: &Option<String>,
    home: &str,
    vim_env: &Option<String>,
) -> (r: Vec<String>)
    ensures
        r.deep_view() == candidates_spec(platform, xdg.deep_view(), home@, vim_env.deep_view()),
{
    let mut r: Vec<String> = Vec::new();
    match xdg {
        Some(x) => {
            let base = join_path(x.as_str(), "nvim");
            r.push(join_path(base.as_str(), "init.lua"));
            r.push(join_path(base.as_str(), "init.vim"));
        },
        None => {},
    }
    match platform {
        Platform::Unix => {
            let cfg = join_path(home, ".config");
            let base = join_path(cfg.as_str(), "nvim");
            r.push(join_path(base.as_str(), "init.lua"));
            r.push(join_path(base.as_str(), "init.vim"));
            r.push(join_path(home, ".vimrc"));
            let vdir = join_path(home, ".vim");
            r.push(join_path(vdir.as_str(), "vimrc"));
        },
        Platform::Windows => {
            let app = join_path(home, "AppData");
            let local = join_path(app.as_str(), "Local");
            let base = join_path(local.as_str(), "nvim");
            r.push(join_path(base.as_str(), "init.lua"));
            r.push(join_path(base.as_str(), "init.vim"));
            r.push(join_path(home, "_vimrc"));
            let vf = join_path(home, "vimfiles");
            r.push(join_path(vf.as_str(), "vimrc"));
            match vim_env {
                Some(v) => {
                    r.push(join_path(v.as_str(), "_vimrc"));
                },
                None => {},
            }
        },
        Platform::Other => {},
    }
    proof {
        assert(r.deep_view() =~~= candidates_spec(
            platform,
            xdg.deep_view(),
            home@,
            vim_env.deep_view(),
        ));
    }
    r
}

/// The index of the first marked entry: earlier unmarked entries are
/// passed over, and with nothing marked there is no index at all.
pub fn first_marked(marks: &Vec<bool>) -> (r: Option<usize>)
    ensures
        r matches Some(i) ==> i < marks@.len() && marks@[i as int] && (forall|j: int|
            0 <= j < i ==> !marks@[j]),
        r is None ==> forall|j: int| 0 <= j < marks@.len() ==> !marks@[j],
{
    let mut i: usize = 0;
    while i < marks.len()
        invariant
            0 <= i <= marks@.len(),
            forall|j: int| 0 <= j < i ==> !marks@[j],
        decreases marks@.len() - i,
    {
        if marks[i] {
            return Some(i);
        }
        i = i + 1;
    }
    None
}

/// Relies on `shellexpand::env`: expands environment-variable references
/// in the text, `None` when a referenced variable is unset.  The outcome
/// depends on the process environment, so nothing further is promised.
#[verifier::external_body]
fn expand_env(s: &str) -> (r: Option<String>) {
    match shellexpand::env(s) {
        Ok(c) => Some(c.into_owned()),
        Err(_) => None,
    }
}

/// Relies on `shellexpand::tilde`: expands a leading `~` into the current
/// user's home directory, best effort.  The outcome depends on the process
/// environment, so nothing further is promised.
#[verifier::external_body]
fn expand_tilde(s: &str) -> (r: String) {
    shellexpand::tilde(s).into_owned()
}

/// Relies on `std::path::Path::exists`: asks the filesystem whether the
/// path names an existing entity right now.  The answer depends on the
/// disk, so nothing further is promised.
#[verifier::external_body]
fn path_exists(p: &str) -> (r: bool) {
    std::path::Path::new(p).exists()
}

/// Search the candidate list built from the given environment values and
/// return the first candidate that exists on the filesystem; none existing
/// is reported as absence, not an error.  Whatever the filesystem answers,
/// a returned path is one of the list's candidates.
pub fn find_vimrc_impl(
    platform: Platform,
    xdg: Option<String>,
    home: String,
    vim_env: Option<String>,
) -> (r: Option<String>)
    ensures
        r matches Some(p) ==> candidates_spec(
            platform,
            xdg.deep_view(),
            home@,
            vim_env.deep_view(),
        ).contains(p@),
{
    let candidates = candidate_paths(platform, &xdg, home.as_str(), &vim_env);
    let mut marks: Vec<bool> = Vec::new();
    let mut i: usize = 0;
    while i < candidates.len()
        invariant
            marks@.len() == i,
            0 <= i <= candidates@.len(),
        decreases candidates@.len() - i,
    {
        marks.push(path_exists(candidates[i].as_str()));
        i = i + 1;
    }
    match first_marked(&marks) {
        Some(k) => {
            let p = candidates[k].clone();
            proof {
                let cs = candidates_spec(platform, xdg.deep_view(), home@, vim_env.deep_view());
                assert(candidates.deep_view()[k as int] == p@);
                assert(cs.contains(p@)) by {
                    assert(cs[k as int] == p@);
                }
            }
            Some(p)
        },
        None => None,
    }
}

/// Search the platform family's ordered candidate locations for a startup
/// configuration file and return the first that exists.  The explicit
/// configuration directory and, on Windows-like platforms, the editor
/// installation directory are read from the environment; an unset variable
/// only skips its candidates.
pub fn find_vimrc(platform: Platform) -> (r: Option<String>)
    ensures
        r matches Some(p) ==> exists|
            xdg: Option<Seq<char>>,
            home: Seq<char>,
            vim_env: Option<Seq<char>>,
        | candidates_spec(platform, xdg, home, vim_env).contains(p@),
{
    let xdg = expand_env("$XDG_CONFIG_HOME");
    let home = expand_tilde("~");
    let vim_env = match platform {
        Platform::Windows => expand_env("$VIM"),
        Platform::Unix => None,
        Platform::Other => None,
    };
    let ghost gx = xdg.deep_view();
    let ghost gh = home@;
    let ghost gv = vim_env.deep_view();
    let r = find_vimrc_impl(platform, xdg, home, vim_env);
    proof {
        if r is Some {
            assert(candidates_spec(platform, gx, gh, gv).contains(r.unwrap()@));
        }
    }
    r
}

} // verus!
