use vstd::prelude::*;

verus! {

/// Namespace a vim scripting variable lives in.  Each scope maps to the
/// fixed short prefix written before the variable's name inside an editor
/// expression, such as `b:` for a buffer-local variable.
#[derive(Clone, Copy, Debug, PartialEq, Eq, Structural)]
pub enum Scope {
    /// No prefix at all; the name is used bare.
    Unscoped,
    /// Buffer-local variables, prefix `b:`.
    Buffer,
    /// Window-local variables, prefix `w:`.
    Window,
    /// Tabpage-local variables, prefix `t:`.
    Tabpage,
    /// Global variables, prefix `g:`.
    Global,
    /// Function-local variables, prefix `l:`.
    Local,
    /// Script-local variables, prefix `s:`.
    Script,
    /// Function arguments, prefix `a:`.
    FunctionArg,
    /// Variables predefined by the editor itself, prefix `v:`.
    Vim,
}

/// The prefix each scope puts before a variable name.
pub open spec fn scope_prefix(s: Scope) -> Seq<char> {
    match s {
        Scope::Unscoped => ""@,
        Scope::Buffer => "b:"@,
        Scope::Window => "w:"@,
        Scope::Tabpage => "t:"@,
        Scope::Global => "g:"@,
        Scope::Local => "l:"@,
        Scope::Script => "s:"@,
        Scope::FunctionArg => "a:"@,
        Scope::Vim => "v:"@,
    }
}

impl Scope {
    /// The textual prefix of this scope: `b:` for `Buffer`, and so on;
    /// empty for `Unscoped`.
    pub fn as_str(&self) -> (r: &'static str)
        ensures
            r@ == scope_prefix(*self),
    {
        match self {
            Scope::Unscoped => "",
            Scope::Buffer => "b:",
            Scope::Window => "w:",
            Scope::Tabpage => "t:",
            Scope::Global => "g:",
            Scope::Local => "l:",
            Scope::Script => "s:",
            Scope::FunctionArg => "a:",
            Scope::Vim => "v:",
        }
    }
}

impl Default for Scope {
    /// A variable with no stated scope is taken to be global.
    fn default() -> (r: Self)
        ensures
            r == Scope::Global,
    {
        Scope::Global
    }
}

/// Distinct scopes carry distinct prefixes, and every prefix is either
/// empty (for `Scope::Unscoped` alone) or exactly two characters long.
pub proof fn lemma_scope_prefixes_unique(a: Scope, b: Scope)
    ensures
        a != b ==> scope_prefix(a) != scope_prefix(b),
        scope_prefix(a).len() == (if a is Unscoped { 0int } else { 2int }),
{
    reveal_strlit("");
    reveal_strlit("b:");
    reveal_strlit("w:");
    reveal_strlit("t:");
    reveal_strlit("g:");
    reveal_strlit("l:");
    reveal_strlit("s:");
    reveal_strlit("a:");
    reveal_strlit("v:");
    assert(""@.len() == 0);
    assert("b:"@.len() == 2 && "b:"@[0] == 'b');
    assert("w:"@.len() == 2 && "w:"@[0] == 'w');
    assert("t:"@.len() == 2 && "t:"@[0] == 't');
    assert("g:"@.len() == 2 && "g:"@[0] == 'g');
    assert("l:"@.len() == 2 && "l:"@[0] == 'l');
    assert("s:"@.len() == 2 && "s:"@[0] == 's');
    assert("a:"@.len() == 2 && "a:"@[0] == 'a');
    assert("v:"@.len() == 2 && "v:"@[0] == 'v');
}

} // verus!
