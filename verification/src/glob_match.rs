//! Shell-style file name patterns, through the `glob` crate. A `Glob` can
//! only be made by compiling a pattern here, so it always matches the way its
//! source text does.
use vstd::prelude::*;

verus! {

#[verifier::external_type_specification]
#[verifier::external_body]
pub struct ExGlobPattern(glob::Pattern);

/// What `glob::Pattern::new` reports when `pattern` does not compile: the
/// position and the message of its `PatternError`; `None` when it compiles.
pub uninterp spec fn glob_syntax_error(pattern: Seq<char>) -> Option<(usize, Seq<char>)>;

/// Whether the pattern compiled from `pattern` matches `name`
/// (`glob::Pattern::matches`, default options).
pub uninterp spec fn glob_matches(pattern: Seq<char>, name: Seq<char>) -> bool;

/// A compiled pattern and the text it was compiled from.
pub struct Glob {
    source: String,
    compiled: glob::Pattern,
}

impl Glob {
    /// The text the pattern was compiled from.
    pub closed spec fn source(&self) -> Seq<char> {
        self.source@
    }
}

/// Why a pattern does not compile: `PatternError`'s position and message.
pub struct GlobError {
    pub pos: usize,
    pub msg: String,
}

/// `glob::Pattern::new`: compiles a pattern, or reports its syntax error.
/// Whether it compiles, and the error, are named by `glob_syntax_error`.
#[verifier::external_body]
pub(crate) fn compile_glob(pattern: &str) -> (r: Result<Glob, GlobError>)
    ensures
        match r {
            Ok(g) => glob_syntax_error(pattern@) is None && g.source() == pattern@,
            Err(e) => glob_syntax_error(pattern@) == Some((e.pos, e.msg@)),
        },
{
    match glob::Pattern::new(pattern) {
        Ok(compiled) => Ok(Glob { source: pattern.to_string(), compiled }),
        Err(e) => Err(GlobError { pos: e.pos, msg: e.msg.to_string() }),
    }
}

/// `glob::Pattern::matches`: whether the name matches; named by `glob_matches`.
#[verifier::external_body]
pub(crate) fn glob_is_match(g: &Glob, name: &str) -> (r: bool)
    ensures
        r == glob_matches(g.source(), name@),
{
    g.compiled.matches(name)
}

} // verus!
