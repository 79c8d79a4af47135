use vstd::prelude::*;

verus! {

/// Whether `glob::Pattern::new` accepts a pattern text.
pub uninterp spec fn glob_valid(pattern: Seq<char>) -> bool;

/// What `glob::Pattern::matches` answers for a pattern compiled from `pattern` and a text.
pub uninterp spec fn glob_matches(pattern: Seq<char>, text: Seq<char>) -> bool;

#[verifier::external_type_specification]
#[verifier::external_body]
pub struct ExPattern(glob::Pattern);

/// A compiled glob pattern together with the text it was compiled from.
pub struct CompiledGlob {
    pat: glob::Pattern,
    src: String,
}

impl CompiledGlob {
    /// The text the pattern was compiled from.
    pub closed spec fn source(&self) -> Seq<char> {
        self.src@
    }
}

/// Calls `glob::Pattern::new`: a compiled pattern when the text is a valid pattern.
#[verifier::external_body]
pub(crate) fn compile_glob(pattern: &str) -> (r: Option<CompiledGlob>)
    ensures
        r is Some <==> glob_valid(pattern@),
        r matches Some(g) ==> g.source() == pattern@,
{
    glob::Pattern::new(pattern).ok().map(|pat| CompiledGlob { pat, src: pattern.to_string() })
}

/// Calls `glob::Pattern::matches` on the compiled pattern.
#[verifier::external_body]
pub(crate) fn glob_match(g: &CompiledGlob, text: &str) -> (r: bool)
    ensures
        r == glob_matches(g.source(), text@),
{
    g.pat.matches(text)
}

} // verus!
