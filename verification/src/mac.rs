use vstd::prelude::*;
use crate::token;
use crate::lit::{TokenStream};
use crate::path::{IntoPath, Path, path};
use crate::token::{Brace, Bracket, Paren};

verus! {

/// The delimiter a macro invocation is written with.
#[derive(Debug, PartialEq, Eq)]
pub enum MacroDelimiter {
    Paren,
    Brace,
    Bracket,
}

/// A macro invocation: a path, a delimiter and the raw tokens inside.
#[derive(Debug, PartialEq, Eq)]
pub struct Macro {
    pub path: Path,
    pub delimiter: MacroDelimiter,
    pub tokens: TokenStream,
}

/// A macro invocation of the given path over the given tokens, parenthesized.
pub fn macro_invocation<A: IntoPath>(path: A, tokens: TokenStream) -> (r: Macro)
    ensures
        path.into_path_ens(r.path),
        r.delimiter == MacroDelimiter::Paren,
        r.tokens == tokens,
{
    let path = path.into_path();
    Macro {
        path: path,
        delimiter: MacroDelimiter::Paren,
        tokens: tokens,
    }
}

/// The parenthesis delimiter.
pub fn macro_delimiter_paren_variant() -> (r: MacroDelimiter)
    ensures
        r == MacroDelimiter::Paren,
{
    MacroDelimiter::Paren
}

/// The brace delimiter.
pub fn macro_delimiter_brace_variant() -> (r: MacroDelimiter)
    ensures
        r == MacroDelimiter::Brace,
{
    MacroDelimiter::Brace
}

/// The bracket delimiter.
pub fn macro_delimiter_bracket_variant() -> (r: MacroDelimiter)
    ensures
        r == MacroDelimiter::Bracket,
{
    MacroDelimiter::Bracket
}

/// Anything that can become a macro delimiter.
pub trait IntoMacroDelimiter: Sized {
    /// The `MacroDelimiter` value that `self` becomes.
    spec fn macro_delimiter_of(self) -> MacroDelimiter;

    fn into_macro_delimiter(self) -> (r: MacroDelimiter)
        ensures
            r == self.macro_delimiter_of(),
    ;
}

/// The identity conversion: a `MacroDelimiter` stays exactly itself.
impl IntoMacroDelimiter for MacroDelimiter {
    open spec fn macro_delimiter_of(self) -> MacroDelimiter {
        self
    }

    fn into_macro_delimiter(self) -> (r: MacroDelimiter) {
        self
    }
}

impl IntoMacroDelimiter for token::Paren {
    open spec fn macro_delimiter_of(self) -> MacroDelimiter {
        MacroDelimiter::Paren
    }

    fn into_macro_delimiter(self) -> (r: MacroDelimiter) {
        MacroDelimiter::Paren
    }
}

impl IntoMacroDelimiter for token::Brace {
    open spec fn macro_delimiter_of(self) -> MacroDelimiter {
        MacroDelimiter::Brace
    }

    fn into_macro_delimiter(self) -> (r: MacroDelimiter) {
        MacroDelimiter::Brace
    }
}

impl IntoMacroDelimiter for token::Bracket {
    open spec fn macro_delimiter_of(self) -> MacroDelimiter {
        MacroDelimiter::Bracket
    }

    fn into_macro_delimiter(self) -> (r: MacroDelimiter) {
        MacroDelimiter::Bracket
    }
}

/// The fluent surface of a macro invocation.
pub trait MacroBuilder: Sized {
    /// Holds iff `r` is the node that the constructor arguments produce.
    spec fn new_ens(path: Path, tokens: TokenStream, r: Self) -> bool;

    fn new<A: IntoPath>(path: A, tokens: TokenStream) -> (r: Self)
        ensures
            exists|path_v: Path| #[trigger] path.into_path_ens(path_v) && Self::new_ens(path_v, tokens, r),
    ;
}

impl MacroBuilder for Macro {
    open spec fn new_ens(path: Path, tokens: TokenStream, r: Self) -> bool {
        r.path == path && r.delimiter == MacroDelimiter::Paren && r.tokens == tokens
    }

    fn new<A: IntoPath>(path: A, tokens: TokenStream) -> (r: Self) {
        macro_invocation(path, tokens)
    }
}

} // verus!
