use vstd::prelude::*;
use crate::token;
use crate::convert::{str_content_eq};
use crate::path::{IntoPath, Path, PathArguments, path};

verus! {

/// How visible an item is: public, restricted to a path, or inherited.
#[derive(Debug, PartialEq, Eq)]
pub enum Visibility {
    Public,
    Restricted(VisRestricted),
    Inherited,
}

/// A visibility restricted to a path, as in `pub(crate)` or `pub(in a::b)`.
#[derive(Debug, PartialEq, Eq)]
pub struct VisRestricted {
    pub in_token: bool,
    pub path: Box<Path>,
}

/// The mutability marking of a field; the grammar today knows only one.
#[derive(Debug, PartialEq, Eq)]
pub enum FieldMutability {
    Inherited,
}

/// Anything that can become a visibility.
pub trait IntoVisibility: Sized {
    /// The `Visibility` value that `self` becomes.
    spec fn visibility_of(self) -> Visibility;

    fn into_visibility(self) -> (r: Visibility)
        ensures
            r == self.visibility_of(),
    ;
}

/// The identity conversion: a `Visibility` stays exactly itself.
impl IntoVisibility for Visibility {
    open spec fn visibility_of(self) -> Visibility {
        self
    }

    fn into_visibility(self) -> (r: Visibility) {
        self
    }
}

/// The bare `pub` token is the public visibility.
impl IntoVisibility for token::Pub {
    open spec fn visibility_of(self) -> Visibility {
        Visibility::Public
    }

    fn into_visibility(self) -> (r: Visibility) {
        Visibility::Public
    }
}

impl IntoVisibility for VisRestricted {
    open spec fn visibility_of(self) -> Visibility {
        Visibility::Restricted(self)
    }

    fn into_visibility(self) -> (r: Visibility) {
        Visibility::Restricted(self)
    }
}

/// The public visibility.
pub fn visibility_public_variant() -> (r: Visibility)
    ensures
        r == Visibility::Public,
{
    Visibility::Public
}

/// The only field-mutability marking.
pub fn field_mutability_none_variant() -> (r: FieldMutability)
    ensures
        r == FieldMutability::Inherited,
{
    FieldMutability::Inherited
}

/// The path components that name the enclosing scope itself. A restricted
/// visibility written to one of these needs no leading `in` keyword; any
/// other path does. Kept as one predicate so the set stays in a single place.
pub open spec fn is_reserved_name(s: Seq<char>) -> bool {
    s == "self"@ || s == "super"@ || s == "crate"@
}

/// Whether `s` spells one of the reserved scope components.
pub fn reserved_name(s: &str) -> (r: bool)
    ensures
        r == is_reserved_name(s@),
{
    str_content_eq(s, "self") || str_content_eq(s, "super") || str_content_eq(s, "crate")
}

/// Whether a path is exactly one bare reserved scope component.
pub open spec fn path_is_reserved_component(p: Path) -> bool {
    &&& p.leading_colon == false
    &&& p.segments@.len() == 1
    &&& p.segments@[0].arguments == PathArguments::Plain
    &&& is_reserved_name(p.segments@[0].ident.name@)
}

/// A visibility restricted to the given path. The `in` keyword marker is
/// present exactly when the path is not one bare `self`, `super` or `crate`.
pub fn vis_restricted<P: IntoPath>(path: P) -> (r: VisRestricted)
    ensures
        path.into_path_ens(*r.path),
        r.in_token == !path_is_reserved_component(*r.path),
{
    let path = path.into_path();
    let reserved = !path.leading_colon && path.segments.len() == 1
        && matches!(path.segments[0].arguments, PathArguments::Plain)
        && reserved_name(path.segments[0].ident.name.as_str());
    VisRestricted { in_token: !reserved, path: Box::new(path) }
}

/// The fluent surface of a restricted visibility.
pub trait VisRestrictedBuilder: Sized {
    /// Holds iff `r` is the node that the constructor arguments produce.
    spec fn new_ens(path: Path, r: Self) -> bool;

    fn new<A: IntoPath>(path: A) -> (r: Self)
        ensures
            exists|path_v: Path| #[trigger] path.into_path_ens(path_v) && Self::new_ens(path_v, r),
    ;
}

impl VisRestrictedBuilder for VisRestricted {
    open spec fn new_ens(path: Path, r: Self) -> bool {
        r.in_token == !path_is_reserved_component(path) && *r.path == path
    }

    fn new<A: IntoPath>(path: A) -> (r: Self) {
        vis_restricted(path)
    }
}

} // verus!
