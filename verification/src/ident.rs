use vstd::prelude::*;

verus! {

/// An identifier, carried by its name alone.
#[derive(Debug, PartialEq, Eq)]
pub struct Ident {
    pub name: String,
}

/// Anything that can become an identifier.
pub trait IntoIdent: Sized {
    /// Relates the source value to the `Ident` it becomes.
    spec fn into_ident_ens(self, r: Ident) -> bool;

    fn into_ident(self) -> (r: Ident)
        ensures
            self.into_ident_ens(r),
    ;
}

/// The identity conversion: an `Ident` stays exactly itself.
impl IntoIdent for Ident {
    open spec fn into_ident_ens(self, r: Ident) -> bool {
        r == self
    }

    fn into_ident(self) -> (r: Ident) {
        self
    }
}

/// A string slice becomes the identifier spelled that way.
impl IntoIdent for &str {
    open spec fn into_ident_ens(self, r: Ident) -> bool {
        r.name@ == self@
    }

    fn into_ident(self) -> (r: Ident) {
        Ident { name: self.to_owned() }
    }
}

/// A lifetime, carried by its name (without the apostrophe).
#[derive(Debug, PartialEq, Eq)]
pub struct Lifetime {
    pub ident: Ident,
}

} // verus!
