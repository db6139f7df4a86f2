//! The cross-cutting fluent capabilities: each concern that many node
//! shapes share (attributes, visibility, mutability, and the rest) is one
//! trait here, implemented beside each node that carries the field.
use vstd::prelude::*;
use crate::attr::{Attribute};
use crate::derive::{DeriveInputBuilder};
use crate::expr::{ExprBreakBuilder, ExprContinueBuilder, Label, label};
use crate::generics::{Generics, generics};
use crate::item::{ForeignItemStaticBuilder, ItemStaticBuilder, ReceiverBuilder};
use crate::path::{AngleBracketedGenericArguments, QSelf};
use crate::restriction::{IntoVisibility, Visibility};
use crate::ty::{IntoType, Type, TypeBareFnBuilder};

verus! {

/// Nodes carrying an ordered attribute list.
pub trait AttrsPropsBuilder: Sized {
    /// Holds iff `r` is `self` with `attr` appended to the attribute list
    /// and every other field unchanged.
    spec fn attr_ens(self, attr: Attribute, r: Self) -> bool;

    /// Holds iff `r` is `self` with the attribute list replaced wholesale
    /// and every other field unchanged.
    spec fn attrs_ens(self, attrs: Vec<Attribute>, r: Self) -> bool;

    /// Append one attribute, keeping the ones already there.
    fn attr(self, attr: Attribute) -> (r: Self)
        ensures
            self.attr_ens(attr, r),
    ;

    /// Replace the whole attribute list, discarding the ones already there.
    fn attrs(self, attrs: Vec<Attribute>) -> (r: Self)
        ensures
            self.attrs_ens(attrs, r),
    ;
}

/// Nodes carrying a visibility.
pub trait VisPropsBuilder: Sized {
    /// Holds iff `r` is `self` with the visibility replaced and every other
    /// field unchanged.
    spec fn vis_ens(self, vis: Visibility, r: Self) -> bool;

    /// Replace the visibility.
    fn vis<V: IntoVisibility>(self, vis: V) -> (r: Self)
        ensures
            self.vis_ens(vis.visibility_of(), r),
    ;
}

/// Nodes carrying a mutability marker.
pub trait MutabilityPropsBuilder: Sized {
    /// Holds iff `r` is `self` with the mutability marker set as given and
    /// every other field unchanged.
    spec fn mutability_ens(self, mutability: bool, r: Self) -> bool;

    /// Set or clear the mutability marker.
    fn mutability(self, mutability: bool) -> (r: Self)
        ensures
            self.mutability_ens(mutability, r),
    ;
}

/// Nodes carrying an optional path qualification.
pub trait QSelfPropsBuilder: Sized {
    /// Holds iff `r` is `self` with the qualification set and every other
    /// field unchanged.
    spec fn qself_ens(self, qself: QSelf, r: Self) -> bool;

    /// Qualify the node's path.
    fn qself(self, qself: QSelf) -> (r: Self)
        ensures
            self.qself_ens(qself, r),
    ;
}

/// Nodes carrying an optional loop or block label.
pub trait LabelPropsBuilder: Sized {
    /// Holds iff `r` is `self` with the label set and every other field
    /// unchanged.
    spec fn label_ens(self, label: Label, r: Self) -> bool;

    /// Label the node.
    fn label(self, label: Label) -> (r: Self)
        ensures
            self.label_ens(label, r),
    ;
}

/// Nodes carrying an optional return-type annotation.
pub trait OutputPropsBuilder: Sized {
    /// Holds iff `r` is `self` with the explicit return type set and every
    /// other field unchanged.
    spec fn output_ens(self, ty: Type, r: Self) -> bool;

    /// Set an explicit return type.
    fn output<T: IntoType>(self, ty: T) -> (r: Self)
        ensures
            self.output_ens(ty.type_of(), r),
    ;
}

/// Nodes carrying an unsafety marker.
pub trait UnsafetyPropsBuilder: Sized {
    /// Holds iff `r` is `self` with the unsafety marker set as given and
    /// every other field unchanged.
    spec fn unsafety_ens(self, unsafety: bool, r: Self) -> bool;

    /// Set or clear the unsafety marker.
    fn unsafety(self, unsafety: bool) -> (r: Self)
        ensures
            self.unsafety_ens(unsafety, r),
    ;
}

/// Nodes carrying a defaultness marker.
pub trait DefaultnessPropsBuilder: Sized {
    /// Holds iff `r` is `self` with the defaultness marker set as given and
    /// every other field unchanged.
    spec fn defaultness_ens(self, defaultness: bool, r: Self) -> bool;

    /// Set or clear the defaultness marker.
    fn defaultness(self, defaultness: bool) -> (r: Self)
        ensures
            self.defaultness_ens(defaultness, r),
    ;
}

/// Item-like nodes carrying a generic-parameter list.
pub trait ItemGenericsPropsBuilder: Sized {
    /// Holds iff `r` is `self` with the generics replaced wholesale and
    /// every other field unchanged.
    spec fn generics_ens(self, generics: Generics, r: Self) -> bool;

    /// Replace the generic-parameter list wholesale.
    fn generics(self, generics: Generics) -> (r: Self)
        ensures
            self.generics_ens(generics, r),
    ;
}

/// Path-argument nodes carrying optional angle-bracketed generics.
pub trait PathGenericsBuilder: Sized {
    /// Holds iff `r` is `self` with the generic arguments set and every
    /// other field unchanged.
    spec fn generics_ens(self, generics: AngleBracketedGenericArguments, r: Self) -> bool;

    /// Attach angle-bracketed generic arguments.
    fn generics(self, generics: AngleBracketedGenericArguments) -> (r: Self)
        ensures
            self.generics_ens(generics, r),
    ;
}

} // verus!
