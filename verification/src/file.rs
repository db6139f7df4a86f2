use vstd::prelude::*;
use crate::attr::{Attribute};
use crate::convert::{into_item_vec};
use crate::item::{IntoItem, Item};
use crate::props::{AttrsPropsBuilder};

verus! {

/// A whole source file.
#[derive(Debug, PartialEq, Eq)]
pub struct File {
    pub shebang: Option<String>,
    pub attrs: Vec<Attribute>,
    pub items: Vec<Item>,
}

/// A source file over the given items, without a shebang.
pub fn file<A: IntoItem>(items: Vec<A>) -> (r: File)
    ensures
        r.shebang is None,
        r.attrs@ == Seq::<Attribute>::empty(),
        r.items@ == items@.map_values(|e: A| e.item_of()),
{
    let items = into_item_vec(items);
    File {
        shebang: None,
        attrs: Vec::new(),
        items: items,
    }
}

/// The fluent surface of a source file.
pub trait FileBuilder: AttrsPropsBuilder {
    /// Holds iff `r` is the node that the constructor arguments produce.
    spec fn new_ens(items: Seq<Item>, r: Self) -> bool;

    fn new<A: IntoItem>(items: Vec<A>) -> (r: Self)
        ensures
            Self::new_ens(items@.map_values(|e: A| e.item_of()), r),
    ;

    /// Holds iff `r` is `self` with the shebang line set.
    spec fn shebang_ens(self, shebang: String, r: Self) -> bool;

    /// Set the shebang line.
    fn shebang(self, shebang: String) -> (r: Self)
        ensures
            self.shebang_ens(shebang, r),
    ;
}

impl FileBuilder for File {
    open spec fn new_ens(items: Seq<Item>, r: Self) -> bool {
        r.shebang is None && r.attrs@ == Seq::<Attribute>::empty() && r.items@ == items
    }

    fn new<A: IntoItem>(items: Vec<A>) -> (r: Self) {
        file(items)
    }

    open spec fn shebang_ens(self, shebang: String, r: Self) -> bool {
        r == (File { shebang: Some(shebang), ..self })
    }

    fn shebang(self, shebang: String) -> (r: Self) {
        File { shebang: Some(shebang), ..self }
    }
}

impl AttrsPropsBuilder for File {
    open spec fn attr_ens(self, attr: Attribute, r: Self) -> bool {
        r == (File { attrs: r.attrs, ..self }) && r.attrs@ == self.attrs@.push(attr)
    }

    open spec fn attrs_ens(self, attrs: Vec<Attribute>, r: Self) -> bool {
        r == (File { attrs, ..self })
    }

    fn attr(self, attr: Attribute) -> (r: Self) {
        let mut node = self;
        node.attrs.push(attr);
        node
    }

    fn attrs(self, attrs: Vec<Attribute>) -> (r: Self) {
        File { attrs, ..self }
    }
}

} // verus!
