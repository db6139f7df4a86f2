use vstd::prelude::*;
use vstd::slice::slice_to_vec;

verus! {

/// A raw stream of tokens, carried as its textual spelling: the escape
/// hatch for content the grammar enumeration cannot represent.
#[derive(Debug, PartialEq, Eq)]
pub struct TokenStream {
    pub text: String,
}

/// A literal of any shape.
#[derive(Debug, PartialEq, Eq)]
pub enum Lit {
    Str(LitStr),
    ByteStr(LitByteStr),
    Byte(LitByte),
    Char(LitChar),
    Int(LitInt),
    Float(LitFloat),
    Bool(LitBool),
}

/// A string literal, by its value.
#[derive(Debug, PartialEq, Eq)]
pub struct LitStr {
    pub value: String,
}

/// A byte-string literal, by its bytes.
#[derive(Debug, PartialEq, Eq)]
pub struct LitByteStr {
    pub value: Vec<u8>,
}

/// A byte literal.
#[derive(Debug, PartialEq, Eq)]
pub struct LitByte {
    pub value: u8,
}

/// A character literal.
#[derive(Debug, PartialEq, Eq)]
pub struct LitChar {
    pub value: char,
}

/// An integer literal, carried as its source spelling (digits and suffix).
#[derive(Debug, PartialEq, Eq)]
pub struct LitInt {
    pub repr: String,
}

/// A floating-point literal, carried as its source spelling.
#[derive(Debug, PartialEq, Eq)]
pub struct LitFloat {
    pub repr: String,
}

/// A boolean literal.
#[derive(Debug, PartialEq, Eq)]
pub struct LitBool {
    pub value: bool,
}

/// Anything that can become a literal.
pub trait IntoLit: Sized {
    /// The `Lit` value that `self` becomes.
    spec fn lit_of(self) -> Lit;

    fn into_lit(self) -> (r: Lit)
        ensures
            r == self.lit_of(),
    ;
}

/// The identity conversion: a `Lit` stays exactly itself.
impl IntoLit for Lit {
    open spec fn lit_of(self) -> Lit {
        self
    }

    fn into_lit(self) -> (r: Lit) {
        self
    }
}

impl IntoLit for LitStr {
    open spec fn lit_of(self) -> Lit {
        Lit::Str(self)
    }

    fn into_lit(self) -> (r: Lit) {
        Lit::Str(self)
    }
}

impl IntoLit for LitByteStr {
    open spec fn lit_of(self) -> Lit {
        Lit::ByteStr(self)
    }

    fn into_lit(self) -> (r: Lit) {
        Lit::ByteStr(self)
    }
}

impl IntoLit for LitByte {
    open spec fn lit_of(self) -> Lit {
        Lit::Byte(self)
    }

    fn into_lit(self) -> (r: Lit) {
        Lit::Byte(self)
    }
}

impl IntoLit for LitChar {
    open spec fn lit_of(self) -> Lit {
        Lit::Char(self)
    }

    fn into_lit(self) -> (r: Lit) {
        Lit::Char(self)
    }
}

impl IntoLit for LitInt {
    open spec fn lit_of(self) -> Lit {
        Lit::Int(self)
    }

    fn into_lit(self) -> (r: Lit) {
        Lit::Int(self)
    }
}

impl IntoLit for LitFloat {
    open spec fn lit_of(self) -> Lit {
        Lit::Float(self)
    }

    fn into_lit(self) -> (r: Lit) {
        Lit::Float(self)
    }
}

impl IntoLit for LitBool {
    open spec fn lit_of(self) -> Lit {
        Lit::Bool(self)
    }

    fn into_lit(self) -> (r: Lit) {
        Lit::Bool(self)
    }
}

/// A string literal with the given value.
pub fn lit_str(value: &str) -> (r: LitStr)
    ensures
        r.value@ == value@,
{
    let value = value.to_owned();
    LitStr {
        value: value,
    }
}

/// A byte-string literal with the given bytes.
pub fn lit_byte_str(value: &[u8]) -> (r: LitByteStr)
    ensures
        r.value@ == value@,
{
    let value = slice_to_vec(value);
    LitByteStr {
        value: value,
    }
}

/// A byte literal.
pub fn lit_byte(value: u8) -> (r: LitByte)
    ensures
        r.value == value,
{
    LitByte {
        value: value,
    }
}

/// A character literal.
pub fn lit_char(value: char) -> (r: LitChar)
    ensures
        r.value == value,
{
    LitChar {
        value: value,
    }
}

/// An integer literal spelled as given.
pub fn lit_int(value: &str) -> (r: LitInt)
    ensures
        r.repr@ == value@,
{
    let value = value.to_owned();
    LitInt {
        repr: value,
    }
}

/// A floating-point literal spelled as given.
pub fn lit_float(value: &str) -> (r: LitFloat)
    ensures
        r.repr@ == value@,
{
    let value = value.to_owned();
    LitFloat {
        repr: value,
    }
}

/// A boolean literal.
pub fn lit_bool(value: bool) -> (r: LitBool)
    ensures
        r.value == value,
{
    LitBool {
        value: value,
    }
}

} // verus!
