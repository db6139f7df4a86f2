//! Marker types standing for single tokens, so that a caller who
//! holds a token shape can convert it straight into the variant
//! it denotes without naming the variant-construction call.
use vstd::prelude::*;

verus! {

/// The `Plus` token shape.
#[derive(Debug, PartialEq, Eq)]
pub struct Plus;

/// The `Minus` token shape.
#[derive(Debug, PartialEq, Eq)]
pub struct Minus;

/// The `Star` token shape.
#[derive(Debug, PartialEq, Eq)]
pub struct Star;

/// The `Slash` token shape.
#[derive(Debug, PartialEq, Eq)]
pub struct Slash;

/// The `Percent` token shape.
#[derive(Debug, PartialEq, Eq)]
pub struct Percent;

/// The `AndAnd` token shape.
#[derive(Debug, PartialEq, Eq)]
pub struct AndAnd;

/// The `OrOr` token shape.
#[derive(Debug, PartialEq, Eq)]
pub struct OrOr;

/// The `Caret` token shape.
#[derive(Debug, PartialEq, Eq)]
pub struct Caret;

/// The `And` token shape.
#[derive(Debug, PartialEq, Eq)]
pub struct And;

/// The `Or` token shape.
#[derive(Debug, PartialEq, Eq)]
pub struct Or;

/// The `Shl` token shape.
#[derive(Debug, PartialEq, Eq)]
pub struct Shl;

/// The `Shr` token shape.
#[derive(Debug, PartialEq, Eq)]
pub struct Shr;

/// The `EqEq` token shape.
#[derive(Debug, PartialEq, Eq)]
pub struct EqEq;

/// The `Lt` token shape.
#[derive(Debug, PartialEq, Eq)]
pub struct Lt;

/// The `Le` token shape.
#[derive(Debug, PartialEq, Eq)]
pub struct Le;

/// The `Ne` token shape.
#[derive(Debug, PartialEq, Eq)]
pub struct Ne;

/// The `Ge` token shape.
#[derive(Debug, PartialEq, Eq)]
pub struct Ge;

/// The `Gt` token shape.
#[derive(Debug, PartialEq, Eq)]
pub struct Gt;

/// The `PlusEq` token shape.
#[derive(Debug, PartialEq, Eq)]
pub struct PlusEq;

/// The `MinusEq` token shape.
#[derive(Debug, PartialEq, Eq)]
pub struct MinusEq;

/// The `StarEq` token shape.
#[derive(Debug, PartialEq, Eq)]
pub struct StarEq;

/// The `SlashEq` token shape.
#[derive(Debug, PartialEq, Eq)]
pub struct SlashEq;

/// The `PercentEq` token shape.
#[derive(Debug, PartialEq, Eq)]
pub struct PercentEq;

/// The `CaretEq` token shape.
#[derive(Debug, PartialEq, Eq)]
pub struct CaretEq;

/// The `AndEq` token shape.
#[derive(Debug, PartialEq, Eq)]
pub struct AndEq;

/// The `OrEq` token shape.
#[derive(Debug, PartialEq, Eq)]
pub struct OrEq;

/// The `ShlEq` token shape.
#[derive(Debug, PartialEq, Eq)]
pub struct ShlEq;

/// The `ShrEq` token shape.
#[derive(Debug, PartialEq, Eq)]
pub struct ShrEq;

/// The `Not` token shape.
#[derive(Debug, PartialEq, Eq)]
pub struct Not;

/// The `Pub` token shape.
#[derive(Debug, PartialEq, Eq)]
pub struct Pub;

/// The `Paren` token shape.
#[derive(Debug, PartialEq, Eq)]
pub struct Paren;

/// The `Brace` token shape.
#[derive(Debug, PartialEq, Eq)]
pub struct Brace;

/// The `Bracket` token shape.
#[derive(Debug, PartialEq, Eq)]
pub struct Bracket;

/// The `DotDot` token shape.
#[derive(Debug, PartialEq, Eq)]
pub struct DotDot;

/// The `DotDotEq` token shape.
#[derive(Debug, PartialEq, Eq)]
pub struct DotDotEq;

} // verus!
