use vstd::prelude::*;
use crate::token;
use crate::token::{And, Ge, Gt, Le, Lt, Ne, Not, Or, Shl, Shr};

verus! {

/// A binary operator.
#[derive(Debug, PartialEq, Eq)]
pub enum BinOp {
    Add,
    Sub,
    Mul,
    Div,
    Rem,
    And,
    Or,
    BitXor,
    BitAnd,
    BitOr,
    Shl,
    Shr,
    Eq,
    Lt,
    Le,
    Ne,
    Ge,
    Gt,
    AddAssign,
    SubAssign,
    MulAssign,
    DivAssign,
    RemAssign,
    BitXorAssign,
    BitAndAssign,
    BitOrAssign,
    ShlAssign,
    ShrAssign,
}

/// A unary operator.
#[derive(Debug, PartialEq, Eq)]
pub enum UnOp {
    Deref,
    Not,
    Neg,
}

/// The `Add` binary operator.
pub fn bin_op_add_variant() -> (r: BinOp)
    ensures
        r == BinOp::Add,
{
    BinOp::Add
}

/// The `Sub` binary operator.
pub fn bin_op_sub_variant() -> (r: BinOp)
    ensures
        r == BinOp::Sub,
{
    BinOp::Sub
}

/// The `Mul` binary operator.
pub fn bin_op_mul_variant() -> (r: BinOp)
    ensures
        r == BinOp::Mul,
{
    BinOp::Mul
}

/// The `Div` binary operator.
pub fn bin_op_div_variant() -> (r: BinOp)
    ensures
        r == BinOp::Div,
{
    BinOp::Div
}

/// The `Rem` binary operator.
pub fn bin_op_rem_variant() -> (r: BinOp)
    ensures
        r == BinOp::Rem,
{
    BinOp::Rem
}

/// The `And` binary operator.
pub fn bin_op_and_variant() -> (r: BinOp)
    ensures
        r == BinOp::And,
{
    BinOp::And
}

/// The `Or` binary operator.
pub fn bin_op_or_variant() -> (r: BinOp)
    ensures
        r == BinOp::Or,
{
    BinOp::Or
}

/// The `BitXor` binary operator.
pub fn bin_op_bit_xor_variant() -> (r: BinOp)
    ensures
        r == BinOp::BitXor,
{
    BinOp::BitXor
}

/// The `BitAnd` binary operator.
pub fn bin_op_bit_and_variant() -> (r: BinOp)
    ensures
        r == BinOp::BitAnd,
{
    BinOp::BitAnd
}

/// The `BitOr` binary operator.
pub fn bin_op_bit_or_variant() -> (r: BinOp)
    ensures
        r == BinOp::BitOr,
{
    BinOp::BitOr
}

/// The `Shl` binary operator.
pub fn bin_op_shl_variant() -> (r: BinOp)
    ensures
        r == BinOp::Shl,
{
    BinOp::Shl
}

/// The `Shr` binary operator.
pub fn bin_op_shr_variant() -> (r: BinOp)
    ensures
        r == BinOp::Shr,
{
    BinOp::Shr
}

/// The `Eq` binary operator.
pub fn bin_op_eq_variant() -> (r: BinOp)
    ensures
        r == BinOp::Eq,
{
    BinOp::Eq
}

/// The `Lt` binary operator.
pub fn bin_op_lt_variant() -> (r: BinOp)
    ensures
        r == BinOp::Lt,
{
    BinOp::Lt
}

/// The `Le` binary operator.
pub fn bin_op_le_variant() -> (r: BinOp)
    ensures
        r == BinOp::Le,
{
    BinOp::Le
}

/// The `Ne` binary operator.
pub fn bin_op_ne_variant() -> (r: BinOp)
    ensures
        r == BinOp::Ne,
{
    BinOp::Ne
}

/// The `Ge` binary operator.
pub fn bin_op_ge_variant() -> (r: BinOp)
    ensures
        r == BinOp::Ge,
{
    BinOp::Ge
}

/// The `Gt` binary operator.
pub fn bin_op_gt_variant() -> (r: BinOp)
    ensures
        r == BinOp::Gt,
{
    BinOp::Gt
}

/// The `AddAssign` binary operator.
pub fn bin_op_add_assign_variant() -> (r: BinOp)
    ensures
        r == BinOp::AddAssign,
{
    BinOp::AddAssign
}

/// The `SubAssign` binary operator.
pub fn bin_op_sub_assign_variant() -> (r: BinOp)
    ensures
        r == BinOp::SubAssign,
{
    BinOp::SubAssign
}

/// The `MulAssign` binary operator.
pub fn bin_op_mul_assign_variant() -> (r: BinOp)
    ensures
        r == BinOp::MulAssign,
{
    BinOp::MulAssign
}

/// The `DivAssign` binary operator.
pub fn bin_op_div_assign_variant() -> (r: BinOp)
    ensures
        r == BinOp::DivAssign,
{
    BinOp::DivAssign
}

/// The `RemAssign` binary operator.
pub fn bin_op_rem_assign_variant() -> (r: BinOp)
    ensures
        r == BinOp::RemAssign,
{
    BinOp::RemAssign
}

/// The `BitXorAssign` binary operator.
pub fn bin_op_bit_xor_assign_variant() -> (r: BinOp)
    ensures
        r == BinOp::BitXorAssign,
{
    BinOp::BitXorAssign
}

/// The `BitAndAssign` binary operator.
pub fn bin_op_bit_and_assign_variant() -> (r: BinOp)
    ensures
        r == BinOp::BitAndAssign,
{
    BinOp::BitAndAssign
}

/// The `BitOrAssign` binary operator.
pub fn bin_op_bit_or_assign_variant() -> (r: BinOp)
    ensures
        r == BinOp::BitOrAssign,
{
    BinOp::BitOrAssign
}

/// The `ShlAssign` binary operator.
pub fn bin_op_shl_assign_variant() -> (r: BinOp)
    ensures
        r == BinOp::ShlAssign,
{
    BinOp::ShlAssign
}

/// The `ShrAssign` binary operator.
pub fn bin_op_shr_assign_variant() -> (r: BinOp)
    ensures
        r == BinOp::ShrAssign,
{
    BinOp::ShrAssign
}

/// Anything that can become a binary operator.
pub trait IntoBinOp: Sized {
    /// The `BinOp` value that `self` becomes.
    spec fn bin_op_of(self) -> BinOp;

    fn into_bin_op(self) -> (r: BinOp)
        ensures
            r == self.bin_op_of(),
    ;
}

/// The identity conversion: a `BinOp` stays exactly itself.
impl IntoBinOp for BinOp {
    open spec fn bin_op_of(self) -> BinOp {
        self
    }

    fn into_bin_op(self) -> (r: BinOp) {
        self
    }
}

impl IntoBinOp for token::Plus {
    open spec fn bin_op_of(self) -> BinOp {
        BinOp::Add
    }

    fn into_bin_op(self) -> (r: BinOp) {
        BinOp::Add
    }
}

impl IntoBinOp for token::Minus {
    open spec fn bin_op_of(self) -> BinOp {
        BinOp::Sub
    }

    fn into_bin_op(self) -> (r: BinOp) {
        BinOp::Sub
    }
}

impl IntoBinOp for token::Star {
    open spec fn bin_op_of(self) -> BinOp {
        BinOp::Mul
    }

    fn into_bin_op(self) -> (r: BinOp) {
        BinOp::Mul
    }
}

impl IntoBinOp for token::Slash {
    open spec fn bin_op_of(self) -> BinOp {
        BinOp::Div
    }

    fn into_bin_op(self) -> (r: BinOp) {
        BinOp::Div
    }
}

impl IntoBinOp for token::Percent {
    open spec fn bin_op_of(self) -> BinOp {
        BinOp::Rem
    }

    fn into_bin_op(self) -> (r: BinOp) {
        BinOp::Rem
    }
}

impl IntoBinOp for token::AndAnd {
    open spec fn bin_op_of(self) -> BinOp {
        BinOp::And
    }

    fn into_bin_op(self) -> (r: BinOp) {
        BinOp::And
    }
}

impl IntoBinOp for token::OrOr {
    open spec fn bin_op_of(self) -> BinOp {
        BinOp::Or
    }

    fn into_bin_op(self) -> (r: BinOp) {
        BinOp::Or
    }
}

impl IntoBinOp for token::Caret {
    open spec fn bin_op_of(self) -> BinOp {
        BinOp::BitXor
    }

    fn into_bin_op(self) -> (r: BinOp) {
        BinOp::BitXor
    }
}

impl IntoBinOp for token::And {
    open spec fn bin_op_of(self) -> BinOp {
        BinOp::BitAnd
    }

    fn into_bin_op(self) -> (r: BinOp) {
        BinOp::BitAnd
    }
}

impl IntoBinOp for token::Or {
    open spec fn bin_op_of(self) -> BinOp {
        BinOp::BitOr
    }

    fn into_bin_op(self) -> (r: BinOp) {
        BinOp::BitOr
    }
}

impl IntoBinOp for token::Shl {
    open spec fn bin_op_of(self) -> BinOp {
        BinOp::Shl
    }

    fn into_bin_op(self) -> (r: BinOp) {
        BinOp::Shl
    }
}

impl IntoBinOp for token::Shr {
    open spec fn bin_op_of(self) -> BinOp {
        BinOp::Shr
    }

    fn into_bin_op(self) -> (r: BinOp) {
        BinOp::Shr
    }
}

impl IntoBinOp for token::EqEq {
    open spec fn bin_op_of(self) -> BinOp {
        BinOp::Eq
    }

    fn into_bin_op(self) -> (r: BinOp) {
        BinOp::Eq
    }
}

impl IntoBinOp for token::Lt {
    open spec fn bin_op_of(self) -> BinOp {
        BinOp::Lt
    }

    fn into_bin_op(self) -> (r: BinOp) {
        BinOp::Lt
    }
}

impl IntoBinOp for token::Le {
    open spec fn bin_op_of(self) -> BinOp {
        BinOp::Le
    }

    fn into_bin_op(self) -> (r: BinOp) {
        BinOp::Le
    }
}

impl IntoBinOp for token::Ne {
    open spec fn bin_op_of(self) -> BinOp {
        BinOp::Ne
    }

    fn into_bin_op(self) -> (r: BinOp) {
        BinOp::Ne
    }
}

impl IntoBinOp for token::Ge {
    open spec fn bin_op_of(self) -> BinOp {
        BinOp::Ge
    }

    fn into_bin_op(self) -> (r: BinOp) {
        BinOp::Ge
    }
}

impl IntoBinOp for token::Gt {
    open spec fn bin_op_of(self) -> BinOp {
        BinOp::Gt
    }

    fn into_bin_op(self) -> (r: BinOp) {
        BinOp::Gt
    }
}

impl IntoBinOp for token::PlusEq {
    open spec fn bin_op_of(self) -> BinOp {
        BinOp::AddAssign
    }

    fn into_bin_op(self) -> (r: BinOp) {
        BinOp::AddAssign
    }
}

impl IntoBinOp for token::MinusEq {
    open spec fn bin_op_of(self) -> BinOp {
        BinOp::SubAssign
    }

    fn into_bin_op(self) -> (r: BinOp) {
        BinOp::SubAssign
    }
}

impl IntoBinOp for token::StarEq {
    open spec fn bin_op_of(self) -> BinOp {
        BinOp::MulAssign
    }

    fn into_bin_op(self) -> (r: BinOp) {
        BinOp::MulAssign
    }
}

impl IntoBinOp for token::SlashEq {
    open spec fn bin_op_of(self) -> BinOp {
        BinOp::DivAssign
    }

    fn into_bin_op(self) -> (r: BinOp) {
        BinOp::DivAssign
    }
}

impl IntoBinOp for token::PercentEq {
    open spec fn bin_op_of(self) -> BinOp {
        BinOp::RemAssign
    }

    fn into_bin_op(self) -> (r: BinOp) {
        BinOp::RemAssign
    }
}

impl IntoBinOp for token::CaretEq {
    open spec fn bin_op_of(self) -> BinOp {
        BinOp::BitXorAssign
    }

    fn into_bin_op(self) -> (r: BinOp) {
        BinOp::BitXorAssign
    }
}

impl IntoBinOp for token::AndEq {
    open spec fn bin_op_of(self) -> BinOp {
        BinOp::BitAndAssign
    }

    fn into_bin_op(self) -> (r: BinOp) {
        BinOp::BitAndAssign
    }
}

impl IntoBinOp for token::OrEq {
    open spec fn bin_op_of(self) -> BinOp {
        BinOp::BitOrAssign
    }

    fn into_bin_op(self) -> (r: BinOp) {
        BinOp::BitOrAssign
    }
}

impl IntoBinOp for token::ShlEq {
    open spec fn bin_op_of(self) -> BinOp {
        BinOp::ShlAssign
    }

    fn into_bin_op(self) -> (r: BinOp) {
        BinOp::ShlAssign
    }
}

impl IntoBinOp for token::ShrEq {
    open spec fn bin_op_of(self) -> BinOp {
        BinOp::ShrAssign
    }

    fn into_bin_op(self) -> (r: BinOp) {
        BinOp::ShrAssign
    }
}

/// The dereference operator.
pub fn un_op_deref() -> (r: UnOp)
    ensures
        r == UnOp::Deref,
{
    UnOp::Deref
}

/// The logical-not operator.
pub fn un_op_not() -> (r: UnOp)
    ensures
        r == UnOp::Not,
{
    UnOp::Not
}

/// The negation operator.
pub fn un_op_neg() -> (r: UnOp)
    ensures
        r == UnOp::Neg,
{
    UnOp::Neg
}

/// Anything that can become a unary operator.
pub trait IntoUnOp: Sized {
    /// The `UnOp` value that `self` becomes.
    spec fn un_op_of(self) -> UnOp;

    fn into_un_op(self) -> (r: UnOp)
        ensures
            r == self.un_op_of(),
    ;
}

/// The identity conversion: a `UnOp` stays exactly itself.
impl IntoUnOp for UnOp {
    open spec fn un_op_of(self) -> UnOp {
        self
    }

    fn into_un_op(self) -> (r: UnOp) {
        self
    }
}

impl IntoUnOp for token::Star {
    open spec fn un_op_of(self) -> UnOp {
        UnOp::Deref
    }

    fn into_un_op(self) -> (r: UnOp) {
        UnOp::Deref
    }
}

impl IntoUnOp for token::Not {
    open spec fn un_op_of(self) -> UnOp {
        UnOp::Not
    }

    fn into_un_op(self) -> (r: UnOp) {
        UnOp::Not
    }
}

impl IntoUnOp for token::Minus {
    open spec fn un_op_of(self) -> UnOp {
        UnOp::Neg
    }

    fn into_un_op(self) -> (r: UnOp) {
        UnOp::Neg
    }
}

} // verus!
