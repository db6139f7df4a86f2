use vstd::prelude::*;
use crate::token;
use crate::attr::{Attribute};
use crate::convert::{into_expr_vec, into_pat_vec};
use crate::data::{Field};
use crate::generics::{BoundLifetimes, GenericParam, PredicateTypeBuilder, TraitBoundBuilder};
use crate::ident::{Ident, IntoIdent, Lifetime};
use crate::item::{SignatureBuilder, receiver};
use crate::lit::{IntoLit, Lit, TokenStream};
use crate::mac::{Macro};
use crate::op::{BinOp, IntoBinOp, IntoUnOp, UnOp};
use crate::pat::{IntoPat, Pat, PatStructBuilder};
use crate::path::{AngleBracketedGenericArguments, IntoPath, Path, QSelf, path};
use crate::props::{AttrsPropsBuilder, LabelPropsBuilder, MutabilityPropsBuilder, OutputPropsBuilder, QSelfPropsBuilder};
use crate::stmt::{Block, block};
use crate::token::{Paren};
use crate::ty::{IntoType, ReturnType, Type, TypeBareFnBuilder};

verus! {

/// A struct or tuple member: a field name or a position.
#[derive(Debug, PartialEq, Eq)]
pub enum Member {
    Named(Ident),
    Unnamed(Index),
}

/// A positional member.
#[derive(Debug, PartialEq, Eq)]
pub struct Index {
    pub index: usize,
}

/// Whether a range excludes or includes its upper end.
#[derive(Debug, PartialEq, Eq)]
pub enum RangeLimits {
    HalfOpen,
    Closed,
}

/// A loop or block label.
#[derive(Debug, PartialEq, Eq)]
pub struct Label {
    pub name: Lifetime,
}

/// An expression, in any of its shapes.
#[derive(Debug, PartialEq, Eq)]
pub enum Expr {
    Array(ExprArray),
    Assign(ExprAssign),
    Async(ExprAsync),
    Await(ExprAwait),
    Binary(ExprBinary),
    Block(ExprBlock),
    Break(ExprBreak),
    Call(ExprCall),
    Cast(ExprCast),
    Closure(ExprClosure),
    Const(ExprConst),
    Continue(ExprContinue),
    Field(ExprField),
    ForLoop(ExprForLoop),
    Group(ExprGroup),
    If(ExprIf),
    Index(ExprIndex),
    Infer(ExprInfer),
    Let(ExprLet),
    Lit(ExprLit),
    Loop(ExprLoop),
    Macro(ExprMacro),
    Match(ExprMatch),
    MethodCall(ExprMethodCall),
    Paren(ExprParen),
    Path(ExprPath),
    Range(ExprRange),
    Reference(ExprReference),
    Repeat(ExprRepeat),
    Return(ExprReturn),
    Struct(ExprStruct),
    Try(ExprTry),
    TryBlock(ExprTryBlock),
    Tuple(ExprTuple),
    Unary(ExprUnary),
    Unsafe(ExprUnsafe),
    Verbatim(TokenStream),
    While(ExprWhile),
    Yield(ExprYield),
}

/// An array literal expression.
#[derive(Debug, PartialEq, Eq)]
pub struct ExprArray {
    pub attrs: Vec<Attribute>,
    pub elems: Vec<Expr>,
}

/// An assignment expression.
#[derive(Debug, PartialEq, Eq)]
pub struct ExprAssign {
    pub attrs: Vec<Attribute>,
    pub left: Box<Expr>,
    pub right: Box<Expr>,
}

/// An async block, optionally capturing by move.
#[derive(Debug, PartialEq, Eq)]
pub struct ExprAsync {
    pub attrs: Vec<Attribute>,
    pub capture: bool,
    pub block: Block,
}

/// An await expression.
#[derive(Debug, PartialEq, Eq)]
pub struct ExprAwait {
    pub attrs: Vec<Attribute>,
    pub base: Box<Expr>,
}

/// A binary operation.
#[derive(Debug, PartialEq, Eq)]
pub struct ExprBinary {
    pub attrs: Vec<Attribute>,
    pub left: Box<Expr>,
    pub op: BinOp,
    pub right: Box<Expr>,
}

/// A block expression, optionally labeled.
#[derive(Debug, PartialEq, Eq)]
pub struct ExprBlock {
    pub attrs: Vec<Attribute>,
    pub label: Option<Label>,
    pub block: Block,
}

/// A break, optionally labeled and optionally carrying a value.
#[derive(Debug, PartialEq, Eq)]
pub struct ExprBreak {
    pub attrs: Vec<Attribute>,
    pub label: Option<Lifetime>,
    pub expr: Option<Box<Expr>>,
}

/// A function call.
#[derive(Debug, PartialEq, Eq)]
pub struct ExprCall {
    pub attrs: Vec<Attribute>,
    pub func: Box<Expr>,
    pub args: Vec<Expr>,
}

/// A cast expression.
#[derive(Debug, PartialEq, Eq)]
pub struct ExprCast {
    pub attrs: Vec<Attribute>,
    pub expr: Box<Expr>,
    pub ty: Box<Type>,
}

/// A closure expression.
#[derive(Debug, PartialEq, Eq)]
pub struct ExprClosure {
    pub attrs: Vec<Attribute>,
    pub lifetimes: Option<BoundLifetimes>,
    pub constness: bool,
    pub movability: bool,
    pub asyncness: bool,
    pub capture: bool,
    pub inputs: Vec<Pat>,
    pub output: ReturnType,
    pub body: Box<Expr>,
}

/// A const block.
#[derive(Debug, PartialEq, Eq)]
pub struct ExprConst {
    pub attrs: Vec<Attribute>,
    pub block: Block,
}

/// A continue, optionally labeled.
#[derive(Debug, PartialEq, Eq)]
pub struct ExprContinue {
    pub attrs: Vec<Attribute>,
    pub label: Option<Lifetime>,
}

/// A field access.
#[derive(Debug, PartialEq, Eq)]
pub struct ExprField {
    pub attrs: Vec<Attribute>,
    pub base: Box<Expr>,
    pub member: Member,
}

/// A for loop.
#[derive(Debug, PartialEq, Eq)]
pub struct ExprForLoop {
    pub attrs: Vec<Attribute>,
    pub label: Option<Label>,
    pub pat: Box<Pat>,
    pub expr: Box<Expr>,
    pub body: Block,
}

/// An expression kept grouped by an invisible delimiter.
#[derive(Debug, PartialEq, Eq)]
pub struct ExprGroup {
    pub attrs: Vec<Attribute>,
    pub expr: Box<Expr>,
}

/// An if expression with an optional else branch.
#[derive(Debug, PartialEq, Eq)]
pub struct ExprIf {
    pub attrs: Vec<Attribute>,
    pub cond: Box<Expr>,
    pub then_branch: Block,
    pub else_branch: Option<Box<Expr>>,
}

/// An indexing expression.
#[derive(Debug, PartialEq, Eq)]
pub struct ExprIndex {
    pub attrs: Vec<Attribute>,
    pub expr: Box<Expr>,
    pub index: Box<Expr>,
}

/// The inferred expression `_`.
#[derive(Debug, PartialEq, Eq)]
pub struct ExprInfer {
    pub attrs: Vec<Attribute>,
}

/// A let guard expression.
#[derive(Debug, PartialEq, Eq)]
pub struct ExprLet {
    pub attrs: Vec<Attribute>,
    pub pat: Box<Pat>,
    pub expr: Box<Expr>,
}

/// A literal expression.
#[derive(Debug, PartialEq, Eq)]
pub struct ExprLit {
    pub attrs: Vec<Attribute>,
    pub lit: Lit,
}

/// An unconditional loop, optionally labeled.
#[derive(Debug, PartialEq, Eq)]
pub struct ExprLoop {
    pub attrs: Vec<Attribute>,
    pub label: Option<Label>,
    pub body: Block,
}

/// A macro in expression position.
#[derive(Debug, PartialEq, Eq)]
pub struct ExprMacro {
    pub attrs: Vec<Attribute>,
    pub mac: Macro,
}

/// A match expression.
#[derive(Debug, PartialEq, Eq)]
pub struct ExprMatch {
    pub attrs: Vec<Attribute>,
    pub expr: Box<Expr>,
    pub arms: Vec<Arm>,
}

/// A method call, optionally turbofished.
#[derive(Debug, PartialEq, Eq)]
pub struct ExprMethodCall {
    pub attrs: Vec<Attribute>,
    pub receiver: Box<Expr>,
    pub method: Ident,
    pub turbofish: Option<AngleBracketedGenericArguments>,
    pub args: Vec<Expr>,
}

/// A parenthesized expression.
#[derive(Debug, PartialEq, Eq)]
pub struct ExprParen {
    pub attrs: Vec<Attribute>,
    pub expr: Box<Expr>,
}

/// A path expression, possibly qualified.
#[derive(Debug, PartialEq, Eq)]
pub struct ExprPath {
    pub attrs: Vec<Attribute>,
    pub qself: Option<QSelf>,
    pub path: Path,
}

/// A range expression with optional endpoints.
#[derive(Debug, PartialEq, Eq)]
pub struct ExprRange {
    pub attrs: Vec<Attribute>,
    pub start: Option<Box<Expr>>,
    pub limits: RangeLimits,
    pub end: Option<Box<Expr>>,
}

/// A borrow expression.
#[derive(Debug, PartialEq, Eq)]
pub struct ExprReference {
    pub attrs: Vec<Attribute>,
    pub mutability: bool,
    pub expr: Box<Expr>,
}

/// An array-repeat expression `[e; n]`.
#[derive(Debug, PartialEq, Eq)]
pub struct ExprRepeat {
    pub attrs: Vec<Attribute>,
    pub expr: Box<Expr>,
    pub len: Box<Expr>,
}

/// A return, optionally carrying a value.
#[derive(Debug, PartialEq, Eq)]
pub struct ExprReturn {
    pub attrs: Vec<Attribute>,
    pub expr: Option<Box<Expr>>,
}

/// A struct literal, with optional update-syntax rest.
#[derive(Debug, PartialEq, Eq)]
pub struct ExprStruct {
    pub attrs: Vec<Attribute>,
    pub qself: Option<QSelf>,
    pub path: Path,
    pub fields: Vec<FieldValue>,
    pub dot2_token: bool,
    pub rest: Option<Box<Expr>>,
}

/// A try (question mark) expression.
#[derive(Debug, PartialEq, Eq)]
pub struct ExprTry {
    pub attrs: Vec<Attribute>,
    pub expr: Box<Expr>,
}

/// A try block.
#[derive(Debug, PartialEq, Eq)]
pub struct ExprTryBlock {
    pub attrs: Vec<Attribute>,
    pub block: Block,
}

/// A tuple expression.
#[derive(Debug, PartialEq, Eq)]
pub struct ExprTuple {
    pub attrs: Vec<Attribute>,
    pub elems: Vec<Expr>,
}

/// A unary operation.
#[derive(Debug, PartialEq, Eq)]
pub struct ExprUnary {
    pub attrs: Vec<Attribute>,
    pub op: UnOp,
    pub expr: Box<Expr>,
}

/// An unsafe block.
#[derive(Debug, PartialEq, Eq)]
pub struct ExprUnsafe {
    pub attrs: Vec<Attribute>,
    pub block: Block,
}

/// A while loop, optionally labeled.
#[derive(Debug, PartialEq, Eq)]
pub struct ExprWhile {
    pub attrs: Vec<Attribute>,
    pub label: Option<Label>,
    pub cond: Box<Expr>,
    pub body: Block,
}

/// A yield, optionally carrying a value.
#[derive(Debug, PartialEq, Eq)]
pub struct ExprYield {
    pub attrs: Vec<Attribute>,
    pub expr: Option<Box<Expr>>,
}

/// One field of a struct literal.
#[derive(Debug, PartialEq, Eq)]
pub struct FieldValue {
    pub attrs: Vec<Attribute>,
    pub member: Member,
    pub colon_token: bool,
    pub expr: Expr,
}

/// One arm of a match expression.
#[derive(Debug, PartialEq, Eq)]
pub struct Arm {
    pub attrs: Vec<Attribute>,
    pub pat: Pat,
    pub guard: Option<Box<Expr>>,
    pub body: Box<Expr>,
    pub comma: bool,
}

/// Anything that can become an expression.
pub trait IntoExpr: Sized {
    /// The `Expr` value that `self` becomes.
    spec fn expr_of(self) -> Expr;

    fn into_expr(self) -> (r: Expr)
        ensures
            r == self.expr_of(),
    ;
}

/// The identity conversion: a `Expr` stays exactly itself.
impl IntoExpr for Expr {
    open spec fn expr_of(self) -> Expr {
        self
    }

    fn into_expr(self) -> (r: Expr) {
        self
    }
}

impl IntoExpr for ExprArray {
    open spec fn expr_of(self) -> Expr {
        Expr::Array(self)
    }

    fn into_expr(self) -> (r: Expr) {
        Expr::Array(self)
    }
}

impl IntoExpr for ExprAssign {
    open spec fn expr_of(self) -> Expr {
        Expr::Assign(self)
    }

    fn into_expr(self) -> (r: Expr) {
        Expr::Assign(self)
    }
}

impl IntoExpr for ExprAsync {
    open spec fn expr_of(self) -> Expr {
        Expr::Async(self)
    }

    fn into_expr(self) -> (r: Expr) {
        Expr::Async(self)
    }
}

impl IntoExpr for ExprAwait {
    open spec fn expr_of(self) -> Expr {
        Expr::Await(self)
    }

    fn into_expr(self) -> (r: Expr) {
        Expr::Await(self)
    }
}

impl IntoExpr for ExprBinary {
    open spec fn expr_of(self) -> Expr {
        Expr::Binary(self)
    }

    fn into_expr(self) -> (r: Expr) {
        Expr::Binary(self)
    }
}

impl IntoExpr for ExprBlock {
    open spec fn expr_of(self) -> Expr {
        Expr::Block(self)
    }

    fn into_expr(self) -> (r: Expr) {
        Expr::Block(self)
    }
}

impl IntoExpr for ExprBreak {
    open spec fn expr_of(self) -> Expr {
        Expr::Break(self)
    }

    fn into_expr(self) -> (r: Expr) {
        Expr::Break(self)
    }
}

impl IntoExpr for ExprCall {
    open spec fn expr_of(self) -> Expr {
        Expr::Call(self)
    }

    fn into_expr(self) -> (r: Expr) {
        Expr::Call(self)
    }
}

impl IntoExpr for ExprCast {
    open spec fn expr_of(self) -> Expr {
        Expr::Cast(self)
    }

    fn into_expr(self) -> (r: Expr) {
        Expr::Cast(self)
    }
}

impl IntoExpr for ExprClosure {
    open spec fn expr_of(self) -> Expr {
        Expr::Closure(self)
    }

    fn into_expr(self) -> (r: Expr) {
        Expr::Closure(self)
    }
}

impl IntoExpr for ExprConst {
    open spec fn expr_of(self) -> Expr {
        Expr::Const(self)
    }

    fn into_expr(self) -> (r: Expr) {
        Expr::Const(self)
    }
}

impl IntoExpr for ExprContinue {
    open spec fn expr_of(self) -> Expr {
        Expr::Continue(self)
    }

    fn into_expr(self) -> (r: Expr) {
        Expr::Continue(self)
    }
}

impl IntoExpr for ExprField {
    open spec fn expr_of(self) -> Expr {
        Expr::Field(self)
    }

    fn into_expr(self) -> (r: Expr) {
        Expr::Field(self)
    }
}

impl IntoExpr for ExprForLoop {
    open spec fn expr_of(self) -> Expr {
        Expr::ForLoop(self)
    }

    fn into_expr(self) -> (r: Expr) {
        Expr::ForLoop(self)
    }
}

impl IntoExpr for ExprGroup {
    open spec fn expr_of(self) -> Expr {
        Expr::Group(self)
    }

    fn into_expr(self) -> (r: Expr) {
        Expr::Group(self)
    }
}

impl IntoExpr for ExprIf {
    open spec fn expr_of(self) -> Expr {
        Expr::If(self)
    }

    fn into_expr(self) -> (r: Expr) {
        Expr::If(self)
    }
}

impl IntoExpr for ExprIndex {
    open spec fn expr_of(self) -> Expr {
        Expr::Index(self)
    }

    fn into_expr(self) -> (r: Expr) {
        Expr::Index(self)
    }
}

impl IntoExpr for ExprInfer {
    open spec fn expr_of(self) -> Expr {
        Expr::Infer(self)
    }

    fn into_expr(self) -> (r: Expr) {
        Expr::Infer(self)
    }
}

impl IntoExpr for ExprLet {
    open spec fn expr_of(self) -> Expr {
        Expr::Let(self)
    }

    fn into_expr(self) -> (r: Expr) {
        Expr::Let(self)
    }
}

impl IntoExpr for ExprLit {
    open spec fn expr_of(self) -> Expr {
        Expr::Lit(self)
    }

    fn into_expr(self) -> (r: Expr) {
        Expr::Lit(self)
    }
}

impl IntoExpr for ExprLoop {
    open spec fn expr_of(self) -> Expr {
        Expr::Loop(self)
    }

    fn into_expr(self) -> (r: Expr) {
        Expr::Loop(self)
    }
}

impl IntoExpr for ExprMacro {
    open spec fn expr_of(self) -> Expr {
        Expr::Macro(self)
    }

    fn into_expr(self) -> (r: Expr) {
        Expr::Macro(self)
    }
}

impl IntoExpr for ExprMatch {
    open spec fn expr_of(self) -> Expr {
        Expr::Match(self)
    }

    fn into_expr(self) -> (r: Expr) {
        Expr::Match(self)
    }
}

impl IntoExpr for ExprMethodCall {
    open spec fn expr_of(self) -> Expr {
        Expr::MethodCall(self)
    }

    fn into_expr(self) -> (r: Expr) {
        Expr::MethodCall(self)
    }
}

impl IntoExpr for ExprParen {
    open spec fn expr_of(self) -> Expr {
        Expr::Paren(self)
    }

    fn into_expr(self) -> (r: Expr) {
        Expr::Paren(self)
    }
}

impl IntoExpr for ExprPath {
    open spec fn expr_of(self) -> Expr {
        Expr::Path(self)
    }

    fn into_expr(self) -> (r: Expr) {
        Expr::Path(self)
    }
}

impl IntoExpr for ExprRange {
    open spec fn expr_of(self) -> Expr {
        Expr::Range(self)
    }

    fn into_expr(self) -> (r: Expr) {
        Expr::Range(self)
    }
}

impl IntoExpr for ExprReference {
    open spec fn expr_of(self) -> Expr {
        Expr::Reference(self)
    }

    fn into_expr(self) -> (r: Expr) {
        Expr::Reference(self)
    }
}

impl IntoExpr for ExprRepeat {
    open spec fn expr_of(self) -> Expr {
        Expr::Repeat(self)
    }

    fn into_expr(self) -> (r: Expr) {
        Expr::Repeat(self)
    }
}

impl IntoExpr for ExprReturn {
    open spec fn expr_of(self) -> Expr {
        Expr::Return(self)
    }

    fn into_expr(self) -> (r: Expr) {
        Expr::Return(self)
    }
}

impl IntoExpr for ExprStruct {
    open spec fn expr_of(self) -> Expr {
        Expr::Struct(self)
    }

    fn into_expr(self) -> (r: Expr) {
        Expr::Struct(self)
    }
}

impl IntoExpr for ExprTry {
    open spec fn expr_of(self) -> Expr {
        Expr::Try(self)
    }

    fn into_expr(self) -> (r: Expr) {
        Expr::Try(self)
    }
}

impl IntoExpr for ExprTryBlock {
    open spec fn expr_of(self) -> Expr {
        Expr::TryBlock(self)
    }

    fn into_expr(self) -> (r: Expr) {
        Expr::TryBlock(self)
    }
}

impl IntoExpr for ExprTuple {
    open spec fn expr_of(self) -> Expr {
        Expr::Tuple(self)
    }

    fn into_expr(self) -> (r: Expr) {
        Expr::Tuple(self)
    }
}

impl IntoExpr for ExprUnary {
    open spec fn expr_of(self) -> Expr {
        Expr::Unary(self)
    }

    fn into_expr(self) -> (r: Expr) {
        Expr::Unary(self)
    }
}

impl IntoExpr for ExprUnsafe {
    open spec fn expr_of(self) -> Expr {
        Expr::Unsafe(self)
    }

    fn into_expr(self) -> (r: Expr) {
        Expr::Unsafe(self)
    }
}

impl IntoExpr for TokenStream {
    open spec fn expr_of(self) -> Expr {
        Expr::Verbatim(self)
    }

    fn into_expr(self) -> (r: Expr) {
        Expr::Verbatim(self)
    }
}

impl IntoExpr for ExprWhile {
    open spec fn expr_of(self) -> Expr {
        Expr::While(self)
    }

    fn into_expr(self) -> (r: Expr) {
        Expr::While(self)
    }
}

impl IntoExpr for ExprYield {
    open spec fn expr_of(self) -> Expr {
        Expr::Yield(self)
    }

    fn into_expr(self) -> (r: Expr) {
        Expr::Yield(self)
    }
}

/// Anything that can become a member.
pub trait IntoMember: Sized {
    /// The `Member` value that `self` becomes.
    spec fn member_of(self) -> Member;

    fn into_member(self) -> (r: Member)
        ensures
            r == self.member_of(),
    ;
}

/// The identity conversion: a `Member` stays exactly itself.
impl IntoMember for Member {
    open spec fn member_of(self) -> Member {
        self
    }

    fn into_member(self) -> (r: Member) {
        self
    }
}

impl IntoMember for Ident {
    open spec fn member_of(self) -> Member {
        Member::Named(self)
    }

    fn into_member(self) -> (r: Member) {
        Member::Named(self)
    }
}

impl IntoMember for Index {
    open spec fn member_of(self) -> Member {
        Member::Unnamed(self)
    }

    fn into_member(self) -> (r: Member) {
        Member::Unnamed(self)
    }
}

/// A bare position becomes an unnamed member.
impl IntoMember for usize {
    open spec fn member_of(self) -> Member {
        Member::Unnamed(Index { index: self })
    }

    fn into_member(self) -> (r: Member) {
        Member::Unnamed(Index { index: self })
    }
}

/// Anything that can become range limits.
pub trait IntoRangeLimits: Sized {
    /// The `RangeLimits` value that `self` becomes.
    spec fn range_limits_of(self) -> RangeLimits;

    fn into_range_limits(self) -> (r: RangeLimits)
        ensures
            r == self.range_limits_of(),
    ;
}

/// The identity conversion: a `RangeLimits` stays exactly itself.
impl IntoRangeLimits for RangeLimits {
    open spec fn range_limits_of(self) -> RangeLimits {
        self
    }

    fn into_range_limits(self) -> (r: RangeLimits) {
        self
    }
}

/// The two-dot token shape is the half-open range.
impl IntoRangeLimits for token::DotDot {
    open spec fn range_limits_of(self) -> RangeLimits {
        RangeLimits::HalfOpen
    }

    fn into_range_limits(self) -> (r: RangeLimits) {
        RangeLimits::HalfOpen
    }
}

/// The dot-dot-equals token shape is the inclusive range.
impl IntoRangeLimits for token::DotDotEq {
    open spec fn range_limits_of(self) -> RangeLimits {
        RangeLimits::Closed
    }

    fn into_range_limits(self) -> (r: RangeLimits) {
        RangeLimits::Closed
    }
}

/// The half-open range limits.
pub fn range_limits_half_open_variant() -> (r: RangeLimits)
    ensures
        r == RangeLimits::HalfOpen,
{
    RangeLimits::HalfOpen
}

/// The inclusive range limits.
pub fn range_limits_closed_variant() -> (r: RangeLimits)
    ensures
        r == RangeLimits::Closed,
{
    RangeLimits::Closed
}

/// A positional member.
pub fn index(i: usize) -> (r: Index)
    ensures
        r.index == i,
{
    Index {
        index: i,
    }
}

/// The fluent surface of a positional member.
pub trait IndexBuilder: Sized {
    /// Holds iff `r` is the node that the constructor arguments produce.
    spec fn new_ens(i: usize, r: Self) -> bool;

    fn new(i: usize) -> (r: Self)
        ensures
            Self::new_ens(i, r),
    ;
}

impl IndexBuilder for Index {
    open spec fn new_ens(i: usize, r: Self) -> bool {
        r.index == i
    }

    fn new(i: usize) -> (r: Self) {
        index(i)
    }
}

/// A loop or block label of the given name.
pub fn label(name: Lifetime) -> (r: Label)
    ensures
        r.name == name,
{
    Label {
        name: name,
    }
}

/// The fluent surface of a label.
pub trait LabelBuilder: Sized {
    /// Holds iff `r` is the node that the constructor arguments produce.
    spec fn new_ens(name: Lifetime, r: Self) -> bool;

    fn new(name: Lifetime) -> (r: Self)
        ensures
            Self::new_ens(name, r),
    ;
}

impl LabelBuilder for Label {
    open spec fn new_ens(name: Lifetime, r: Self) -> bool {
        r.name == name
    }

    fn new(name: Lifetime) -> (r: Self) {
        label(name)
    }
}

/// One field of a struct literal, written out with its colon.
pub fn field_value<A: IntoMember, B: IntoExpr>(member: A, expr: B) -> (r: FieldValue)
    ensures
        r.attrs@ == Seq::<Attribute>::empty(),
        r.member == member.member_of(),
        r.colon_token == true,
        r.expr == expr.expr_of(),
{
    let member = member.into_member();
    let expr = expr.into_expr();
    FieldValue {
        attrs: Vec::new(),
        member: member,
        colon_token: true,
        expr: expr,
    }
}

/// The fluent surface of a struct-literal field.
pub trait FieldValueBuilder: AttrsPropsBuilder {
    /// Holds iff `r` is the node that the constructor arguments produce.
    spec fn new_ens(member: Member, expr: Expr, r: Self) -> bool;

    fn new<A: IntoMember, B: IntoExpr>(member: A, expr: B) -> (r: Self)
        ensures
            Self::new_ens(member.member_of(), expr.expr_of(), r),
    ;
}

impl FieldValueBuilder for FieldValue {
    open spec fn new_ens(member: Member, expr: Expr, r: Self) -> bool {
        r.attrs@ == Seq::<Attribute>::empty() && r.member == member && r.colon_token == true && r.expr == expr
    }

    fn new<A: IntoMember, B: IntoExpr>(member: A, expr: B) -> (r: Self) {
        field_value(member, expr)
    }
}

/// One match arm, unguarded, with a trailing comma.
pub fn arm<A: IntoPat, B: IntoExpr>(pat: A, body: B) -> (r: Arm)
    ensures
        r.attrs@ == Seq::<Attribute>::empty(),
        r.pat == pat.pat_of(),
        r.guard is None,
        *r.body == body.expr_of(),
        r.comma == true,
{
    let pat = pat.into_pat();
    let body = body.into_expr();
    Arm {
        attrs: Vec::new(),
        pat: pat,
        guard: None,
        body: Box::new(body),
        comma: true,
    }
}

/// The fluent surface of a match arm.
pub trait ArmBuilder: AttrsPropsBuilder {
    /// Holds iff `r` is the node that the constructor arguments produce.
    spec fn new_ens(pat: Pat, body: Expr, r: Self) -> bool;

    fn new<A: IntoPat, B: IntoExpr>(pat: A, body: B) -> (r: Self)
        ensures
            Self::new_ens(pat.pat_of(), body.expr_of(), r),
    ;

    /// Holds iff `r` is `self` with the guard set.
    spec fn guard_ens(self, expr: Expr, r: Self) -> bool;

    /// Attach an if guard.
    fn guard<A: IntoExpr>(self, expr: A) -> (r: Self)
        ensures
            self.guard_ens(expr.expr_of(), r),
    ;
}

impl ArmBuilder for Arm {
    open spec fn new_ens(pat: Pat, body: Expr, r: Self) -> bool {
        r.attrs@ == Seq::<Attribute>::empty() && r.pat == pat && r.guard is None && *r.body == body && r.comma == true
    }

    fn new<A: IntoPat, B: IntoExpr>(pat: A, body: B) -> (r: Self) {
        arm(pat, body)
    }

    open spec fn guard_ens(self, expr: Expr, r: Self) -> bool {
        r == (Arm { guard: r.guard, ..self }) && (r.guard matches Some(b) && *b == expr)
    }

    fn guard<A: IntoExpr>(self, expr: A) -> (r: Self) {
        let expr = expr.into_expr();
        Arm { guard: Some(Box::new(expr)), ..self }
    }
}

/// An array literal over the given elements.
pub fn expr_array<A: IntoExpr>(elems: Vec<A>) -> (r: ExprArray)
    ensures
        r.attrs@ == Seq::<Attribute>::empty(),
        r.elems@ == elems@.map_values(|e: A| e.expr_of()),
{
    let elems = into_expr_vec(elems);
    ExprArray {
        attrs: Vec::new(),
        elems: elems,
    }
}

/// The fluent surface of an array literal.
pub trait ExprArrayBuilder: AttrsPropsBuilder {
    /// Holds iff `r` is the node that the constructor arguments produce.
    spec fn new_ens(elems: Seq<Expr>, r: Self) -> bool;

    fn new<A: IntoExpr>(elems: Vec<A>) -> (r: Self)
        ensures
            Self::new_ens(elems@.map_values(|e: A| e.expr_of()), r),
    ;
}

impl ExprArrayBuilder for ExprArray {
    open spec fn new_ens(elems: Seq<Expr>, r: Self) -> bool {
        r.attrs@ == Seq::<Attribute>::empty() && r.elems@ == elems
    }

    fn new<A: IntoExpr>(elems: Vec<A>) -> (r: Self) {
        expr_array(elems)
    }
}

/// An assignment of the right expression to the left one.
pub fn expr_assign<A: IntoExpr, B: IntoExpr>(left: A, right: B) -> (r: ExprAssign)
    ensures
        r.attrs@ == Seq::<Attribute>::empty(),
        *r.left == left.expr_of(),
        *r.right == right.expr_of(),
{
    let left = left.into_expr();
    let right = right.into_expr();
    ExprAssign {
        attrs: Vec::new(),
        left: Box::new(left),
        right: Box::new(right),
    }
}

/// The fluent surface of an assignment.
pub trait ExprAssignBuilder: AttrsPropsBuilder {
    /// Holds iff `r` is the node that the constructor arguments produce.
    spec fn new_ens(left: Expr, right: Expr, r: Self) -> bool;

    fn new<A: IntoExpr, B: IntoExpr>(left: A, right: B) -> (r: Self)
        ensures
            Self::new_ens(left.expr_of(), right.expr_of(), r),
    ;
}

impl ExprAssignBuilder for ExprAssign {
    open spec fn new_ens(left: Expr, right: Expr, r: Self) -> bool {
        r.attrs@ == Seq::<Attribute>::empty() && *r.left == left && *r.right == right
    }

    fn new<A: IntoExpr, B: IntoExpr>(left: A, right: B) -> (r: Self) {
        expr_assign(left, right)
    }
}

/// An async block without a move capture.
pub fn expr_async(block: Block) -> (r: ExprAsync)
    ensures
        r.attrs@ == Seq::<Attribute>::empty(),
        r.capture == false,
        r.block == block,
{
    ExprAsync {
        attrs: Vec::new(),
        capture: false,
        block: block,
    }
}

/// The fluent surface of an async block.
pub trait ExprAsyncBuilder: AttrsPropsBuilder {
    /// Holds iff `r` is the node that the constructor arguments produce.
    spec fn new_ens(block: Block, r: Self) -> bool;

    fn new(block: Block) -> (r: Self)
        ensures
            Self::new_ens(block, r),
    ;

    /// Holds iff `r` is `self` with the move-capture marker set as given.
    spec fn capture_ens(self, capture: bool, r: Self) -> bool;

    /// Capture by move, or stop doing so.
    fn capture(self, capture: bool) -> (r: Self)
        ensures
            self.capture_ens(capture, r),
    ;
}

impl ExprAsyncBuilder for ExprAsync {
    open spec fn new_ens(block: Block, r: Self) -> bool {
        r.attrs@ == Seq::<Attribute>::empty() && r.capture == false && r.block == block
    }

    fn new(block: Block) -> (r: Self) {
        expr_async(block)
    }

    open spec fn capture_ens(self, capture: bool, r: Self) -> bool {
        r == (ExprAsync { capture: capture, ..self })
    }

    fn capture(self, capture: bool) -> (r: Self) {
        ExprAsync { capture: capture, ..self }
    }
}

/// An await of the given expression.
pub fn expr_await<A: IntoExpr>(base: A) -> (r: ExprAwait)
    ensures
        r.attrs@ == Seq::<Attribute>::empty(),
        *r.base == base.expr_of(),
{
    let base = base.into_expr();
    ExprAwait {
        attrs: Vec::new(),
        base: Box::new(base),
    }
}

/// The fluent surface of an await expression.
pub trait ExprAwaitBuilder: AttrsPropsBuilder {
    /// Holds iff `r` is the node that the constructor arguments produce.
    spec fn new_ens(base: Expr, r: Self) -> bool;

    fn new<A: IntoExpr>(base: A) -> (r: Self)
        ensures
            Self::new_ens(base.expr_of(), r),
    ;
}

impl ExprAwaitBuilder for ExprAwait {
    open spec fn new_ens(base: Expr, r: Self) -> bool {
        r.attrs@ == Seq::<Attribute>::empty() && *r.base == base
    }

    fn new<A: IntoExpr>(base: A) -> (r: Self) {
        expr_await(base)
    }
}

/// A binary operation over the given operands.
pub fn expr_binary<A: IntoExpr, B: IntoBinOp, C: IntoExpr>(left: A, op: B, right: C) -> (r: ExprBinary)
    ensures
        r.attrs@ == Seq::<Attribute>::empty(),
        *r.left == left.expr_of(),
        r.op == op.bin_op_of(),
        *r.right == right.expr_of(),
{
    let left = left.into_expr();
    let op = op.into_bin_op();
    let right = right.into_expr();
    ExprBinary {
        attrs: Vec::new(),
        left: Box::new(left),
        op: op,
        right: Box::new(right),
    }
}

/// The fluent surface of a binary operation.
pub trait ExprBinaryBuilder: AttrsPropsBuilder {
    /// Holds iff `r` is the node that the constructor arguments produce.
    spec fn new_ens(left: Expr, op: BinOp, right: Expr, r: Self) -> bool;

    fn new<A: IntoExpr, B: IntoBinOp, C: IntoExpr>(left: A, op: B, right: C) -> (r: Self)
        ensures
            Self::new_ens(left.expr_of(), op.bin_op_of(), right.expr_of(), r),
    ;
}

impl ExprBinaryBuilder for ExprBinary {
    open spec fn new_ens(left: Expr, op: BinOp, right: Expr, r: Self) -> bool {
        r.attrs@ == Seq::<Attribute>::empty() && *r.left == left && r.op == op && *r.right == right
    }

    fn new<A: IntoExpr, B: IntoBinOp, C: IntoExpr>(left: A, op: B, right: C) -> (r: Self) {
        expr_binary(left, op, right)
    }
}

/// An unlabeled block expression.
pub fn expr_block(block: Block) -> (r: ExprBlock)
    ensures
        r.attrs@ == Seq::<Attribute>::empty(),
        r.label is None,
        r.block == block,
{
    ExprBlock {
        attrs: Vec::new(),
        label: None,
        block: block,
    }
}

/// The fluent surface of a block expression.
pub trait ExprBlockBuilder: AttrsPropsBuilder + LabelPropsBuilder {
    /// Holds iff `r` is the node that the constructor arguments produce.
    spec fn new_ens(block: Block, r: Self) -> bool;

    fn new(block: Block) -> (r: Self)
        ensures
            Self::new_ens(block, r),
    ;
}

impl ExprBlockBuilder for ExprBlock {
    open spec fn new_ens(block: Block, r: Self) -> bool {
        r.attrs@ == Seq::<Attribute>::empty() && r.label is None && r.block == block
    }

    fn new(block: Block) -> (r: Self) {
        expr_block(block)
    }
}

/// A bare break.
pub fn expr_break() -> (r: ExprBreak)
    ensures
        r.attrs@ == Seq::<Attribute>::empty(),
        r.label is None,
        r.expr is None,
{
    ExprBreak {
        attrs: Vec::new(),
        label: None,
        expr: None,
    }
}

/// The fluent surface of a break expression.
pub trait ExprBreakBuilder: AttrsPropsBuilder {
    /// Holds iff `r` is the node that the constructor arguments produce.
    spec fn new_ens(r: Self) -> bool;

    fn new() -> (r: Self)
        ensures
            Self::new_ens(r),
    ;

    /// Holds iff `r` is `self` with the target label set.
    spec fn label_ens(self, label: Lifetime, r: Self) -> bool;

    /// Name the loop to break out of.
    fn label(self, label: Lifetime) -> (r: Self)
        ensures
            self.label_ens(label, r),
    ;

    /// Holds iff `r` is `self` with the carried value set.
    spec fn expr_ens(self, expr: Expr, r: Self) -> bool;

    /// Carry a value out of the loop.
    fn expr<A: IntoExpr>(self, expr: A) -> (r: Self)
        ensures
            self.expr_ens(expr.expr_of(), r),
    ;
}

impl ExprBreakBuilder for ExprBreak {
    open spec fn new_ens(r: Self) -> bool {
        r.attrs@ == Seq::<Attribute>::empty() && r.label is None && r.expr is None
    }

    fn new() -> (r: Self) {
        expr_break()
    }

    open spec fn label_ens(self, label: Lifetime, r: Self) -> bool {
        r == (ExprBreak { label: Some(label), ..self })
    }

    fn label(self, label: Lifetime) -> (r: Self) {
        ExprBreak { label: Some(label), ..self }
    }

    open spec fn expr_ens(self, expr: Expr, r: Self) -> bool {
        r == (ExprBreak { expr: r.expr, ..self }) && (r.expr matches Some(b) && *b == expr)
    }

    fn expr<A: IntoExpr>(self, expr: A) -> (r: Self) {
        let expr = expr.into_expr();
        ExprBreak { expr: Some(Box::new(expr)), ..self }
    }
}

/// A call of the given callee over the given arguments.
pub fn expr_call<A: IntoExpr, B: IntoExpr>(func: A, args: Vec<B>) -> (r: ExprCall)
    ensures
        r.attrs@ == Seq::<Attribute>::empty(),
        *r.func == func.expr_of(),
        r.args@ == args@.map_values(|e: B| e.expr_of()),
{
    let func = func.into_expr();
    let args = into_expr_vec(args);
    ExprCall {
        attrs: Vec::new(),
        func: Box::new(func),
        args: args,
    }
}

/// The fluent surface of a call expression.
pub trait ExprCallBuilder: AttrsPropsBuilder {
    /// Holds iff `r` is the node that the constructor arguments produce.
    spec fn new_ens(func: Expr, args: Seq<Expr>, r: Self) -> bool;

    fn new<A: IntoExpr, B: IntoExpr>(func: A, args: Vec<B>) -> (r: Self)
        ensures
            Self::new_ens(func.expr_of(), args@.map_values(|e: B| e.expr_of()), r),
    ;
}

impl ExprCallBuilder for ExprCall {
    open spec fn new_ens(func: Expr, args: Seq<Expr>, r: Self) -> bool {
        r.attrs@ == Seq::<Attribute>::empty() && *r.func == func && r.args@ == args
    }

    fn new<A: IntoExpr, B: IntoExpr>(func: A, args: Vec<B>) -> (r: Self) {
        expr_call(func, args)
    }
}

/// A cast of the given expression to the given type.
pub fn expr_cast<A: IntoExpr, B: IntoType>(expr: A, ty: B) -> (r: ExprCast)
    ensures
        r.attrs@ == Seq::<Attribute>::empty(),
        *r.expr == expr.expr_of(),
        *r.ty == ty.type_of(),
{
    let expr = expr.into_expr();
    let ty = ty.into_type();
    ExprCast {
        attrs: Vec::new(),
        expr: Box::new(expr),
        ty: Box::new(ty),
    }
}

/// The fluent surface of a cast expression.
pub trait ExprCastBuilder: AttrsPropsBuilder {
    /// Holds iff `r` is the node that the constructor arguments produce.
    spec fn new_ens(expr: Expr, ty: Type, r: Self) -> bool;

    fn new<A: IntoExpr, B: IntoType>(expr: A, ty: B) -> (r: Self)
        ensures
            Self::new_ens(expr.expr_of(), ty.type_of(), r),
    ;
}

impl ExprCastBuilder for ExprCast {
    open spec fn new_ens(expr: Expr, ty: Type, r: Self) -> bool {
        r.attrs@ == Seq::<Attribute>::empty() && *r.expr == expr && *r.ty == ty
    }

    fn new<A: IntoExpr, B: IntoType>(expr: A, ty: B) -> (r: Self) {
        expr_cast(expr, ty)
    }
}

/// A plain closure over the given inputs and body.
pub fn expr_closure<A: IntoPat, B: IntoExpr>(inputs: Vec<A>, body: B) -> (r: ExprClosure)
    ensures
        r.attrs@ == Seq::<Attribute>::empty(),
        r.lifetimes is None,
        r.constness == false,
        r.movability == false,
        r.asyncness == false,
        r.capture == false,
        r.inputs@ == inputs@.map_values(|e: A| e.pat_of()),
        r.output == ReturnType::Inferred,
        *r.body == body.expr_of(),
{
    let inputs = into_pat_vec(inputs);
    let body = body.into_expr();
    ExprClosure {
        attrs: Vec::new(),
        lifetimes: None,
        constness: false,
        movability: false,
        asyncness: false,
        capture: false,
        inputs: inputs,
        output: ReturnType::Inferred,
        body: Box::new(body),
    }
}

/// The fluent surface of a closure.
pub trait ExprClosureBuilder: AttrsPropsBuilder + OutputPropsBuilder {
    /// Holds iff `r` is the node that the constructor arguments produce.
    spec fn new_ens(inputs: Seq<Pat>, body: Expr, r: Self) -> bool;

    fn new<A: IntoPat, B: IntoExpr>(inputs: Vec<A>, body: B) -> (r: Self)
        ensures
            Self::new_ens(inputs@.map_values(|e: A| e.pat_of()), body.expr_of(), r),
    ;

    /// Holds iff `r` is `self` with an empty lifetime binder present exactly when asked for.
    spec fn lifetimes_ens(self, lifetimes: bool, r: Self) -> bool;

    /// Attach or drop an empty `for<>` binder.
    fn lifetimes(self, lifetimes: bool) -> (r: Self)
        ensures
            self.lifetimes_ens(lifetimes, r),
    ;

    /// Holds iff `r` is `self` with the const marker set as given.
    spec fn constness_ens(self, constness: bool, r: Self) -> bool;

    /// Mark or unmark the closure const.
    fn constness(self, constness: bool) -> (r: Self)
        ensures
            self.constness_ens(constness, r),
    ;

    /// Holds iff `r` is `self` with the static marker set as given.
    spec fn movability_ens(self, movability: bool, r: Self) -> bool;

    /// Mark or unmark the closure static.
    fn movability(self, movability: bool) -> (r: Self)
        ensures
            self.movability_ens(movability, r),
    ;

    /// Holds iff `r` is `self` with the async marker set as given.
    spec fn asyncness_ens(self, asyncness: bool, r: Self) -> bool;

    /// Mark or unmark the closure async.
    fn asyncness(self, asyncness: bool) -> (r: Self)
        ensures
            self.asyncness_ens(asyncness, r),
    ;

    /// Holds iff `r` is `self` with the move-capture marker set as given.
    spec fn capture_ens(self, capture: bool, r: Self) -> bool;

    /// Capture by move, or stop doing so.
    fn capture(self, capture: bool) -> (r: Self)
        ensures
            self.capture_ens(capture, r),
    ;
}

impl ExprClosureBuilder for ExprClosure {
    open spec fn new_ens(inputs: Seq<Pat>, body: Expr, r: Self) -> bool {
        r.attrs@ == Seq::<Attribute>::empty() && r.lifetimes is None && r.constness == false && r.movability == false && r.asyncness == false && r.capture == false && r.inputs@ == inputs && r.output == ReturnType::Inferred && *r.body == body
    }

    fn new<A: IntoPat, B: IntoExpr>(inputs: Vec<A>, body: B) -> (r: Self) {
        expr_closure(inputs, body)
    }

    open spec fn lifetimes_ens(self, lifetimes: bool, r: Self) -> bool {
        r == (ExprClosure { lifetimes: r.lifetimes, ..self }) && (lifetimes ==> (r.lifetimes matches Some(bl) && bl.lifetimes@ == Seq::<GenericParam>::empty())) && (!lifetimes ==> r.lifetimes is None)
    }

    fn lifetimes(self, lifetimes: bool) -> (r: Self) {
        ExprClosure { lifetimes: if lifetimes { Some(BoundLifetimes { lifetimes: Vec::new() }) } else { None }, ..self }
    }

    open spec fn constness_ens(self, constness: bool, r: Self) -> bool {
        r == (ExprClosure { constness: constness, ..self })
    }

    fn constness(self, constness: bool) -> (r: Self) {
        ExprClosure { constness: constness, ..self }
    }

    open spec fn movability_ens(self, movability: bool, r: Self) -> bool {
        r == (ExprClosure { movability: movability, ..self })
    }

    fn movability(self, movability: bool) -> (r: Self) {
        ExprClosure { movability: movability, ..self }
    }

    open spec fn asyncness_ens(self, asyncness: bool, r: Self) -> bool {
        r == (ExprClosure { asyncness: asyncness, ..self })
    }

    fn asyncness(self, asyncness: bool) -> (r: Self) {
        ExprClosure { asyncness: asyncness, ..self }
    }

    open spec fn capture_ens(self, capture: bool, r: Self) -> bool {
        r == (ExprClosure { capture: capture, ..self })
    }

    fn capture(self, capture: bool) -> (r: Self) {
        ExprClosure { capture: capture, ..self }
    }
}

/// A const block.
pub fn expr_const(block: Block) -> (r: ExprConst)
    ensures
        r.attrs@ == Seq::<Attribute>::empty(),
        r.block == block,
{
    ExprConst {
        attrs: Vec::new(),
        block: block,
    }
}

/// The fluent surface of a const block.
pub trait ExprConstBuilder: AttrsPropsBuilder {
    /// Holds iff `r` is the node that the constructor arguments produce.
    spec fn new_ens(block: Block, r: Self) -> bool;

    fn new(block: Block) -> (r: Self)
        ensures
            Self::new_ens(block, r),
    ;
}

impl ExprConstBuilder for ExprConst {
    open spec fn new_ens(block: Block, r: Self) -> bool {
        r.attrs@ == Seq::<Attribute>::empty() && r.block == block
    }

    fn new(block: Block) -> (r: Self) {
        expr_const(block)
    }
}

/// A bare continue.
pub fn expr_continue() -> (r: ExprContinue)
    ensures
        r.attrs@ == Seq::<Attribute>::empty(),
        r.label is None,
{
    ExprContinue {
        attrs: Vec::new(),
        label: None,
    }
}

/// The fluent surface of a continue expression.
pub trait ExprContinueBuilder: AttrsPropsBuilder {
    /// Holds iff `r` is the node that the constructor arguments produce.
    spec fn new_ens(r: Self) -> bool;

    fn new() -> (r: Self)
        ensures
            Self::new_ens(r),
    ;

    /// Holds iff `r` is `self` with the target label set.
    spec fn label_ens(self, label: Lifetime, r: Self) -> bool;

    /// Name the loop to continue.
    fn label(self, label: Lifetime) -> (r: Self)
        ensures
            self.label_ens(label, r),
    ;
}

impl ExprContinueBuilder for ExprContinue {
    open spec fn new_ens(r: Self) -> bool {
        r.attrs@ == Seq::<Attribute>::empty() && r.label is None
    }

    fn new() -> (r: Self) {
        expr_continue()
    }

    open spec fn label_ens(self, label: Lifetime, r: Self) -> bool {
        r == (ExprContinue { label: Some(label), ..self })
    }

    fn label(self, label: Lifetime) -> (r: Self) {
        ExprContinue { label: Some(label), ..self }
    }
}

/// A field access on the given base.
pub fn expr_field<A: IntoExpr, B: IntoMember>(base: A, member: B) -> (r: ExprField)
    ensures
        r.attrs@ == Seq::<Attribute>::empty(),
        *r.base == base.expr_of(),
        r.member == member.member_of(),
{
    let base = base.into_expr();
    let member = member.into_member();
    ExprField {
        attrs: Vec::new(),
        base: Box::new(base),
        member: member,
    }
}

/// The fluent surface of a field access.
pub trait ExprFieldBuilder: AttrsPropsBuilder {
    /// Holds iff `r` is the node that the constructor arguments produce.
    spec fn new_ens(base: Expr, member: Member, r: Self) -> bool;

    fn new<A: IntoExpr, B: IntoMember>(base: A, member: B) -> (r: Self)
        ensures
            Self::new_ens(base.expr_of(), member.member_of(), r),
    ;
}

impl ExprFieldBuilder for ExprField {
    open spec fn new_ens(base: Expr, member: Member, r: Self) -> bool {
        r.attrs@ == Seq::<Attribute>::empty() && *r.base == base && r.member == member
    }

    fn new<A: IntoExpr, B: IntoMember>(base: A, member: B) -> (r: Self) {
        expr_field(base, member)
    }
}

/// An unlabeled for loop.
pub fn expr_for_loop<A: IntoPat, B: IntoExpr>(pat: A, expr: B, body: Block) -> (r: ExprForLoop)
    ensures
        r.attrs@ == Seq::<Attribute>::empty(),
        r.label is None,
        *r.pat == pat.pat_of(),
        *r.expr == expr.expr_of(),
        r.body == body,
{
    let pat = pat.into_pat();
    let expr = expr.into_expr();
    ExprForLoop {
        attrs: Vec::new(),
        label: None,
        pat: Box::new(pat),
        expr: Box::new(expr),
        body: body,
    }
}

/// The fluent surface of a for loop.
pub trait ExprForLoopBuilder: AttrsPropsBuilder + LabelPropsBuilder {
    /// Holds iff `r` is the node that the constructor arguments produce.
    spec fn new_ens(pat: Pat, expr: Expr, body: Block, r: Self) -> bool;

    fn new<A: IntoPat, B: IntoExpr>(pat: A, expr: B, body: Block) -> (r: Self)
        ensures
            Self::new_ens(pat.pat_of(), expr.expr_of(), body, r),
    ;
}

impl ExprForLoopBuilder for ExprForLoop {
    open spec fn new_ens(pat: Pat, expr: Expr, body: Block, r: Self) -> bool {
        r.attrs@ == Seq::<Attribute>::empty() && r.label is None && *r.pat == pat && *r.expr == expr && r.body == body
    }

    fn new<A: IntoPat, B: IntoExpr>(pat: A, expr: B, body: Block) -> (r: Self) {
        expr_for_loop(pat, expr, body)
    }
}

/// An invisibly grouped expression.
pub fn expr_group<A: IntoExpr>(expr: A) -> (r: ExprGroup)
    ensures
        r.attrs@ == Seq::<Attribute>::empty(),
        *r.expr == expr.expr_of(),
{
    let expr = expr.into_expr();
    ExprGroup {
        attrs: Vec::new(),
        expr: Box::new(expr),
    }
}

/// The fluent surface of a grouped expression.
pub trait ExprGroupBuilder: AttrsPropsBuilder {
    /// Holds iff `r` is the node that the constructor arguments produce.
    spec fn new_ens(expr: Expr, r: Self) -> bool;

    fn new<A: IntoExpr>(expr: A) -> (r: Self)
        ensures
            Self::new_ens(expr.expr_of(), r),
    ;
}

impl ExprGroupBuilder for ExprGroup {
    open spec fn new_ens(expr: Expr, r: Self) -> bool {
        r.attrs@ == Seq::<Attribute>::empty() && *r.expr == expr
    }

    fn new<A: IntoExpr>(expr: A) -> (r: Self) {
        expr_group(expr)
    }
}

/// An if expression without an else branch.
pub fn expr_if<A: IntoExpr>(cond: A, then_branch: Block) -> (r: ExprIf)
    ensures
        r.attrs@ == Seq::<Attribute>::empty(),
        *r.cond == cond.expr_of(),
        r.then_branch == then_branch,
        r.else_branch is None,
{
    let cond = cond.into_expr();
    ExprIf {
        attrs: Vec::new(),
        cond: Box::new(cond),
        then_branch: then_branch,
        else_branch: None,
    }
}

/// The fluent surface of an if expression.
pub trait ExprIfBuilder: AttrsPropsBuilder {
    /// Holds iff `r` is the node that the constructor arguments produce.
    spec fn new_ens(cond: Expr, then_branch: Block, r: Self) -> bool;

    fn new<A: IntoExpr>(cond: A, then_branch: Block) -> (r: Self)
        ensures
            Self::new_ens(cond.expr_of(), then_branch, r),
    ;

    /// Holds iff `r` is `self` with the else branch set.
    spec fn else_branch_ens(self, expr: Expr, r: Self) -> bool;

    /// Attach an else branch.
    fn else_branch<A: IntoExpr>(self, expr: A) -> (r: Self)
        ensures
            self.else_branch_ens(expr.expr_of(), r),
    ;
}

impl ExprIfBuilder for ExprIf {
    open spec fn new_ens(cond: Expr, then_branch: Block, r: Self) -> bool {
        r.attrs@ == Seq::<Attribute>::empty() && *r.cond == cond && r.then_branch == then_branch && r.else_branch is None
    }

    fn new<A: IntoExpr>(cond: A, then_branch: Block) -> (r: Self) {
        expr_if(cond, then_branch)
    }

    open spec fn else_branch_ens(self, expr: Expr, r: Self) -> bool {
        r == (ExprIf { else_branch: r.else_branch, ..self }) && (r.else_branch matches Some(b) && *b == expr)
    }

    fn else_branch<A: IntoExpr>(self, expr: A) -> (r: Self) {
        let expr = expr.into_expr();
        ExprIf { else_branch: Some(Box::new(expr)), ..self }
    }
}

/// An indexing of the given expression.
pub fn expr_index<A: IntoExpr, B: IntoExpr>(expr: A, index: B) -> (r: ExprIndex)
    ensures
        r.attrs@ == Seq::<Attribute>::empty(),
        *r.expr == expr.expr_of(),
        *r.index == index.expr_of(),
{
    let expr = expr.into_expr();
    let index = index.into_expr();
    ExprIndex {
        attrs: Vec::new(),
        expr: Box::new(expr),
        index: Box::new(index),
    }
}

/// The fluent surface of an indexing expression.
pub trait ExprIndexBuilder: AttrsPropsBuilder {
    /// Holds iff `r` is the node that the constructor arguments produce.
    spec fn new_ens(expr: Expr, index: Expr, r: Self) -> bool;

    fn new<A: IntoExpr, B: IntoExpr>(expr: A, index: B) -> (r: Self)
        ensures
            Self::new_ens(expr.expr_of(), index.expr_of(), r),
    ;
}

impl ExprIndexBuilder for ExprIndex {
    open spec fn new_ens(expr: Expr, index: Expr, r: Self) -> bool {
        r.attrs@ == Seq::<Attribute>::empty() && *r.expr == expr && *r.index == index
    }

    fn new<A: IntoExpr, B: IntoExpr>(expr: A, index: B) -> (r: Self) {
        expr_index(expr, index)
    }
}

/// The inferred expression `_`.
pub fn expr_infer() -> (r: ExprInfer)
    ensures
        r.attrs@ == Seq::<Attribute>::empty(),
{
    ExprInfer {
        attrs: Vec::new(),
    }
}

/// The fluent surface of the inferred expression.
pub trait ExprInferBuilder: AttrsPropsBuilder {
    /// Holds iff `r` is the node that the constructor arguments produce.
    spec fn new_ens(r: Self) -> bool;

    fn new() -> (r: Self)
        ensures
            Self::new_ens(r),
    ;
}

impl ExprInferBuilder for ExprInfer {
    open spec fn new_ens(r: Self) -> bool {
        r.attrs@ == Seq::<Attribute>::empty()
    }

    fn new() -> (r: Self) {
        expr_infer()
    }
}

/// A let guard over the given pattern and expression.
pub fn expr_let<A: IntoPat, B: IntoExpr>(pat: A, expr: B) -> (r: ExprLet)
    ensures
        r.attrs@ == Seq::<Attribute>::empty(),
        *r.pat == pat.pat_of(),
        *r.expr == expr.expr_of(),
{
    let pat = pat.into_pat();
    let expr = expr.into_expr();
    ExprLet {
        attrs: Vec::new(),
        pat: Box::new(pat),
        expr: Box::new(expr),
    }
}

/// The fluent surface of a let guard.
pub trait ExprLetBuilder: AttrsPropsBuilder {
    /// Holds iff `r` is the node that the constructor arguments produce.
    spec fn new_ens(pat: Pat, expr: Expr, r: Self) -> bool;

    fn new<A: IntoPat, B: IntoExpr>(pat: A, expr: B) -> (r: Self)
        ensures
            Self::new_ens(pat.pat_of(), expr.expr_of(), r),
    ;
}

impl ExprLetBuilder for ExprLet {
    open spec fn new_ens(pat: Pat, expr: Expr, r: Self) -> bool {
        r.attrs@ == Seq::<Attribute>::empty() && *r.pat == pat && *r.expr == expr
    }

    fn new<A: IntoPat, B: IntoExpr>(pat: A, expr: B) -> (r: Self) {
        expr_let(pat, expr)
    }
}

/// A literal expression.
pub fn expr_lit<A: IntoLit>(lit: A) -> (r: ExprLit)
    ensures
        r.attrs@ == Seq::<Attribute>::empty(),
        r.lit == lit.lit_of(),
{
    let lit = lit.into_lit();
    ExprLit {
        attrs: Vec::new(),
        lit: lit,
    }
}

/// The fluent surface of a literal expression.
pub trait ExprLitBuilder: AttrsPropsBuilder {
    /// Holds iff `r` is the node that the constructor arguments produce.
    spec fn new_ens(lit: Lit, r: Self) -> bool;

    fn new<A: IntoLit>(lit: A) -> (r: Self)
        ensures
            Self::new_ens(lit.lit_of(), r),
    ;
}

impl ExprLitBuilder for ExprLit {
    open spec fn new_ens(lit: Lit, r: Self) -> bool {
        r.attrs@ == Seq::<Attribute>::empty() && r.lit == lit
    }

    fn new<A: IntoLit>(lit: A) -> (r: Self) {
        expr_lit(lit)
    }
}

/// An unlabeled unconditional loop.
pub fn expr_loop(body: Block) -> (r: ExprLoop)
    ensures
        r.attrs@ == Seq::<Attribute>::empty(),
        r.label is None,
        r.body == body,
{
    ExprLoop {
        attrs: Vec::new(),
        label: None,
        body: body,
    }
}

/// The fluent surface of an unconditional loop.
pub trait ExprLoopBuilder: AttrsPropsBuilder + LabelPropsBuilder {
    /// Holds iff `r` is the node that the constructor arguments produce.
    spec fn new_ens(body: Block, r: Self) -> bool;

    fn new(body: Block) -> (r: Self)
        ensures
            Self::new_ens(body, r),
    ;
}

impl ExprLoopBuilder for ExprLoop {
    open spec fn new_ens(body: Block, r: Self) -> bool {
        r.attrs@ == Seq::<Attribute>::empty() && r.label is None && r.body == body
    }

    fn new(body: Block) -> (r: Self) {
        expr_loop(body)
    }
}

/// A macro in expression position.
pub fn expr_macro(mac: Macro) -> (r: ExprMacro)
    ensures
        r.attrs@ == Seq::<Attribute>::empty(),
        r.mac == mac,
{
    ExprMacro {
        attrs: Vec::new(),
        mac: mac,
    }
}

/// The fluent surface of a macro expression.
pub trait ExprMacroBuilder: AttrsPropsBuilder {
    /// Holds iff `r` is the node that the constructor arguments produce.
    spec fn new_ens(mac: Macro, r: Self) -> bool;

    fn new(mac: Macro) -> (r: Self)
        ensures
            Self::new_ens(mac, r),
    ;
}

impl ExprMacroBuilder for ExprMacro {
    open spec fn new_ens(mac: Macro, r: Self) -> bool {
        r.attrs@ == Seq::<Attribute>::empty() && r.mac == mac
    }

    fn new(mac: Macro) -> (r: Self) {
        expr_macro(mac)
    }
}

/// A match over the given scrutinee and arms.
pub fn expr_match<A: IntoExpr>(expr: A, arms: Vec<Arm>) -> (r: ExprMatch)
    ensures
        r.attrs@ == Seq::<Attribute>::empty(),
        *r.expr == expr.expr_of(),
        r.arms == arms,
{
    let expr = expr.into_expr();
    ExprMatch {
        attrs: Vec::new(),
        expr: Box::new(expr),
        arms: arms,
    }
}

/// The fluent surface of a match expression.
pub trait ExprMatchBuilder: AttrsPropsBuilder {
    /// Holds iff `r` is the node that the constructor arguments produce.
    spec fn new_ens(expr: Expr, arms: Vec<Arm>, r: Self) -> bool;

    fn new<A: IntoExpr>(expr: A, arms: Vec<Arm>) -> (r: Self)
        ensures
            Self::new_ens(expr.expr_of(), arms, r),
    ;
}

impl ExprMatchBuilder for ExprMatch {
    open spec fn new_ens(expr: Expr, arms: Vec<Arm>, r: Self) -> bool {
        r.attrs@ == Seq::<Attribute>::empty() && *r.expr == expr && r.arms == arms
    }

    fn new<A: IntoExpr>(expr: A, arms: Vec<Arm>) -> (r: Self) {
        expr_match(expr, arms)
    }
}

/// A method call without a turbofish.
pub fn expr_method_call<A: IntoExpr, B: IntoIdent, C: IntoExpr>(receiver: A, method: B, args: Vec<C>) -> (r: ExprMethodCall)
    ensures
        r.attrs@ == Seq::<Attribute>::empty(),
        *r.receiver == receiver.expr_of(),
        method.into_ident_ens(r.method),
        r.turbofish is None,
        r.args@ == args@.map_values(|e: C| e.expr_of()),
{
    let receiver = receiver.into_expr();
    let method = method.into_ident();
    let args = into_expr_vec(args);
    ExprMethodCall {
        attrs: Vec::new(),
        receiver: Box::new(receiver),
        method: method,
        turbofish: None,
        args: args,
    }
}

/// The fluent surface of a method call.
pub trait ExprMethodCallBuilder: AttrsPropsBuilder {
    /// Holds iff `r` is the node that the constructor arguments produce.
    spec fn new_ens(receiver: Expr, method: Ident, args: Seq<Expr>, r: Self) -> bool;

    fn new<A: IntoExpr, B: IntoIdent, C: IntoExpr>(receiver: A, method: B, args: Vec<C>) -> (r: Self)
        ensures
            exists|method_v: Ident| #[trigger] method.into_ident_ens(method_v) && Self::new_ens(receiver.expr_of(), method_v, args@.map_values(|e: C| e.expr_of()), r),
    ;

    /// Holds iff `r` is `self` with the turbofish arguments set.
    spec fn turbofish_ens(self, args: AngleBracketedGenericArguments, r: Self) -> bool;

    /// Attach turbofish arguments.
    fn turbofish(self, args: AngleBracketedGenericArguments) -> (r: Self)
        ensures
            self.turbofish_ens(args, r),
    ;
}

impl ExprMethodCallBuilder for ExprMethodCall {
    open spec fn new_ens(receiver: Expr, method: Ident, args: Seq<Expr>, r: Self) -> bool {
        r.attrs@ == Seq::<Attribute>::empty() && *r.receiver == receiver && r.method == method && r.turbofish is None && r.args@ == args
    }

    fn new<A: IntoExpr, B: IntoIdent, C: IntoExpr>(receiver: A, method: B, args: Vec<C>) -> (r: Self) {
        expr_method_call(receiver, method, args)
    }

    open spec fn turbofish_ens(self, args: AngleBracketedGenericArguments, r: Self) -> bool {
        r == (ExprMethodCall { turbofish: Some(args), ..self })
    }

    fn turbofish(self, args: AngleBracketedGenericArguments) -> (r: Self) {
        ExprMethodCall { turbofish: Some(args), ..self }
    }
}

/// A parenthesized expression.
pub fn expr_paren<A: IntoExpr>(expr: A) -> (r: ExprParen)
    ensures
        r.attrs@ == Seq::<Attribute>::empty(),
        *r.expr == expr.expr_of(),
{
    let expr = expr.into_expr();
    ExprParen {
        attrs: Vec::new(),
        expr: Box::new(expr),
    }
}

/// The fluent surface of a parenthesized expression.
pub trait ExprParenBuilder: AttrsPropsBuilder {
    /// Holds iff `r` is the node that the constructor arguments produce.
    spec fn new_ens(expr: Expr, r: Self) -> bool;

    fn new<A: IntoExpr>(expr: A) -> (r: Self)
        ensures
            Self::new_ens(expr.expr_of(), r),
    ;
}

impl ExprParenBuilder for ExprParen {
    open spec fn new_ens(expr: Expr, r: Self) -> bool {
        r.attrs@ == Seq::<Attribute>::empty() && *r.expr == expr
    }

    fn new<A: IntoExpr>(expr: A) -> (r: Self) {
        expr_paren(expr)
    }
}

/// An unqualified path expression.
pub fn expr_path<A: IntoPath>(path: A) -> (r: ExprPath)
    ensures
        r.attrs@ == Seq::<Attribute>::empty(),
        r.qself is None,
        path.into_path_ens(r.path),
{
    let path = path.into_path();
    ExprPath {
        attrs: Vec::new(),
        qself: None,
        path: path,
    }
}

/// The fluent surface of a path expression.
pub trait ExprPathBuilder: AttrsPropsBuilder + QSelfPropsBuilder {
    /// Holds iff `r` is the node that the constructor arguments produce.
    spec fn new_ens(path: Path, r: Self) -> bool;

    fn new<A: IntoPath>(path: A) -> (r: Self)
        ensures
            exists|path_v: Path| #[trigger] path.into_path_ens(path_v) && Self::new_ens(path_v, r),
    ;
}

impl ExprPathBuilder for ExprPath {
    open spec fn new_ens(path: Path, r: Self) -> bool {
        r.attrs@ == Seq::<Attribute>::empty() && r.qself is None && r.path == path
    }

    fn new<A: IntoPath>(path: A) -> (r: Self) {
        expr_path(path)
    }
}

/// A range with the given limits and no endpoints.
pub fn expr_range<A: IntoRangeLimits>(limits: A) -> (r: ExprRange)
    ensures
        r.attrs@ == Seq::<Attribute>::empty(),
        r.start is None,
        r.limits == limits.range_limits_of(),
        r.end is None,
{
    let limits = limits.into_range_limits();
    ExprRange {
        attrs: Vec::new(),
        start: None,
        limits: limits,
        end: None,
    }
}

/// The fluent surface of a range expression.
pub trait ExprRangeBuilder: AttrsPropsBuilder {
    /// Holds iff `r` is the node that the constructor arguments produce.
    spec fn new_ens(limits: RangeLimits, r: Self) -> bool;

    fn new<A: IntoRangeLimits>(limits: A) -> (r: Self)
        ensures
            Self::new_ens(limits.range_limits_of(), r),
    ;

    /// Holds iff `r` is `self` with the lower endpoint set.
    spec fn start_ens(self, expr: Expr, r: Self) -> bool;

    /// Set the lower endpoint.
    fn start<A: IntoExpr>(self, expr: A) -> (r: Self)
        ensures
            self.start_ens(expr.expr_of(), r),
    ;

    /// Holds iff `r` is `self` with the upper endpoint set.
    spec fn end_ens(self, expr: Expr, r: Self) -> bool;

    /// Set the upper endpoint.
    fn end<A: IntoExpr>(self, expr: A) -> (r: Self)
        ensures
            self.end_ens(expr.expr_of(), r),
    ;
}

impl ExprRangeBuilder for ExprRange {
    open spec fn new_ens(limits: RangeLimits, r: Self) -> bool {
        r.attrs@ == Seq::<Attribute>::empty() && r.start is None && r.limits == limits && r.end is None
    }

    fn new<A: IntoRangeLimits>(limits: A) -> (r: Self) {
        expr_range(limits)
    }

    open spec fn start_ens(self, expr: Expr, r: Self) -> bool {
        r == (ExprRange { start: r.start, ..self }) && (r.start matches Some(b) && *b == expr)
    }

    fn start<A: IntoExpr>(self, expr: A) -> (r: Self) {
        let expr = expr.into_expr();
        ExprRange { start: Some(Box::new(expr)), ..self }
    }

    open spec fn end_ens(self, expr: Expr, r: Self) -> bool {
        r == (ExprRange { end: r.end, ..self }) && (r.end matches Some(b) && *b == expr)
    }

    fn end<A: IntoExpr>(self, expr: A) -> (r: Self) {
        let expr = expr.into_expr();
        ExprRange { end: Some(Box::new(expr)), ..self }
    }
}

/// An immutable borrow of the given expression.
pub fn expr_reference<A: IntoExpr>(expr: A) -> (r: ExprReference)
    ensures
        r.attrs@ == Seq::<Attribute>::empty(),
        r.mutability == false,
        *r.expr == expr.expr_of(),
{
    let expr = expr.into_expr();
    ExprReference {
        attrs: Vec::new(),
        mutability: false,
        expr: Box::new(expr),
    }
}

/// The fluent surface of a borrow expression.
pub trait ExprReferenceBuilder: AttrsPropsBuilder + MutabilityPropsBuilder {
    /// Holds iff `r` is the node that the constructor arguments produce.
    spec fn new_ens(expr: Expr, r: Self) -> bool;

    fn new<A: IntoExpr>(expr: A) -> (r: Self)
        ensures
            Self::new_ens(expr.expr_of(), r),
    ;
}

impl ExprReferenceBuilder for ExprReference {
    open spec fn new_ens(expr: Expr, r: Self) -> bool {
        r.attrs@ == Seq::<Attribute>::empty() && r.mutability == false && *r.expr == expr
    }

    fn new<A: IntoExpr>(expr: A) -> (r: Self) {
        expr_reference(expr)
    }
}

/// An array-repeat of the given element and length.
pub fn expr_repeat<A: IntoExpr, B: IntoExpr>(expr: A, len: B) -> (r: ExprRepeat)
    ensures
        r.attrs@ == Seq::<Attribute>::empty(),
        *r.expr == expr.expr_of(),
        *r.len == len.expr_of(),
{
    let expr = expr.into_expr();
    let len = len.into_expr();
    ExprRepeat {
        attrs: Vec::new(),
        expr: Box::new(expr),
        len: Box::new(len),
    }
}

/// The fluent surface of an array-repeat expression.
pub trait ExprRepeatBuilder: AttrsPropsBuilder {
    /// Holds iff `r` is the node that the constructor arguments produce.
    spec fn new_ens(expr: Expr, len: Expr, r: Self) -> bool;

    fn new<A: IntoExpr, B: IntoExpr>(expr: A, len: B) -> (r: Self)
        ensures
            Self::new_ens(expr.expr_of(), len.expr_of(), r),
    ;
}

impl ExprRepeatBuilder for ExprRepeat {
    open spec fn new_ens(expr: Expr, len: Expr, r: Self) -> bool {
        r.attrs@ == Seq::<Attribute>::empty() && *r.expr == expr && *r.len == len
    }

    fn new<A: IntoExpr, B: IntoExpr>(expr: A, len: B) -> (r: Self) {
        expr_repeat(expr, len)
    }
}

/// A bare return.
pub fn expr_return() -> (r: ExprReturn)
    ensures
        r.attrs@ == Seq::<Attribute>::empty(),
        r.expr is None,
{
    ExprReturn {
        attrs: Vec::new(),
        expr: None,
    }
}

/// The fluent surface of a return expression.
pub trait ExprReturnBuilder: AttrsPropsBuilder {
    /// Holds iff `r` is the node that the constructor arguments produce.
    spec fn new_ens(r: Self) -> bool;

    fn new() -> (r: Self)
        ensures
            Self::new_ens(r),
    ;

    /// Holds iff `r` is `self` with the returned value set.
    spec fn expr_ens(self, expr: Expr, r: Self) -> bool;

    /// Carry a value back to the caller.
    fn expr<A: IntoExpr>(self, expr: A) -> (r: Self)
        ensures
            self.expr_ens(expr.expr_of(), r),
    ;
}

impl ExprReturnBuilder for ExprReturn {
    open spec fn new_ens(r: Self) -> bool {
        r.attrs@ == Seq::<Attribute>::empty() && r.expr is None
    }

    fn new() -> (r: Self) {
        expr_return()
    }

    open spec fn expr_ens(self, expr: Expr, r: Self) -> bool {
        r == (ExprReturn { expr: r.expr, ..self }) && (r.expr matches Some(b) && *b == expr)
    }

    fn expr<A: IntoExpr>(self, expr: A) -> (r: Self) {
        let expr = expr.into_expr();
        ExprReturn { expr: Some(Box::new(expr)), ..self }
    }
}

/// A struct literal over the given path and fields, without a rest.
pub fn expr_struct<A: IntoPath>(path: A, fields: Vec<FieldValue>) -> (r: ExprStruct)
    ensures
        r.attrs@ == Seq::<Attribute>::empty(),
        r.qself is None,
        path.into_path_ens(r.path),
        r.fields == fields,
        r.dot2_token == false,
        r.rest is None,
{
    let path = path.into_path();
    ExprStruct {
        attrs: Vec::new(),
        qself: None,
        path: path,
        fields: fields,
        dot2_token: false,
        rest: None,
    }
}

/// The fluent surface of a struct literal.
pub trait ExprStructBuilder: AttrsPropsBuilder + QSelfPropsBuilder {
    /// Holds iff `r` is the node that the constructor arguments produce.
    spec fn new_ens(path: Path, fields: Vec<FieldValue>, r: Self) -> bool;

    fn new<A: IntoPath>(path: A, fields: Vec<FieldValue>) -> (r: Self)
        ensures
            exists|path_v: Path| #[trigger] path.into_path_ens(path_v) && Self::new_ens(path_v, fields, r),
    ;

    /// Holds iff `r` is `self` with the double-dot marker set as given.
    spec fn dot2_token_ens(self, dot2_token: bool, r: Self) -> bool;

    /// Keep or drop the double-dot marker alone, for an empty rest.
    fn dot2_token(self, dot2_token: bool) -> (r: Self)
        ensures
            self.dot2_token_ens(dot2_token, r),
    ;

    /// Holds iff `r` is `self` with the rest expression set and the double-dot marker present.
    spec fn rest_ens(self, rest: Expr, r: Self) -> bool;

    /// Set the update-syntax rest, which always brings the double-dot marker with it.
    fn rest<A: IntoExpr>(self, rest: A) -> (r: Self)
        ensures
            self.rest_ens(rest.expr_of(), r),
    ;
}

impl ExprStructBuilder for ExprStruct {
    open spec fn new_ens(path: Path, fields: Vec<FieldValue>, r: Self) -> bool {
        r.attrs@ == Seq::<Attribute>::empty() && r.qself is None && r.path == path && r.fields == fields && r.dot2_token == false && r.rest is None
    }

    fn new<A: IntoPath>(path: A, fields: Vec<FieldValue>) -> (r: Self) {
        expr_struct(path, fields)
    }

    open spec fn dot2_token_ens(self, dot2_token: bool, r: Self) -> bool {
        r == (ExprStruct { dot2_token: dot2_token, ..self })
    }

    fn dot2_token(self, dot2_token: bool) -> (r: Self) {
        ExprStruct { dot2_token: dot2_token, ..self }
    }

    open spec fn rest_ens(self, rest: Expr, r: Self) -> bool {
        r == (ExprStruct { dot2_token: true, rest: r.rest, ..self }) && (r.rest matches Some(b) && *b == rest)
    }

    fn rest<A: IntoExpr>(self, rest: A) -> (r: Self) {
        let rest = rest.into_expr();
        ExprStruct { dot2_token: true, rest: Some(Box::new(rest)), ..self }
    }
}

/// A try (question mark) on the given expression.
pub fn expr_try<A: IntoExpr>(expr: A) -> (r: ExprTry)
    ensures
        r.attrs@ == Seq::<Attribute>::empty(),
        *r.expr == expr.expr_of(),
{
    let expr = expr.into_expr();
    ExprTry {
        attrs: Vec::new(),
        expr: Box::new(expr),
    }
}

/// The fluent surface of a try expression.
pub trait ExprTryBuilder: AttrsPropsBuilder {
    /// Holds iff `r` is the node that the constructor arguments produce.
    spec fn new_ens(expr: Expr, r: Self) -> bool;

    fn new<A: IntoExpr>(expr: A) -> (r: Self)
        ensures
            Self::new_ens(expr.expr_of(), r),
    ;
}

impl ExprTryBuilder for ExprTry {
    open spec fn new_ens(expr: Expr, r: Self) -> bool {
        r.attrs@ == Seq::<Attribute>::empty() && *r.expr == expr
    }

    fn new<A: IntoExpr>(expr: A) -> (r: Self) {
        expr_try(expr)
    }
}

/// A try block.
pub fn expr_try_block(block: Block) -> (r: ExprTryBlock)
    ensures
        r.attrs@ == Seq::<Attribute>::empty(),
        r.block == block,
{
    ExprTryBlock {
        attrs: Vec::new(),
        block: block,
    }
}

/// The fluent surface of a try block.
pub trait ExprTryBlockBuilder: AttrsPropsBuilder {
    /// Holds iff `r` is the node that the constructor arguments produce.
    spec fn new_ens(block: Block, r: Self) -> bool;

    fn new(block: Block) -> (r: Self)
        ensures
            Self::new_ens(block, r),
    ;
}

impl ExprTryBlockBuilder for ExprTryBlock {
    open spec fn new_ens(block: Block, r: Self) -> bool {
        r.attrs@ == Seq::<Attribute>::empty() && r.block == block
    }

    fn new(block: Block) -> (r: Self) {
        expr_try_block(block)
    }
}

/// A tuple over the given elements.
pub fn expr_tuple<A: IntoExpr>(elems: Vec<A>) -> (r: ExprTuple)
    ensures
        r.attrs@ == Seq::<Attribute>::empty(),
        r.elems@ == elems@.map_values(|e: A| e.expr_of()),
{
    let elems = into_expr_vec(elems);
    ExprTuple {
        attrs: Vec::new(),
        elems: elems,
    }
}

/// The fluent surface of a tuple expression.
pub trait ExprTupleBuilder: AttrsPropsBuilder {
    /// Holds iff `r` is the node that the constructor arguments produce.
    spec fn new_ens(elems: Seq<Expr>, r: Self) -> bool;

    fn new<A: IntoExpr>(elems: Vec<A>) -> (r: Self)
        ensures
            Self::new_ens(elems@.map_values(|e: A| e.expr_of()), r),
    ;
}

impl ExprTupleBuilder for ExprTuple {
    open spec fn new_ens(elems: Seq<Expr>, r: Self) -> bool {
        r.attrs@ == Seq::<Attribute>::empty() && r.elems@ == elems
    }

    fn new<A: IntoExpr>(elems: Vec<A>) -> (r: Self) {
        expr_tuple(elems)
    }
}

/// A unary operation on the given expression.
pub fn expr_unary<A: IntoUnOp, B: IntoExpr>(op: A, expr: B) -> (r: ExprUnary)
    ensures
        r.attrs@ == Seq::<Attribute>::empty(),
        r.op == op.un_op_of(),
        *r.expr == expr.expr_of(),
{
    let op = op.into_un_op();
    let expr = expr.into_expr();
    ExprUnary {
        attrs: Vec::new(),
        op: op,
        expr: Box::new(expr),
    }
}

/// The fluent surface of a unary operation.
pub trait ExprUnaryBuilder: AttrsPropsBuilder {
    /// Holds iff `r` is the node that the constructor arguments produce.
    spec fn new_ens(op: UnOp, expr: Expr, r: Self) -> bool;

    fn new<A: IntoUnOp, B: IntoExpr>(op: A, expr: B) -> (r: Self)
        ensures
            Self::new_ens(op.un_op_of(), expr.expr_of(), r),
    ;
}

impl ExprUnaryBuilder for ExprUnary {
    open spec fn new_ens(op: UnOp, expr: Expr, r: Self) -> bool {
        r.attrs@ == Seq::<Attribute>::empty() && r.op == op && *r.expr == expr
    }

    fn new<A: IntoUnOp, B: IntoExpr>(op: A, expr: B) -> (r: Self) {
        expr_unary(op, expr)
    }
}

/// An unsafe block.
pub fn expr_unsafe(block: Block) -> (r: ExprUnsafe)
    ensures
        r.attrs@ == Seq::<Attribute>::empty(),
        r.block == block,
{
    ExprUnsafe {
        attrs: Vec::new(),
        block: block,
    }
}

/// The fluent surface of an unsafe block.
pub trait ExprUnsafeBuilder: AttrsPropsBuilder {
    /// Holds iff `r` is the node that the constructor arguments produce.
    spec fn new_ens(block: Block, r: Self) -> bool;

    fn new(block: Block) -> (r: Self)
        ensures
            Self::new_ens(block, r),
    ;
}

impl ExprUnsafeBuilder for ExprUnsafe {
    open spec fn new_ens(block: Block, r: Self) -> bool {
        r.attrs@ == Seq::<Attribute>::empty() && r.block == block
    }

    fn new(block: Block) -> (r: Self) {
        expr_unsafe(block)
    }
}

/// An unlabeled while loop.
pub fn expr_while<A: IntoExpr>(cond: A, body: Block) -> (r: ExprWhile)
    ensures
        r.attrs@ == Seq::<Attribute>::empty(),
        r.label is None,
        *r.cond == cond.expr_of(),
        r.body == body,
{
    let cond = cond.into_expr();
    ExprWhile {
        attrs: Vec::new(),
        label: None,
        cond: Box::new(cond),
        body: body,
    }
}

/// The fluent surface of a while loop.
pub trait ExprWhileBuilder: AttrsPropsBuilder + LabelPropsBuilder {
    /// Holds iff `r` is the node that the constructor arguments produce.
    spec fn new_ens(cond: Expr, body: Block, r: Self) -> bool;

    fn new<A: IntoExpr>(cond: A, body: Block) -> (r: Self)
        ensures
            Self::new_ens(cond.expr_of(), body, r),
    ;
}

impl ExprWhileBuilder for ExprWhile {
    open spec fn new_ens(cond: Expr, body: Block, r: Self) -> bool {
        r.attrs@ == Seq::<Attribute>::empty() && r.label is None && *r.cond == cond && r.body == body
    }

    fn new<A: IntoExpr>(cond: A, body: Block) -> (r: Self) {
        expr_while(cond, body)
    }
}

/// A bare yield.
pub fn expr_yield() -> (r: ExprYield)
    ensures
        r.attrs@ == Seq::<Attribute>::empty(),
        r.expr is None,
{
    ExprYield {
        attrs: Vec::new(),
        expr: None,
    }
}

/// The fluent surface of a yield expression.
pub trait ExprYieldBuilder: AttrsPropsBuilder {
    /// Holds iff `r` is the node that the constructor arguments produce.
    spec fn new_ens(r: Self) -> bool;

    fn new() -> (r: Self)
        ensures
            Self::new_ens(r),
    ;

    /// Holds iff `r` is `self` with the yielded value set.
    spec fn expr_ens(self, expr: Expr, r: Self) -> bool;

    /// Carry a value out of the generator.
    fn expr<A: IntoExpr>(self, expr: A) -> (r: Self)
        ensures
            self.expr_ens(expr.expr_of(), r),
    ;
}

impl ExprYieldBuilder for ExprYield {
    open spec fn new_ens(r: Self) -> bool {
        r.attrs@ == Seq::<Attribute>::empty() && r.expr is None
    }

    fn new() -> (r: Self) {
        expr_yield()
    }

    open spec fn expr_ens(self, expr: Expr, r: Self) -> bool {
        r == (ExprYield { expr: r.expr, ..self }) && (r.expr matches Some(b) && *b == expr)
    }

    fn expr<A: IntoExpr>(self, expr: A) -> (r: Self) {
        let expr = expr.into_expr();
        ExprYield { expr: Some(Box::new(expr)), ..self }
    }
}

impl AttrsPropsBuilder for ExprArray {
    open spec fn attr_ens(self, attr: Attribute, r: Self) -> bool {
        r == (ExprArray { attrs: r.attrs, ..self }) && r.attrs@ == self.attrs@.push(attr)
    }

    open spec fn attrs_ens(self, attrs: Vec<Attribute>, r: Self) -> bool {
        r == (ExprArray { attrs, ..self })
    }

    fn attr(self, attr: Attribute) -> (r: Self) {
        let mut node = self;
        node.attrs.push(attr);
        node
    }

    fn attrs(self, attrs: Vec<Attribute>) -> (r: Self) {
        ExprArray { attrs, ..self }
    }
}

impl AttrsPropsBuilder for ExprAssign {
    open spec fn attr_ens(self, attr: Attribute, r: Self) -> bool {
        r == (ExprAssign { attrs: r.attrs, ..self }) && r.attrs@ == self.attrs@.push(attr)
    }

    open spec fn attrs_ens(self, attrs: Vec<Attribute>, r: Self) -> bool {
        r == (ExprAssign { attrs, ..self })
    }

    fn attr(self, attr: Attribute) -> (r: Self) {
        let mut node = self;
        node.attrs.push(attr);
        node
    }

    fn attrs(self, attrs: Vec<Attribute>) -> (r: Self) {
        ExprAssign { attrs, ..self }
    }
}

impl AttrsPropsBuilder for ExprAsync {
    open spec fn attr_ens(self, attr: Attribute, r: Self) -> bool {
        r == (ExprAsync { attrs: r.attrs, ..self }) && r.attrs@ == self.attrs@.push(attr)
    }

    open spec fn attrs_ens(self, attrs: Vec<Attribute>, r: Self) -> bool {
        r == (ExprAsync { attrs, ..self })
    }

    fn attr(self, attr: Attribute) -> (r: Self) {
        let mut node = self;
        node.attrs.push(attr);
        node
    }

    fn attrs(self, attrs: Vec<Attribute>) -> (r: Self) {
        ExprAsync { attrs, ..self }
    }
}

impl AttrsPropsBuilder for ExprAwait {
    open spec fn attr_ens(self, attr: Attribute, r: Self) -> bool {
        r == (ExprAwait { attrs: r.attrs, ..self }) && r.attrs@ == self.attrs@.push(attr)
    }

    open spec fn attrs_ens(self, attrs: Vec<Attribute>, r: Self) -> bool {
        r == (ExprAwait { attrs, ..self })
    }

    fn attr(self, attr: Attribute) -> (r: Self) {
        let mut node = self;
        node.attrs.push(attr);
        node
    }

    fn attrs(self, attrs: Vec<Attribute>) -> (r: Self) {
        ExprAwait { attrs, ..self }
    }
}

impl AttrsPropsBuilder for ExprBinary {
    open spec fn attr_ens(self, attr: Attribute, r: Self) -> bool {
        r == (ExprBinary { attrs: r.attrs, ..self }) && r.attrs@ == self.attrs@.push(attr)
    }

    open spec fn attrs_ens(self, attrs: Vec<Attribute>, r: Self) -> bool {
        r == (ExprBinary { attrs, ..self })
    }

    fn attr(self, attr: Attribute) -> (r: Self) {
        let mut node = self;
        node.attrs.push(attr);
        node
    }

    fn attrs(self, attrs: Vec<Attribute>) -> (r: Self) {
        ExprBinary { attrs, ..self }
    }
}

impl AttrsPropsBuilder for ExprBlock {
    open spec fn attr_ens(self, attr: Attribute, r: Self) -> bool {
        r == (ExprBlock { attrs: r.attrs, ..self }) && r.attrs@ == self.attrs@.push(attr)
    }

    open spec fn attrs_ens(self, attrs: Vec<Attribute>, r: Self) -> bool {
        r == (ExprBlock { attrs, ..self })
    }

    fn attr(self, attr: Attribute) -> (r: Self) {
        let mut node = self;
        node.attrs.push(attr);
        node
    }

    fn attrs(self, attrs: Vec<Attribute>) -> (r: Self) {
        ExprBlock { attrs, ..self }
    }
}

impl AttrsPropsBuilder for ExprBreak {
    open spec fn attr_ens(self, attr: Attribute, r: Self) -> bool {
        r == (ExprBreak { attrs: r.attrs, ..self }) && r.attrs@ == self.attrs@.push(attr)
    }

    open spec fn attrs_ens(self, attrs: Vec<Attribute>, r: Self) -> bool {
        r == (ExprBreak { attrs, ..self })
    }

    fn attr(self, attr: Attribute) -> (r: Self) {
        let mut node = self;
        node.attrs.push(attr);
        node
    }

    fn attrs(self, attrs: Vec<Attribute>) -> (r: Self) {
        ExprBreak { attrs, ..self }
    }
}

impl AttrsPropsBuilder for ExprCall {
    open spec fn attr_ens(self, attr: Attribute, r: Self) -> bool {
        r == (ExprCall { attrs: r.attrs, ..self }) && r.attrs@ == self.attrs@.push(attr)
    }

    open spec fn attrs_ens(self, attrs: Vec<Attribute>, r: Self) -> bool {
        r == (ExprCall { attrs, ..self })
    }

    fn attr(self, attr: Attribute) -> (r: Self) {
        let mut node = self;
        node.attrs.push(attr);
        node
    }

    fn attrs(self, attrs: Vec<Attribute>) -> (r: Self) {
        ExprCall { attrs, ..self }
    }
}

impl AttrsPropsBuilder for ExprCast {
    open spec fn attr_ens(self, attr: Attribute, r: Self) -> bool {
        r == (ExprCast { attrs: r.attrs, ..self }) && r.attrs@ == self.attrs@.push(attr)
    }

    open spec fn attrs_ens(self, attrs: Vec<Attribute>, r: Self) -> bool {
        r == (ExprCast { attrs, ..self })
    }

    fn attr(self, attr: Attribute) -> (r: Self) {
        let mut node = self;
        node.attrs.push(attr);
        node
    }

    fn attrs(self, attrs: Vec<Attribute>) -> (r: Self) {
        ExprCast { attrs, ..self }
    }
}

impl AttrsPropsBuilder for ExprClosure {
    open spec fn attr_ens(self, attr: Attribute, r: Self) -> bool {
        r == (ExprClosure { attrs: r.attrs, ..self }) && r.attrs@ == self.attrs@.push(attr)
    }

    open spec fn attrs_ens(self, attrs: Vec<Attribute>, r: Self) -> bool {
        r == (ExprClosure { attrs, ..self })
    }

    fn attr(self, attr: Attribute) -> (r: Self) {
        let mut node = self;
        node.attrs.push(attr);
        node
    }

    fn attrs(self, attrs: Vec<Attribute>) -> (r: Self) {
        ExprClosure { attrs, ..self }
    }
}

impl AttrsPropsBuilder for ExprConst {
    open spec fn attr_ens(self, attr: Attribute, r: Self) -> bool {
        r == (ExprConst { attrs: r.attrs, ..self }) && r.attrs@ == self.attrs@.push(attr)
    }

    open spec fn attrs_ens(self, attrs: Vec<Attribute>, r: Self) -> bool {
        r == (ExprConst { attrs, ..self })
    }

    fn attr(self, attr: Attribute) -> (r: Self) {
        let mut node = self;
        node.attrs.push(attr);
        node
    }

    fn attrs(self, attrs: Vec<Attribute>) -> (r: Self) {
        ExprConst { attrs, ..self }
    }
}

impl AttrsPropsBuilder for ExprContinue {
    open spec fn attr_ens(self, attr: Attribute, r: Self) -> bool {
        r == (ExprContinue { attrs: r.attrs, ..self }) && r.attrs@ == self.attrs@.push(attr)
    }

    open spec fn attrs_ens(self, attrs: Vec<Attribute>, r: Self) -> bool {
        r == (ExprContinue { attrs, ..self })
    }

    fn attr(self, attr: Attribute) -> (r: Self) {
        let mut node = self;
        node.attrs.push(attr);
        node
    }

    fn attrs(self, attrs: Vec<Attribute>) -> (r: Self) {
        ExprContinue { attrs, ..self }
    }
}

impl AttrsPropsBuilder for ExprField {
    open spec fn attr_ens(self, attr: Attribute, r: Self) -> bool {
        r == (ExprField { attrs: r.attrs, ..self }) && r.attrs@ == self.attrs@.push(attr)
    }

    open spec fn attrs_ens(self, attrs: Vec<Attribute>, r: Self) -> bool {
        r == (ExprField { attrs, ..self })
    }

    fn attr(self, attr: Attribute) -> (r: Self) {
        let mut node = self;
        node.attrs.push(attr);
        node
    }

    fn attrs(self, attrs: Vec<Attribute>) -> (r: Self) {
        ExprField { attrs, ..self }
    }
}

impl AttrsPropsBuilder for ExprForLoop {
    open spec fn attr_ens(self, attr: Attribute, r: Self) -> bool {
        r == (ExprForLoop { attrs: r.attrs, ..self }) && r.attrs@ == self.attrs@.push(attr)
    }

    open spec fn attrs_ens(self, attrs: Vec<Attribute>, r: Self) -> bool {
        r == (ExprForLoop { attrs, ..self })
    }

    fn attr(self, attr: Attribute) -> (r: Self) {
        let mut node = self;
        node.attrs.push(attr);
        node
    }

    fn attrs(self, attrs: Vec<Attribute>) -> (r: Self) {
        ExprForLoop { attrs, ..self }
    }
}

impl AttrsPropsBuilder for ExprGroup {
    open spec fn attr_ens(self, attr: Attribute, r: Self) -> bool {
        r == (ExprGroup { attrs: r.attrs, ..self }) && r.attrs@ == self.attrs@.push(attr)
    }

    open spec fn attrs_ens(self, attrs: Vec<Attribute>, r: Self) -> bool {
        r == (ExprGroup { attrs, ..self })
    }

    fn attr(self, attr: Attribute) -> (r: Self) {
        let mut node = self;
        node.attrs.push(attr);
        node
    }

    fn attrs(self, attrs: Vec<Attribute>) -> (r: Self) {
        ExprGroup { attrs, ..self }
    }
}

impl AttrsPropsBuilder for ExprIf {
    open spec fn attr_ens(self, attr: Attribute, r: Self) -> bool {
        r == (ExprIf { attrs: r.attrs, ..self }) && r.attrs@ == self.attrs@.push(attr)
    }

    open spec fn attrs_ens(self, attrs: Vec<Attribute>, r: Self) -> bool {
        r == (ExprIf { attrs, ..self })
    }

    fn attr(self, attr: Attribute) -> (r: Self) {
        let mut node = self;
        node.attrs.push(attr);
        node
    }

    fn attrs(self, attrs: Vec<Attribute>) -> (r: Self) {
        ExprIf { attrs, ..self }
    }
}

impl AttrsPropsBuilder for ExprIndex {
    open spec fn attr_ens(self, attr: Attribute, r: Self) -> bool {
        r == (ExprIndex { attrs: r.attrs, ..self }) && r.attrs@ == self.attrs@.push(attr)
    }

    open spec fn attrs_ens(self, attrs: Vec<Attribute>, r: Self) -> bool {
        r == (ExprIndex { attrs, ..self })
    }

    fn attr(self, attr: Attribute) -> (r: Self) {
        let mut node = self;
        node.attrs.push(attr);
        node
    }

    fn attrs(self, attrs: Vec<Attribute>) -> (r: Self) {
        ExprIndex { attrs, ..self }
    }
}

impl AttrsPropsBuilder for ExprInfer {
    open spec fn attr_ens(self, attr: Attribute, r: Self) -> bool {
        r == (ExprInfer { attrs: r.attrs, ..self }) && r.attrs@ == self.attrs@.push(attr)
    }

    open spec fn attrs_ens(self, attrs: Vec<Attribute>, r: Self) -> bool {
        r == (ExprInfer { attrs, ..self })
    }

    fn attr(self, attr: Attribute) -> (r: Self) {
        let mut node = self;
        node.attrs.push(attr);
        node
    }

    fn attrs(self, attrs: Vec<Attribute>) -> (r: Self) {
        ExprInfer { attrs, ..self }
    }
}

impl AttrsPropsBuilder for ExprLet {
    open spec fn attr_ens(self, attr: Attribute, r: Self) -> bool {
        r == (ExprLet { attrs: r.attrs, ..self }) && r.attrs@ == self.attrs@.push(attr)
    }

    open spec fn attrs_ens(self, attrs: Vec<Attribute>, r: Self) -> bool {
        r == (ExprLet { attrs, ..self })
    }

    fn attr(self, attr: Attribute) -> (r: Self) {
        let mut node = self;
        node.attrs.push(attr);
        node
    }

    fn attrs(self, attrs: Vec<Attribute>) -> (r: Self) {
        ExprLet { attrs, ..self }
    }
}

impl AttrsPropsBuilder for ExprLit {
    open spec fn attr_ens(self, attr: Attribute, r: Self) -> bool {
        r == (ExprLit { attrs: r.attrs, ..self }) && r.attrs@ == self.attrs@.push(attr)
    }

    open spec fn attrs_ens(self, attrs: Vec<Attribute>, r: Self) -> bool {
        r == (ExprLit { attrs, ..self })
    }

    fn attr(self, attr: Attribute) -> (r: Self) {
        let mut node = self;
        node.attrs.push(attr);
        node
    }

    fn attrs(self, attrs: Vec<Attribute>) -> (r: Self) {
        ExprLit { attrs, ..self }
    }
}

impl AttrsPropsBuilder for ExprLoop {
    open spec fn attr_ens(self, attr: Attribute, r: Self) -> bool {
        r == (ExprLoop { attrs: r.attrs, ..self }) && r.attrs@ == self.attrs@.push(attr)
    }

    open spec fn attrs_ens(self, attrs: Vec<Attribute>, r: Self) -> bool {
        r == (ExprLoop { attrs, ..self })
    }

    fn attr(self, attr: Attribute) -> (r: Self) {
        let mut node = self;
        node.attrs.push(attr);
        node
    }

    fn attrs(self, attrs: Vec<Attribute>) -> (r: Self) {
        ExprLoop { attrs, ..self }
    }
}

impl AttrsPropsBuilder for ExprMacro {
    open spec fn attr_ens(self, attr: Attribute, r: Self) -> bool {
        r == (ExprMacro { attrs: r.attrs, ..self }) && r.attrs@ == self.attrs@.push(attr)
    }

    open spec fn attrs_ens(self, attrs: Vec<Attribute>, r: Self) -> bool {
        r == (ExprMacro { attrs, ..self })
    }

    fn attr(self, attr: Attribute) -> (r: Self) {
        let mut node = self;
        node.attrs.push(attr);
        node
    }

    fn attrs(self, attrs: Vec<Attribute>) -> (r: Self) {
        ExprMacro { attrs, ..self }
    }
}

impl AttrsPropsBuilder for ExprMatch {
    open spec fn attr_ens(self, attr: Attribute, r: Self) -> bool {
        r == (ExprMatch { attrs: r.attrs, ..self }) && r.attrs@ == self.attrs@.push(attr)
    }

    open spec fn attrs_ens(self, attrs: Vec<Attribute>, r: Self) -> bool {
        r == (ExprMatch { attrs, ..self })
    }

    fn attr(self, attr: Attribute) -> (r: Self) {
        let mut node = self;
        node.attrs.push(attr);
        node
    }

    fn attrs(self, attrs: Vec<Attribute>) -> (r: Self) {
        ExprMatch { attrs, ..self }
    }
}

impl AttrsPropsBuilder for ExprMethodCall {
    open spec fn attr_ens(self, attr: Attribute, r: Self) -> bool {
        r == (ExprMethodCall { attrs: r.attrs, ..self }) && r.attrs@ == self.attrs@.push(attr)
    }

    open spec fn attrs_ens(self, attrs: Vec<Attribute>, r: Self) -> bool {
        r == (ExprMethodCall { attrs, ..self })
    }

    fn attr(self, attr: Attribute) -> (r: Self) {
        let mut node = self;
        node.attrs.push(attr);
        node
    }

    fn attrs(self, attrs: Vec<Attribute>) -> (r: Self) {
        ExprMethodCall { attrs, ..self }
    }
}

impl AttrsPropsBuilder for ExprParen {
    open spec fn attr_ens(self, attr: Attribute, r: Self) -> bool {
        r == (ExprParen { attrs: r.attrs, ..self }) && r.attrs@ == self.attrs@.push(attr)
    }

    open spec fn attrs_ens(self, attrs: Vec<Attribute>, r: Self) -> bool {
        r == (ExprParen { attrs, ..self })
    }

    fn attr(self, attr: Attribute) -> (r: Self) {
        let mut node = self;
        node.attrs.push(attr);
        node
    }

    fn attrs(self, attrs: Vec<Attribute>) -> (r: Self) {
        ExprParen { attrs, ..self }
    }
}

impl AttrsPropsBuilder for ExprPath {
    open spec fn attr_ens(self, attr: Attribute, r: Self) -> bool {
        r == (ExprPath { attrs: r.attrs, ..self }) && r.attrs@ == self.attrs@.push(attr)
    }

    open spec fn attrs_ens(self, attrs: Vec<Attribute>, r: Self) -> bool {
        r == (ExprPath { attrs, ..self })
    }

    fn attr(self, attr: Attribute) -> (r: Self) {
        let mut node = self;
        node.attrs.push(attr);
        node
    }

    fn attrs(self, attrs: Vec<Attribute>) -> (r: Self) {
        ExprPath { attrs, ..self }
    }
}

impl AttrsPropsBuilder for ExprRange {
    open spec fn attr_ens(self, attr: Attribute, r: Self) -> bool {
        r == (ExprRange { attrs: r.attrs, ..self }) && r.attrs@ == self.attrs@.push(attr)
    }

    open spec fn attrs_ens(self, attrs: Vec<Attribute>, r: Self) -> bool {
        r == (ExprRange { attrs, ..self })
    }

    fn attr(self, attr: Attribute) -> (r: Self) {
        let mut node = self;
        node.attrs.push(attr);
        node
    }

    fn attrs(self, attrs: Vec<Attribute>) -> (r: Self) {
        ExprRange { attrs, ..self }
    }
}

impl AttrsPropsBuilder for ExprReference {
    open spec fn attr_ens(self, attr: Attribute, r: Self) -> bool {
        r == (ExprReference { attrs: r.attrs, ..self }) && r.attrs@ == self.attrs@.push(attr)
    }

    open spec fn attrs_ens(self, attrs: Vec<Attribute>, r: Self) -> bool {
        r == (ExprReference { attrs, ..self })
    }

    fn attr(self, attr: Attribute) -> (r: Self) {
        let mut node = self;
        node.attrs.push(attr);
        node
    }

    fn attrs(self, attrs: Vec<Attribute>) -> (r: Self) {
        ExprReference { attrs, ..self }
    }
}

impl AttrsPropsBuilder for ExprRepeat {
    open spec fn attr_ens(self, attr: Attribute, r: Self) -> bool {
        r == (ExprRepeat { attrs: r.attrs, ..self }) && r.attrs@ == self.attrs@.push(attr)
    }

    open spec fn attrs_ens(self, attrs: Vec<Attribute>, r: Self) -> bool {
        r == (ExprRepeat { attrs, ..self })
    }

    fn attr(self, attr: Attribute) -> (r: Self) {
        let mut node = self;
        node.attrs.push(attr);
        node
    }

    fn attrs(self, attrs: Vec<Attribute>) -> (r: Self) {
        ExprRepeat { attrs, ..self }
    }
}

impl AttrsPropsBuilder for ExprReturn {
    open spec fn attr_ens(self, attr: Attribute, r: Self) -> bool {
        r == (ExprReturn { attrs: r.attrs, ..self }) && r.attrs@ == self.attrs@.push(attr)
    }

    open spec fn attrs_ens(self, attrs: Vec<Attribute>, r: Self) -> bool {
        r == (ExprReturn { attrs, ..self })
    }

    fn attr(self, attr: Attribute) -> (r: Self) {
        let mut node = self;
        node.attrs.push(attr);
        node
    }

    fn attrs(self, attrs: Vec<Attribute>) -> (r: Self) {
        ExprReturn { attrs, ..self }
    }
}

impl AttrsPropsBuilder for ExprStruct {
    open spec fn attr_ens(self, attr: Attribute, r: Self) -> bool {
        r == (ExprStruct { attrs: r.attrs, ..self }) && r.attrs@ == self.attrs@.push(attr)
    }

    open spec fn attrs_ens(self, attrs: Vec<Attribute>, r: Self) -> bool {
        r == (ExprStruct { attrs, ..self })
    }

    fn attr(self, attr: Attribute) -> (r: Self) {
        let mut node = self;
        node.attrs.push(attr);
        node
    }

    fn attrs(self, attrs: Vec<Attribute>) -> (r: Self) {
        ExprStruct { attrs, ..self }
    }
}

impl AttrsPropsBuilder for ExprTry {
    open spec fn attr_ens(self, attr: Attribute, r: Self) -> bool {
        r == (ExprTry { attrs: r.attrs, ..self }) && r.attrs@ == self.attrs@.push(attr)
    }

    open spec fn attrs_ens(self, attrs: Vec<Attribute>, r: Self) -> bool {
        r == (ExprTry { attrs, ..self })
    }

    fn attr(self, attr: Attribute) -> (r: Self) {
        let mut node = self;
        node.attrs.push(attr);
        node
    }

    fn attrs(self, attrs: Vec<Attribute>) -> (r: Self) {
        ExprTry { attrs, ..self }
    }
}

impl AttrsPropsBuilder for ExprTryBlock {
    open spec fn attr_ens(self, attr: Attribute, r: Self) -> bool {
        r == (ExprTryBlock { attrs: r.attrs, ..self }) && r.attrs@ == self.attrs@.push(attr)
    }

    open spec fn attrs_ens(self, attrs: Vec<Attribute>, r: Self) -> bool {
        r == (ExprTryBlock { attrs, ..self })
    }

    fn attr(self, attr: Attribute) -> (r: Self) {
        let mut node = self;
        node.attrs.push(attr);
        node
    }

    fn attrs(self, attrs: Vec<Attribute>) -> (r: Self) {
        ExprTryBlock { attrs, ..self }
    }
}

impl AttrsPropsBuilder for ExprTuple {
    open spec fn attr_ens(self, attr: Attribute, r: Self) -> bool {
        r == (ExprTuple { attrs: r.attrs, ..self }) && r.attrs@ == self.attrs@.push(attr)
    }

    open spec fn attrs_ens(self, attrs: Vec<Attribute>, r: Self) -> bool {
        r == (ExprTuple { attrs, ..self })
    }

    fn attr(self, attr: Attribute) -> (r: Self) {
        let mut node = self;
        node.attrs.push(attr);
        node
    }

    fn attrs(self, attrs: Vec<Attribute>) -> (r: Self) {
        ExprTuple { attrs, ..self }
    }
}

impl AttrsPropsBuilder for ExprUnary {
    open spec fn attr_ens(self, attr: Attribute, r: Self) -> bool {
        r == (ExprUnary { attrs: r.attrs, ..self }) && r.attrs@ == self.attrs@.push(attr)
    }

    open spec fn attrs_ens(self, attrs: Vec<Attribute>, r: Self) -> bool {
        r == (ExprUnary { attrs, ..self })
    }

    fn attr(self, attr: Attribute) -> (r: Self) {
        let mut node = self;
        node.attrs.push(attr);
        node
    }

    fn attrs(self, attrs: Vec<Attribute>) -> (r: Self) {
        ExprUnary { attrs, ..self }
    }
}

impl AttrsPropsBuilder for ExprUnsafe {
    open spec fn attr_ens(self, attr: Attribute, r: Self) -> bool {
        r == (ExprUnsafe { attrs: r.attrs, ..self }) && r.attrs@ == self.attrs@.push(attr)
    }

    open spec fn attrs_ens(self, attrs: Vec<Attribute>, r: Self) -> bool {
        r == (ExprUnsafe { attrs, ..self })
    }

    fn attr(self, attr: Attribute) -> (r: Self) {
        let mut node = self;
        node.attrs.push(attr);
        node
    }

    fn attrs(self, attrs: Vec<Attribute>) -> (r: Self) {
        ExprUnsafe { attrs, ..self }
    }
}

impl AttrsPropsBuilder for ExprWhile {
    open spec fn attr_ens(self, attr: Attribute, r: Self) -> bool {
        r == (ExprWhile { attrs: r.attrs, ..self }) && r.attrs@ == self.attrs@.push(attr)
    }

    open spec fn attrs_ens(self, attrs: Vec<Attribute>, r: Self) -> bool {
        r == (ExprWhile { attrs, ..self })
    }

    fn attr(self, attr: Attribute) -> (r: Self) {
        let mut node = self;
        node.attrs.push(attr);
        node
    }

    fn attrs(self, attrs: Vec<Attribute>) -> (r: Self) {
        ExprWhile { attrs, ..self }
    }
}

impl AttrsPropsBuilder for ExprYield {
    open spec fn attr_ens(self, attr: Attribute, r: Self) -> bool {
        r == (ExprYield { attrs: r.attrs, ..self }) && r.attrs@ == self.attrs@.push(attr)
    }

    open spec fn attrs_ens(self, attrs: Vec<Attribute>, r: Self) -> bool {
        r == (ExprYield { attrs, ..self })
    }

    fn attr(self, attr: Attribute) -> (r: Self) {
        let mut node = self;
        node.attrs.push(attr);
        node
    }

    fn attrs(self, attrs: Vec<Attribute>) -> (r: Self) {
        ExprYield { attrs, ..self }
    }
}

impl AttrsPropsBuilder for FieldValue {
    open spec fn attr_ens(self, attr: Attribute, r: Self) -> bool {
        r == (FieldValue { attrs: r.attrs, ..self }) && r.attrs@ == self.attrs@.push(attr)
    }

    open spec fn attrs_ens(self, attrs: Vec<Attribute>, r: Self) -> bool {
        r == (FieldValue { attrs, ..self })
    }

    fn attr(self, attr: Attribute) -> (r: Self) {
        let mut node = self;
        node.attrs.push(attr);
        node
    }

    fn attrs(self, attrs: Vec<Attribute>) -> (r: Self) {
        FieldValue { attrs, ..self }
    }
}

impl AttrsPropsBuilder for Arm {
    open spec fn attr_ens(self, attr: Attribute, r: Self) -> bool {
        r == (Arm { attrs: r.attrs, ..self }) && r.attrs@ == self.attrs@.push(attr)
    }

    open spec fn attrs_ens(self, attrs: Vec<Attribute>, r: Self) -> bool {
        r == (Arm { attrs, ..self })
    }

    fn attr(self, attr: Attribute) -> (r: Self) {
        let mut node = self;
        node.attrs.push(attr);
        node
    }

    fn attrs(self, attrs: Vec<Attribute>) -> (r: Self) {
        Arm { attrs, ..self }
    }
}

impl LabelPropsBuilder for ExprBlock {
    open spec fn label_ens(self, label: Label, r: Self) -> bool {
        r == (ExprBlock { label: Some(label), ..self })
    }

    fn label(self, label: Label) -> (r: Self) {
        ExprBlock { label: Some(label), ..self }
    }
}

impl LabelPropsBuilder for ExprForLoop {
    open spec fn label_ens(self, label: Label, r: Self) -> bool {
        r == (ExprForLoop { label: Some(label), ..self })
    }

    fn label(self, label: Label) -> (r: Self) {
        ExprForLoop { label: Some(label), ..self }
    }
}

impl LabelPropsBuilder for ExprLoop {
    open spec fn label_ens(self, label: Label, r: Self) -> bool {
        r == (ExprLoop { label: Some(label), ..self })
    }

    fn label(self, label: Label) -> (r: Self) {
        ExprLoop { label: Some(label), ..self }
    }
}

impl LabelPropsBuilder for ExprWhile {
    open spec fn label_ens(self, label: Label, r: Self) -> bool {
        r == (ExprWhile { label: Some(label), ..self })
    }

    fn label(self, label: Label) -> (r: Self) {
        ExprWhile { label: Some(label), ..self }
    }
}

impl MutabilityPropsBuilder for ExprReference {
    open spec fn mutability_ens(self, mutability: bool, r: Self) -> bool {
        r == (ExprReference { mutability, ..self })
    }

    fn mutability(self, mutability: bool) -> (r: Self) {
        ExprReference { mutability, ..self }
    }
}

impl QSelfPropsBuilder for ExprPath {
    open spec fn qself_ens(self, qself: QSelf, r: Self) -> bool {
        r == (ExprPath { qself: Some(qself), ..self })
    }

    fn qself(self, qself: QSelf) -> (r: Self) {
        ExprPath { qself: Some(qself), ..self }
    }
}

impl QSelfPropsBuilder for ExprStruct {
    open spec fn qself_ens(self, qself: QSelf, r: Self) -> bool {
        r == (ExprStruct { qself: Some(qself), ..self })
    }

    fn qself(self, qself: QSelf) -> (r: Self) {
        ExprStruct { qself: Some(qself), ..self }
    }
}

impl OutputPropsBuilder for ExprClosure {
    open spec fn output_ens(self, ty: Type, r: Self) -> bool {
        r == (ExprClosure { output: r.output, ..self }) && (r.output matches ReturnType::Explicit(b)
            && *b == ty)
    }

    fn output<T: IntoType>(self, ty: T) -> (r: Self) {
        let ty = ty.into_type();
        ExprClosure { output: ReturnType::Explicit(Box::new(ty)), ..self }
    }
}

} // verus!
