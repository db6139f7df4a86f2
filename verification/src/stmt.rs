use vstd::prelude::*;
use crate::attr::{Attribute};
use crate::convert::{into_stmt_vec};
use crate::expr::{Expr, IntoExpr};
use crate::item::{Item};
use crate::mac::{Macro};
use crate::pat::{IntoPat, Pat};
use crate::props::{AttrsPropsBuilder};

verus! {

/// A block of statements.
#[derive(Debug, PartialEq, Eq)]
pub struct Block {
    pub stmts: Vec<Stmt>,
}

/// A statement: a let binding, an item, an expression, or a macro.
#[derive(Debug, PartialEq, Eq)]
pub enum Stmt {
    Local(Local),
    Item(Item),
    Expr(Expr, bool),
    Macro(StmtMacro),
}

/// A let binding.
#[derive(Debug, PartialEq, Eq)]
pub struct Local {
    pub attrs: Vec<Attribute>,
    pub pat: Pat,
    pub init: Option<LocalInit>,
}

/// The initializer of a let binding, with an optional else branch.
#[derive(Debug, PartialEq, Eq)]
pub struct LocalInit {
    pub expr: Box<Expr>,
    pub diverge: Option<Box<Expr>>,
}

/// A macro in statement position.
#[derive(Debug, PartialEq, Eq)]
pub struct StmtMacro {
    pub attrs: Vec<Attribute>,
    pub mac: Macro,
    pub semi_token: bool,
}

/// Anything that can become a statement.
pub trait IntoStmt: Sized {
    /// The `Stmt` value that `self` becomes.
    spec fn stmt_of(self) -> Stmt;

    fn into_stmt(self) -> (r: Stmt)
        ensures
            r == self.stmt_of(),
    ;
}

/// The identity conversion: a `Stmt` stays exactly itself.
impl IntoStmt for Stmt {
    open spec fn stmt_of(self) -> Stmt {
        self
    }

    fn into_stmt(self) -> (r: Stmt) {
        self
    }
}

impl IntoStmt for Local {
    open spec fn stmt_of(self) -> Stmt {
        Stmt::Local(self)
    }

    fn into_stmt(self) -> (r: Stmt) {
        Stmt::Local(self)
    }
}

impl IntoStmt for Item {
    open spec fn stmt_of(self) -> Stmt {
        Stmt::Item(self)
    }

    fn into_stmt(self) -> (r: Stmt) {
        Stmt::Item(self)
    }
}

/// An expression becomes a statement without a trailing semicolon.
impl IntoStmt for Expr {
    open spec fn stmt_of(self) -> Stmt {
        Stmt::Expr(self, false)
    }

    fn into_stmt(self) -> (r: Stmt) {
        Stmt::Expr(self, false)
    }
}

impl IntoStmt for StmtMacro {
    open spec fn stmt_of(self) -> Stmt {
        Stmt::Macro(self)
    }

    fn into_stmt(self) -> (r: Stmt) {
        Stmt::Macro(self)
    }
}

/// A block of the given statements.
pub fn block<A: IntoStmt>(stmts: Vec<A>) -> (r: Block)
    ensures
        r.stmts@ == stmts@.map_values(|e: A| e.stmt_of()),
{
    let stmts = into_stmt_vec(stmts);
    Block {
        stmts: stmts,
    }
}

/// The fluent surface of a block.
pub trait BlockBuilder: Sized {
    /// Holds iff `r` is the node that the constructor arguments produce.
    spec fn new_ens(stmts: Seq<Stmt>, r: Self) -> bool;

    fn new<A: IntoStmt>(stmts: Vec<A>) -> (r: Self)
        ensures
            Self::new_ens(stmts@.map_values(|e: A| e.stmt_of()), r),
    ;
}

impl BlockBuilder for Block {
    open spec fn new_ens(stmts: Seq<Stmt>, r: Self) -> bool {
        r.stmts@ == stmts
    }

    fn new<A: IntoStmt>(stmts: Vec<A>) -> (r: Self) {
        block(stmts)
    }
}

/// A let binding of the given pattern, uninitialized.
pub fn local<A: IntoPat>(pat: A) -> (r: Local)
    ensures
        r.attrs@ == Seq::<Attribute>::empty(),
        r.pat == pat.pat_of(),
        r.init is None,
{
    let pat = pat.into_pat();
    Local {
        attrs: Vec::new(),
        pat: pat,
        init: None,
    }
}

/// The fluent surface of a let binding.
pub trait LocalBuilder: AttrsPropsBuilder {
    /// Holds iff `r` is the node that the constructor arguments produce.
    spec fn new_ens(pat: Pat, r: Self) -> bool;

    fn new<A: IntoPat>(pat: A) -> (r: Self)
        ensures
            Self::new_ens(pat.pat_of(), r),
    ;

    /// Holds iff `r` is `self` with the initializer set.
    spec fn init_ens(self, init: LocalInit, r: Self) -> bool;

    /// Attach an initializer.
    fn init(self, init: LocalInit) -> (r: Self)
        ensures
            self.init_ens(init, r),
    ;
}

impl LocalBuilder for Local {
    open spec fn new_ens(pat: Pat, r: Self) -> bool {
        r.attrs@ == Seq::<Attribute>::empty() && r.pat == pat && r.init is None
    }

    fn new<A: IntoPat>(pat: A) -> (r: Self) {
        local(pat)
    }

    open spec fn init_ens(self, init: LocalInit, r: Self) -> bool {
        r == (Local { init: Some(init), ..self })
    }

    fn init(self, init: LocalInit) -> (r: Self) {
        Local { init: Some(init), ..self }
    }
}

/// An initializer without an else branch.
pub fn local_init<A: IntoExpr>(expr: A) -> (r: LocalInit)
    ensures
        *r.expr == expr.expr_of(),
        r.diverge is None,
{
    let expr = expr.into_expr();
    LocalInit {
        expr: Box::new(expr),
        diverge: None,
    }
}

/// The fluent surface of a let initializer.
pub trait LocalInitBuilder: Sized {
    /// Holds iff `r` is the node that the constructor arguments produce.
    spec fn new_ens(expr: Expr, r: Self) -> bool;

    fn new<A: IntoExpr>(expr: A) -> (r: Self)
        ensures
            Self::new_ens(expr.expr_of(), r),
    ;

    /// Holds iff `r` is `self` with the else branch set.
    spec fn diverge_ens(self, expr: Expr, r: Self) -> bool;

    /// Attach a let-else branch.
    fn diverge<A: IntoExpr>(self, expr: A) -> (r: Self)
        ensures
            self.diverge_ens(expr.expr_of(), r),
    ;
}

impl LocalInitBuilder for LocalInit {
    open spec fn new_ens(expr: Expr, r: Self) -> bool {
        *r.expr == expr && r.diverge is None
    }

    fn new<A: IntoExpr>(expr: A) -> (r: Self) {
        local_init(expr)
    }

    open spec fn diverge_ens(self, expr: Expr, r: Self) -> bool {
        r == (LocalInit { diverge: r.diverge, ..self }) && (r.diverge matches Some(b) && *b == expr)
    }

    fn diverge<A: IntoExpr>(self, expr: A) -> (r: Self) {
        let expr = expr.into_expr();
        LocalInit { diverge: Some(Box::new(expr)), ..self }
    }
}

/// A macro in statement position, without a trailing semicolon.
pub fn stmt_macro(mac: Macro) -> (r: StmtMacro)
    ensures
        r.attrs@ == Seq::<Attribute>::empty(),
        r.mac == mac,
        r.semi_token == false,
{
    StmtMacro {
        attrs: Vec::new(),
        mac: mac,
        semi_token: false,
    }
}

/// The fluent surface of a macro statement.
pub trait StmtMacroBuilder: AttrsPropsBuilder {
    /// Holds iff `r` is the node that the constructor arguments produce.
    spec fn new_ens(mac: Macro, r: Self) -> bool;

    fn new(mac: Macro) -> (r: Self)
        ensures
            Self::new_ens(mac, r),
    ;
}

impl StmtMacroBuilder for StmtMacro {
    open spec fn new_ens(mac: Macro, r: Self) -> bool {
        r.attrs@ == Seq::<Attribute>::empty() && r.mac == mac && r.semi_token == false
    }

    fn new(mac: Macro) -> (r: Self) {
        stmt_macro(mac)
    }
}

impl AttrsPropsBuilder for Local {
    open spec fn attr_ens(self, attr: Attribute, r: Self) -> bool {
        r == (Local { attrs: r.attrs, ..self }) && r.attrs@ == self.attrs@.push(attr)
    }

    open spec fn attrs_ens(self, attrs: Vec<Attribute>, r: Self) -> bool {
        r == (Local { attrs, ..self })
    }

    fn attr(self, attr: Attribute) -> (r: Self) {
        let mut node = self;
        node.attrs.push(attr);
        node
    }

    fn attrs(self, attrs: Vec<Attribute>) -> (r: Self) {
        Local { attrs, ..self }
    }
}

impl AttrsPropsBuilder for StmtMacro {
    open spec fn attr_ens(self, attr: Attribute, r: Self) -> bool {
        r == (StmtMacro { attrs: r.attrs, ..self }) && r.attrs@ == self.attrs@.push(attr)
    }

    open spec fn attrs_ens(self, attrs: Vec<Attribute>, r: Self) -> bool {
        r == (StmtMacro { attrs, ..self })
    }

    fn attr(self, attr: Attribute) -> (r: Self) {
        let mut node = self;
        node.attrs.push(attr);
        node
    }

    fn attrs(self, attrs: Vec<Attribute>) -> (r: Self) {
        StmtMacro { attrs, ..self }
    }
}

} // verus!
