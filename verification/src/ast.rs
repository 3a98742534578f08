//! The statement tree that the lints walk.
//!
//! An external parser builds this tree once per source unit; the analysis
//! only reads it. Each node carries the source [`Span`] it came from, and the
//! tree holds exactly the structure the checks look at: conditional tests,
//! `switch` cases, block statement lists, and the statement kinds that end
//! control flow. Everything else appears as the open-ended `Other` variants.

use vstd::prelude::*;

verus! {

/// A half-open source range, in byte offsets: `lo` is the first byte of the
/// node, `hi` the byte one past its end.
#[derive(Clone, Copy, Debug, PartialEq, Eq, Structural)]
pub struct Span {
    pub lo: u32,
    pub hi: u32,
}

impl Span {
    pub fn new(lo: u32, hi: u32) -> (s: Span)
        ensures
            s == (Span { lo, hi }),
    {
        Span { lo, hi }
    }
}

/// An expression, reduced to what the conditional-assignment check reads:
/// a direct assignment, a parenthesized expression, or anything else.
#[derive(Debug)]
pub enum Expr {
    /// An assignment expression; the span covers the whole assignment.
    Assign(Span),
    /// One explicit layer of parentheses around an inner expression.
    Paren(ParenExpr),
    /// Any other expression.
    Other(Span),
}

/// An explicit parenthesization layer.
#[derive(Debug)]
pub struct ParenExpr {
    pub span: Span,
    pub expr: Box<Expr>,
}

/// A statement node.
#[derive(Debug)]
pub enum Stmt {
    If(IfStmt),
    While(WhileStmt),
    DoWhile(DoWhileStmt),
    For(ForStmt),
    Switch(SwitchStmt),
    Block(BlockStmt),
    /// A `return` statement.
    Return(Span),
    /// A `break` statement.
    Break(Span),
    /// A `continue` statement.
    Continue(Span),
    /// A `throw` statement.
    Throw(Span),
    /// A function or variable declaration; a function declaration carries
    /// its body (a block statement) so the walk can descend into it.
    Decl(DeclStmt),
    /// Any other statement.
    Other(Span),
}

#[derive(Debug)]
pub struct IfStmt {
    pub span: Span,
    pub test: Expr,
    pub cons: Box<Stmt>,
    pub alt: Option<Box<Stmt>>,
}

#[derive(Debug)]
pub struct WhileStmt {
    pub span: Span,
    pub test: Expr,
    pub body: Box<Stmt>,
}

#[derive(Debug)]
pub struct DoWhileStmt {
    pub span: Span,
    pub test: Expr,
    pub body: Box<Stmt>,
}

#[derive(Debug)]
pub struct ForStmt {
    pub span: Span,
    pub init: Option<Expr>,
    pub test: Option<Expr>,
    pub update: Option<Expr>,
    pub body: Box<Stmt>,
}

#[derive(Debug)]
pub struct SwitchStmt {
    pub span: Span,
    pub cases: Vec<SwitchCase>,
}

/// One `case` (or `default`) clause of a `switch`, with its consequent
/// statement list. A shared label (`case 1: case 2: ...`) appears as a case
/// whose `cons` list is empty.
#[derive(Debug)]
pub struct SwitchCase {
    pub span: Span,
    pub cons: Vec<Stmt>,
}

#[derive(Debug)]
pub struct BlockStmt {
    pub span: Span,
    pub stmts: Vec<Stmt>,
}

#[derive(Debug)]
pub struct DeclStmt {
    pub span: Span,
    pub body: Option<Box<Stmt>>,
}

/// A whole source unit: its top-level statement list.
#[derive(Debug)]
pub struct Module {
    pub stmts: Vec<Stmt>,
}

/// The span a statement is reported at.
pub open spec fn stmt_span(s: Stmt) -> Span {
    match s {
        Stmt::If(n) => n.span,
        Stmt::While(n) => n.span,
        Stmt::DoWhile(n) => n.span,
        Stmt::For(n) => n.span,
        Stmt::Switch(n) => n.span,
        Stmt::Block(n) => n.span,
        Stmt::Return(sp) => sp,
        Stmt::Break(sp) => sp,
        Stmt::Continue(sp) => sp,
        Stmt::Throw(sp) => sp,
        Stmt::Decl(n) => n.span,
        Stmt::Other(sp) => sp,
    }
}

/// Whether a statement unconditionally leaves the enclosing block, loop or
/// `switch`: `return`, `break`, `continue` or `throw`.
pub open spec fn spec_is_control_flow_stmt(s: Stmt) -> bool {
    match s {
        Stmt::Return(_) | Stmt::Break(_) | Stmt::Continue(_) | Stmt::Throw(_) => true,
        _ => false,
    }
}

impl Stmt {
    /// The span a statement is reported at.
    pub fn span(&self) -> (sp: Span)
        ensures
            sp == stmt_span(*self),
    {
        match self {
            Stmt::If(n) => n.span,
            Stmt::While(n) => n.span,
            Stmt::DoWhile(n) => n.span,
            Stmt::For(n) => n.span,
            Stmt::Switch(n) => n.span,
            Stmt::Block(n) => n.span,
            Stmt::Return(sp) => *sp,
            Stmt::Break(sp) => *sp,
            Stmt::Continue(sp) => *sp,
            Stmt::Throw(sp) => *sp,
            Stmt::Decl(n) => n.span,
            Stmt::Other(sp) => *sp,
        }
    }
}

/// Whether a statement unconditionally leaves the enclosing block, loop or
/// `switch`: `return`, `break`, `continue` or `throw`.
pub fn is_control_flow_stmt(s: &Stmt) -> (r: bool)
    ensures
        r == spec_is_control_flow_stmt(*s),
{
    match s {
        Stmt::Return(_) | Stmt::Break(_) | Stmt::Continue(_) | Stmt::Throw(_) => true,
        _ => false,
    }
}

} // verus!
