//! The conditional-assignment check.
//!
//! For every `if`, `while` and `do`-`while`, and for the test clause of a
//! `for` loop when it has one, this check inspects the test expression. A
//! test that is a bare assignment is flagged at the assignment's span. An
//! assignment wrapped in one or more explicit parenthesis layers is read as
//! an intentional idiom and exempt, however deep the nesting. Only the
//! top-level test expression is inspected: an assignment buried inside a
//! larger expression (say `a && (b = c)`) is out of this check's scope.

use vstd::prelude::*;

use crate::ast::{Expr, ForStmt, Module, Span, Stmt};
use crate::diagnostics::{Context, DiagnosticView};
use crate::traversal::{walk_module, RuleKind};

verus! {

/// The finding this check records for an assignment at `span`.
pub open spec fn cond_assign_diag(span: Span) -> DiagnosticView {
    DiagnosticView {
        span,
        code: "noCondAssign"@,
        message: "Expected a conditional expression and instead saw an assignment"@,
    }
}

/// The expression left after peeling every explicit parenthesis layer.
pub open spec fn innermost_expr(e: Expr) -> Expr
    decreases e,
{
    match e {
        Expr::Paren(p) => innermost_expr(*p.expr),
        _ => e,
    }
}

/// The findings for one test expression: one finding for a bare assignment,
/// none for anything else — in particular none for a parenthesized
/// expression, whatever stands inside it.
pub open spec fn test_diags(e: Expr) -> Seq<DiagnosticView> {
    match e {
        Expr::Assign(sp) => seq![cond_assign_diag(sp)],
        _ => Seq::empty(),
    }
}

/// The test clause a statement offers to this check: the test of an `if`,
/// `while` or `do`-`while`, the optional test of a `for`, nothing else. The
/// init and update clauses of a `for` are never offered.
pub open spec fn cond_test(s: Stmt) -> Option<Expr> {
    match s {
        Stmt::If(n) => Some(n.test),
        Stmt::While(n) => Some(n.test),
        Stmt::DoWhile(n) => Some(n.test),
        Stmt::For(n) => n.test,
        _ => None,
    }
}

/// This check's findings at one statement node.
pub open spec fn stmt_node_diags(s: Stmt) -> Seq<DiagnosticView> {
    match cond_test(s) {
        Some(e) => test_diags(e),
        None => Seq::empty(),
    }
}

/// A conditional whose test is a bare assignment — wrapped in no parenthesis
/// at all — yields exactly one `noCondAssign` finding, at the assignment's
/// own span.
pub proof fn lemma_bare_assignment_flagged(s: Stmt, sp: Span)
    requires
        s is If || s is While || s is DoWhile,
        cond_test(s) == Some(Expr::Assign(sp)),
    ensures
        stmt_node_diags(s) == seq![cond_assign_diag(sp)],
{
}

/// Wrapping that same assignment in one or more parenthesis layers
/// suppresses the finding entirely: a parenthesized test yields nothing,
/// even though the innermost expression under the parentheses is an
/// assignment.
pub proof fn lemma_wrapped_assignment_exempt(s: Stmt, e: Expr)
    requires
        cond_test(s) == Some(e),
        e is Paren,
        innermost_expr(e) is Assign,
    ensures
        stmt_node_diags(s) == Seq::<DiagnosticView>::empty(),
{
}

/// For a `for` loop the check reads the test clause alone: two loops with
/// the same test clause yield the same findings whatever their init and
/// update clauses, and a bare-assignment test is flagged exactly as it
/// would be in an `if`.
pub proof fn lemma_for_reads_only_test_clause(a: ForStmt, b: ForStmt)
    requires
        a.test == b.test,
    ensures
        stmt_node_diags(Stmt::For(a)) == stmt_node_diags(Stmt::For(b)),
        forall|sp: Span|
            a.test == Some(Expr::Assign(sp)) ==> stmt_node_diags(Stmt::For(a))
                == seq![cond_assign_diag(sp)],
{
}

/// The conditional-assignment rule.
pub struct NoCondAssign;

impl NoCondAssign {
    /// A fresh instance of the rule.
    pub fn new() -> (r: Box<NoCondAssign>) {
        Box::new(NoCondAssign)
    }

    /// Runs the rule over one module, appending its findings to `context`
    /// in traversal order.
    pub fn lint_module(&self, context: &mut Context, module: &Module)
        ensures
            final(context)@ == old(context)@ + crate::traversal::module_diags(
                RuleKind::CondAssign,
                *module,
            ),
    {
        walk_module(RuleKind::CondAssign, context, module);
    }
}

/// The walking half of the rule: holds the sink and inspects each node the
/// walk hands it.
pub struct NoCondAssignVisitor {
    pub context: Context,
}

impl NoCondAssignVisitor {
    /// A visitor that will append its findings to `context`.
    pub fn new(context: Context) -> (v: NoCondAssignVisitor)
        ensures
            v.context == context,
    {
        NoCondAssignVisitor { context }
    }

    /// This check at one statement node, the node's subtree aside.
    pub fn visit_stmt(&mut self, stmt: &Stmt)
        ensures
            final(self).context@ == old(self).context@ + stmt_node_diags(*stmt),
    {
        check_stmt(&mut self.context, stmt);
    }

    /// Walks a whole module and records every finding of this check, in
    /// traversal order.
    pub fn visit_module(&mut self, module: &Module)
        ensures
            final(self).context@ == old(self).context@ + crate::traversal::module_diags(
                RuleKind::CondAssign,
                *module,
            ),
    {
        walk_module(RuleKind::CondAssign, &mut self.context, module);
    }
}

/// Records this check's finding at `span`.
fn add_diagnostic(context: &mut Context, span: Span)
    ensures
        final(context)@ == old(context)@.push(cond_assign_diag(span)),
{
    context.add_diagnostic(
        span,
        "noCondAssign",
        "Expected a conditional expression and instead saw an assignment",
    );
}

/// Inspects one test expression and records the findings [`test_diags`]
/// asks for: a bare assignment is flagged, a parenthesized one is the
/// intentional idiom and left alone, whatever stands under the parentheses.
fn check_test_expr(context: &mut Context, expr: &Expr)
    ensures
        final(context)@ == old(context)@ + test_diags(*expr),
{
    match expr {
        Expr::Assign(sp) => {
            add_diagnostic(context, *sp);
            proof {
                assert(context@ =~= old(context)@ + test_diags(*expr));
            }
        },
        _ => {
            proof {
                assert(context@ =~= old(context)@ + test_diags(*expr));
            }
        },
    }
}

/// This check at one statement node: inspects the node's test clause when it
/// has one and nothing else; the walk around it handles the descent.
pub fn check_stmt(context: &mut Context, stmt: &Stmt)
    ensures
        final(context)@ == old(context)@ + stmt_node_diags(*stmt),
{
    match stmt {
        Stmt::If(n) => check_test_expr(context, &n.test),
        Stmt::While(n) => check_test_expr(context, &n.test),
        Stmt::DoWhile(n) => check_test_expr(context, &n.test),
        Stmt::For(n) => {
            match &n.test {
                Some(t) => check_test_expr(context, t),
                None => {
                    proof {
                        assert(context@ =~= old(context)@ + stmt_node_diags(*stmt));
                    }
                },
            }
        },
        _ => {
            proof {
                assert(context@ =~= old(context)@ + stmt_node_diags(*stmt));
            }
        },
    }
}

} // verus!
