//! The traversal engine.
//!
//! One generic depth-first, pre-order walk over the tree: every node
//! reachable from the root is visited exactly once, in source document
//! order, outer node before inner. The engine itself decides nothing — at
//! each node it dispatches to the one check it is walking for, and a node
//! kind the check takes no interest in is a no-op with the descent going on
//! below it. Findings therefore land in the sink in traversal order.

use vstd::prelude::*;

use crate::ast::{Module, Stmt, SwitchCase};
use crate::diagnostics::{Context, DiagnosticView};
use crate::no_cond_assign;
use crate::no_fallthrough;
use crate::no_unreachable;

verus! {

/// Which check a walk runs.
#[derive(Clone, Copy, Debug)]
pub enum RuleKind {
    CondAssign,
    Fallthrough,
    Unreachable,
}

/// The findings one check contributes at one statement node, the node's own
/// subtree aside.
pub open spec fn stmt_node_diags(kind: RuleKind, s: Stmt) -> Seq<DiagnosticView> {
    match kind {
        RuleKind::CondAssign => no_cond_assign::stmt_node_diags(s),
        RuleKind::Fallthrough => no_fallthrough::stmt_node_diags(s),
        RuleKind::Unreachable => no_unreachable::stmt_node_diags(s),
    }
}

/// The findings one check contributes at the module node itself, before any
/// top-level statement is visited: the unreachable check scans the module's
/// own statement list, the others read nothing there.
pub open spec fn module_node_diags(kind: RuleKind, m: Module) -> Seq<DiagnosticView> {
    match kind {
        RuleKind::Unreachable => no_unreachable::list_diags(m.stmts@),
        _ => Seq::empty(),
    }
}

/// All findings of one check over one statement's subtree, in pre-order:
/// the node's own findings first, then its children's, left to right.
pub open spec fn stmt_diags(kind: RuleKind, s: Stmt) -> Seq<DiagnosticView>
    decreases s, 2int,
{
    stmt_node_diags(kind, s) + stmt_children_diags(kind, s)
}

/// The findings of one check below one statement node: its child statements
/// in source order. Expressions hold no statements, so the test clauses
/// contribute nothing below the node itself.
pub open spec fn stmt_children_diags(kind: RuleKind, s: Stmt) -> Seq<DiagnosticView>
    decreases s, 1int,
{
    match s {
        Stmt::If(n) => stmt_diags(kind, *n.cons) + opt_stmt_diags(kind, n.alt),
        Stmt::While(n) => stmt_diags(kind, *n.body),
        Stmt::DoWhile(n) => stmt_diags(kind, *n.body),
        Stmt::For(n) => stmt_diags(kind, *n.body),
        Stmt::Switch(n) => cases_diags_from(kind, n.cases@, 0),
        Stmt::Block(n) => stmts_diags_from(kind, n.stmts@, 0),
        Stmt::Decl(n) => opt_stmt_diags(kind, n.body),
        _ => Seq::empty(),
    }
}

/// The findings over an optional child statement.
pub open spec fn opt_stmt_diags(kind: RuleKind, o: Option<Box<Stmt>>) -> Seq<DiagnosticView>
    decreases o,
{
    match o {
        Some(b) => stmt_diags(kind, *b),
        None => Seq::empty(),
    }
}

/// The findings over the statements of a list from index `i` on, each
/// statement's whole subtree, in order.
pub open spec fn stmts_diags_from(kind: RuleKind, ss: Seq<Stmt>, i: int) -> Seq<DiagnosticView>
    decreases ss, ss.len() - i,
{
    if i < 0 || i >= ss.len() {
        Seq::empty()
    } else {
        stmt_diags(kind, ss[i]) + stmts_diags_from(kind, ss, i + 1)
    }
}

/// The findings over the case bodies of a `switch` from case `k` on, in
/// order.
pub open spec fn cases_diags_from(kind: RuleKind, cs: Seq<SwitchCase>, k: int) -> Seq<
    DiagnosticView,
>
    decreases cs, cs.len() - k,
{
    if k < 0 || k >= cs.len() {
        Seq::empty()
    } else {
        stmts_diags_from(kind, cs[k].cons@, 0) + cases_diags_from(kind, cs, k + 1)
    }
}

/// All findings of one check over one module, in traversal order: the
/// module node's own, then each top-level statement's subtree.
pub open spec fn module_diags(kind: RuleKind, m: Module) -> Seq<DiagnosticView> {
    module_node_diags(kind, m) + stmts_diags_from(kind, m.stmts@, 0)
}

/// Dispatches one statement node to the check the walk runs for.
fn visit_stmt_node(kind: RuleKind, context: &mut Context, s: &Stmt)
    ensures
        final(context)@ == old(context)@ + stmt_node_diags(kind, *s),
{
    match kind {
        RuleKind::CondAssign => no_cond_assign::check_stmt(context, s),
        RuleKind::Fallthrough => no_fallthrough::check_stmt(context, s),
        RuleKind::Unreachable => no_unreachable::check_stmt(context, s),
    }
}

/// Dispatches the module node itself to the check the walk runs for.
fn visit_module_node(kind: RuleKind, context: &mut Context, m: &Module)
    ensures
        final(context)@ == old(context)@ + module_node_diags(kind, *m),
{
    match kind {
        RuleKind::Unreachable => no_unreachable::check_stmt_list(context, &m.stmts),
        _ => {
            proof {
                assert(context@ =~= old(context)@ + module_node_diags(kind, *m));
            }
        },
    }
}

/// Walks one statement's subtree in pre-order for one check: the node
/// first, then its children left to right.
pub fn walk_stmt(kind: RuleKind, context: &mut Context, s: &Stmt)
    ensures
        final(context)@ == old(context)@ + stmt_diags(kind, *s),
    decreases *s,
{
    visit_stmt_node(kind, context, s);
    let ghost mid = context@;
    match s {
        Stmt::If(n) => {
            walk_stmt(kind, context, &*n.cons);
            match &n.alt {
                Some(a) => walk_stmt(kind, context, &**a),
                None => {},
            }
            proof {
                assert(context@ =~= mid + stmt_children_diags(kind, *s));
            }
        },
        Stmt::While(n) => {
            walk_stmt(kind, context, &*n.body);
        },
        Stmt::DoWhile(n) => {
            walk_stmt(kind, context, &*n.body);
        },
        Stmt::For(n) => {
            walk_stmt(kind, context, &*n.body);
        },
        Stmt::Switch(n) => {
            walk_cases(kind, context, &n.cases);
        },
        Stmt::Block(n) => {
            walk_stmts(kind, context, &n.stmts);
        },
        Stmt::Decl(n) => {
            match &n.body {
                Some(b) => walk_stmt(kind, context, &**b),
                None => {},
            }
            proof {
                assert(context@ =~= mid + stmt_children_diags(kind, *s));
            }
        },
        _ => {},
    }
    proof {
        assert(context@ =~= old(context)@ + stmt_diags(kind, *s));
    }
}

/// Walks each statement of a list in order, whole subtrees included.
fn walk_stmts(kind: RuleKind, context: &mut Context, ss: &Vec<Stmt>)
    ensures
        final(context)@ == old(context)@ + stmts_diags_from(kind, ss@, 0),
    decreases ss@,
{
    let ghost base = context@;
    let mut i: usize = 0;
    while i < ss.len()
        invariant
            i <= ss@.len(),
            context@ + stmts_diags_from(kind, ss@, i as int) == base + stmts_diags_from(
                kind,
                ss@,
                0,
            ),
        decreases ss@.len() - i,
    {
        let ghost before = context@;
        walk_stmt(kind, context, &ss[i]);
        proof {
            let ghost ii = i as int;
            assert(stmts_diags_from(kind, ss@, ii) == stmt_diags(kind, ss@[ii])
                + stmts_diags_from(kind, ss@, ii + 1));
            assert(context@ + stmts_diags_from(kind, ss@, ii + 1) =~= before + stmts_diags_from(
                kind,
                ss@,
                ii,
            ));
        }
        i += 1;
    }
    proof {
        assert(stmts_diags_from(kind, ss@, i as int) == Seq::<DiagnosticView>::empty());
        assert(context@ =~= old(context)@ + stmts_diags_from(kind, ss@, 0));
    }
}

/// Walks each case body of a `switch` in order.
fn walk_cases(kind: RuleKind, context: &mut Context, cs: &Vec<SwitchCase>)
    ensures
        final(context)@ == old(context)@ + cases_diags_from(kind, cs@, 0),
    decreases cs@,
{
    let ghost base = context@;
    let mut k: usize = 0;
    while k < cs.len()
        invariant
            k <= cs@.len(),
            context@ + cases_diags_from(kind, cs@, k as int) == base + cases_diags_from(
                kind,
                cs@,
                0,
            ),
        decreases cs@.len() - k,
    {
        let ghost before = context@;
        walk_stmts(kind, context, &cs[k].cons);
        proof {
            let ghost kk = k as int;
            assert(cases_diags_from(kind, cs@, kk) == stmts_diags_from(kind, cs@[kk].cons@, 0)
                + cases_diags_from(kind, cs@, kk + 1));
            assert(context@ + cases_diags_from(kind, cs@, kk + 1) =~= before + cases_diags_from(
                kind,
                cs@,
                kk,
            ));
        }
        k += 1;
    }
    proof {
        assert(cases_diags_from(kind, cs@, k as int) == Seq::<DiagnosticView>::empty());
        assert(context@ =~= old(context)@ + cases_diags_from(kind, cs@, 0));
    }
}

/// Runs one check over a whole module: the module node first, then every
/// top-level statement's subtree, in source order. Appends exactly
/// [`module_diags`] to the sink, after whatever it already held.
pub fn walk_module(kind: RuleKind, context: &mut Context, m: &Module)
    ensures
        final(context)@ == old(context)@ + module_diags(kind, *m),
{
    visit_module_node(kind, context, m);
    walk_stmts(kind, context, &m.stmts);
    proof {
        assert(context@ =~= old(context)@ + module_diags(kind, *m));
    }
}

} // verus!
