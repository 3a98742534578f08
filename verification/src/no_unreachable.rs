//! The unreachable-code check.
//!
//! For every block's direct statement list, and separately for a module's
//! top-level statement list, the list is scanned in order for the first
//! terminator (`return`, `break`, `continue`, `throw`). Every statement
//! after it is a candidate for "unreachable" and is reported individually —
//! except declarations, which hoisting makes reachable at another point of
//! execution. Only the first terminator matters: statements between it and
//! a later terminator are all flagged under the first one. Each nested
//! block is analyzed independently by its own visit; reachability does not
//! propagate between blocks.

use vstd::prelude::*;

use crate::ast::{spec_is_control_flow_stmt, stmt_span, BlockStmt, Module, Span, Stmt};
use crate::diagnostics::{Context, DiagnosticView};
use crate::traversal::{walk_module, RuleKind};

verus! {

/// The finding this check records at an unreachable statement's span.
pub open spec fn unreachable_diag(span: Span) -> DiagnosticView {
    DiagnosticView { span, code: "noUnreachable"@, message: "Unreachable code"@ }
}

/// The index of the first terminator at or after `i`, or the list's length
/// when there is none.
pub open spec fn first_terminator_from(ss: Seq<Stmt>, i: int) -> int
    decreases ss.len() - i,
{
    if i < 0 || i >= ss.len() {
        ss.len() as int
    } else if spec_is_control_flow_stmt(ss[i]) {
        i
    } else {
        first_terminator_from(ss, i + 1)
    }
}

/// What one unreachable candidate contributes: nothing for a declaration —
/// hoisting makes it reachable — and one finding at its span for anything
/// else.
pub open spec fn stmt_flag(s: Stmt) -> Seq<DiagnosticView> {
    if s is Decl {
        Seq::empty()
    } else {
        seq![unreachable_diag(stmt_span(s))]
    }
}

/// The findings for the candidates from index `i` to the end of the list,
/// in list order.
pub open spec fn flags_from(ss: Seq<Stmt>, i: int) -> Seq<DiagnosticView>
    decreases ss.len() - i,
{
    if i < 0 || i >= ss.len() {
        Seq::empty()
    } else {
        stmt_flag(ss[i]) + flags_from(ss, i + 1)
    }
}

/// This check's findings for one statement list: one finding per
/// non-declaration statement after the first terminator, none when the list
/// has no terminator.
pub open spec fn list_diags(ss: Seq<Stmt>) -> Seq<DiagnosticView> {
    flags_from(ss, first_terminator_from(ss, 0) + 1)
}

/// This check's findings at one statement node: it reads the direct
/// statement list of a block and nothing else.
pub open spec fn stmt_node_diags(s: Stmt) -> Seq<DiagnosticView> {
    match s {
        Stmt::Block(b) => list_diags(b.stmts@),
        _ => Seq::empty(),
    }
}

proof fn lemma_first_terminator_is(ss: Seq<Stmt>, h: int, i: int)
    requires
        0 <= h <= i <= ss.len(),
        i < ss.len() ==> spec_is_control_flow_stmt(ss[i]),
        i == ss.len() ==> forall|g: int| h <= g < ss.len() ==> !spec_is_control_flow_stmt(ss[g]),
        forall|g: int| h <= g < i ==> !spec_is_control_flow_stmt(ss[g]),
    ensures
        first_terminator_from(ss, h) == i,
    decreases i - h,
{
    if h < i {
        lemma_first_terminator_is(ss, h + 1, i);
    }
}

/// In a list whose first terminator stands at index `i`, the findings are
/// exactly, in list order, one `noUnreachable` per non-declaration
/// statement after `i`, at that statement's own span, and none for the
/// declarations among them.
pub proof fn lemma_unreachable_after_first_terminator(ss: Seq<Stmt>, i: int)
    requires
        0 <= i < ss.len(),
        spec_is_control_flow_stmt(ss[i]),
        forall|h: int| 0 <= h < i ==> !spec_is_control_flow_stmt(ss[h]),
    ensures
        list_diags(ss) == flags_from(ss, i + 1),
        forall|j: int|
            i < j < ss.len() ==> flags_from(ss, j) == stmt_flag(ss[j]) + flags_from(ss, j + 1),
        forall|j: int|
            i < j < ss.len() && !(ss[j] is Decl) ==> stmt_flag(ss[j]) == seq![
                unreachable_diag(stmt_span(ss[j])),
            ],
        forall|j: int|
            i < j < ss.len() && ss[j] is Decl ==> stmt_flag(ss[j])
                == Seq::<DiagnosticView>::empty(),
{
    lemma_first_terminator_is(ss, 0, i);
}

/// A list with no terminator yields no `noUnreachable` finding at all.
pub proof fn lemma_no_terminator_no_findings(ss: Seq<Stmt>)
    requires
        forall|h: int| 0 <= h < ss.len() ==> !spec_is_control_flow_stmt(ss[h]),
    ensures
        list_diags(ss) == Seq::<DiagnosticView>::empty(),
{
    lemma_first_terminator_is(ss, 0, ss.len() as int);
}

/// The unreachable-code rule.
pub struct NoUnreachable;

impl NoUnreachable {
    /// A fresh instance of the rule.
    pub fn new() -> (r: Box<NoUnreachable>) {
        Box::new(NoUnreachable)
    }

    /// Runs the rule over one module, appending its findings to `context`
    /// in traversal order. The module's own top-level statement list is
    /// scanned first, then every block the walk reaches.
    pub fn lint_module(&self, context: &mut Context, module: &Module)
        ensures
            final(context)@ == old(context)@ + crate::traversal::module_diags(
                RuleKind::Unreachable,
                *module,
            ),
    {
        walk_module(RuleKind::Unreachable, context, module);
    }
}

/// The walking half of the rule: holds the sink and scans each block the
/// walk hands it.
pub struct NoUnreachableVisitor {
    pub context: Context,
}

impl NoUnreachableVisitor {
    /// A visitor that will append its findings to `context`.
    pub fn new(context: Context) -> (v: NoUnreachableVisitor)
        ensures
            v.context == context,
    {
        NoUnreachableVisitor { context }
    }

    /// The scan over one block's direct statement list, nested blocks
    /// aside.
    pub fn visit_block_stmt(&mut self, block: &BlockStmt)
        ensures
            final(self).context@ == old(self).context@ + list_diags(block.stmts@),
    {
        check_block_stmt(&mut self.context, block);
    }

    /// Walks a whole module and records every finding of this check, in
    /// traversal order: the top-level list's findings first, then each
    /// block's, as the walk reaches it.
    pub fn visit_module(&mut self, module: &Module)
        ensures
            final(self).context@ == old(self).context@ + crate::traversal::module_diags(
                RuleKind::Unreachable,
                *module,
            ),
    {
        walk_module(RuleKind::Unreachable, &mut self.context, module);
    }
}

/// The indices of the statements that stand after the first terminator of
/// the list: the candidates for "unreachable". Empty when the list has no
/// terminator.
pub fn get_unreachable_code(stmts: &Vec<Stmt>) -> (idxs: Vec<usize>)
    ensures
        ({
            let f = first_terminator_from(stmts@, 0);
            &&& idxs@.len() == if f < stmts@.len() {
                stmts@.len() - f - 1
            } else {
                0
            }
            &&& forall|j: int| 0 <= j < idxs@.len() ==> idxs@[j] as int == f + 1 + j
        }),
{
    let n = stmts.len();
    let mut i: usize = 0;
    while i < n
        invariant
            n == stmts@.len(),
            i <= n,
            forall|h: int| 0 <= h < i ==> !spec_is_control_flow_stmt(stmts@[h]),
        decreases n - i,
    {
        if crate::ast::is_control_flow_stmt(&stmts[i]) {
            proof {
                lemma_first_terminator_is(stmts@, 0, i as int);
            }
            let mut idxs: Vec<usize> = Vec::new();
            let mut j: usize = i + 1;
            while j < n
                invariant
                    n == stmts@.len(),
                    i < j <= n,
                    idxs@.len() == j - i - 1,
                    forall|m: int| 0 <= m < idxs@.len() ==> idxs@[m] as int == i + 1 + m,
                decreases n - j,
            {
                idxs.push(j);
                j += 1;
            }
            return idxs;
        }
        i += 1;
    }
    proof {
        lemma_first_terminator_is(stmts@, 0, stmts@.len() as int);
    }
    Vec::new()
}

/// Records this check's finding at `span`.
fn add_diagnostic(context: &mut Context, span: Span)
    ensures
        final(context)@ == old(context)@.push(unreachable_diag(span)),
{
    context.add_diagnostic(span, "noUnreachable", "Unreachable code");
}

/// Scans one statement list and records the findings [`list_diags`] asks
/// for: every non-declaration statement after the first terminator, in
/// order, at its own span.
pub fn check_stmt_list(context: &mut Context, stmts: &Vec<Stmt>)
    ensures
        final(context)@ == old(context)@ + list_diags(stmts@),
{
    let idxs = get_unreachable_code(stmts);
    let ghost f = first_terminator_from(stmts@, 0);
    let ghost base = context@;
    let mut m: usize = 0;
    while m < idxs.len()
        invariant
            idxs@.len() == if f < stmts@.len() {
                stmts@.len() - f - 1
            } else {
                0
            },
            forall|j: int| 0 <= j < idxs@.len() ==> idxs@[j] as int == f + 1 + j,
            m <= idxs@.len(),
            context@ + flags_from(stmts@, f + 1 + m) == base + list_diags(stmts@),
        decreases idxs@.len() - m,
    {
        let ghost before = context@;
        let idx = idxs[m];
        let stmt = &stmts[idx];
        match stmt {
            Stmt::Decl(_) => {
                // Declarations are exempt: function and variable hoisting
                // makes them reachable despite their lexical position.
            },
            _ => {
                let sp = stmt.span();
                add_diagnostic(context, sp);
            },
        }
        proof {
            let ghost pos = f + 1 + m;
            assert(flags_from(stmts@, pos) == stmt_flag(stmts@[pos]) + flags_from(
                stmts@,
                pos + 1,
            ));
            assert(context@ + flags_from(stmts@, pos + 1) =~= before + flags_from(stmts@, pos));
        }
        m += 1;
    }
    proof {
        assert(flags_from(stmts@, f + 1 + m) == Seq::<DiagnosticView>::empty());
        assert(context@ =~= old(context)@ + list_diags(stmts@));
    }
}

/// The scan over one block's direct statement list.
pub fn check_block_stmt(context: &mut Context, block: &BlockStmt)
    ensures
        final(context)@ == old(context)@ + list_diags(block.stmts@),
{
    check_stmt_list(context, &block.stmts);
}

/// This check at one statement node: scans a block's direct list and
/// touches nothing else; nested blocks are visited on their own by the
/// walk.
pub fn check_stmt(context: &mut Context, stmt: &Stmt)
    ensures
        final(context)@ == old(context)@ + stmt_node_diags(*stmt),
{
    match stmt {
        Stmt::Block(b) => check_block_stmt(context, b),
        _ => {
            proof {
                assert(context@ =~= old(context)@ + stmt_node_diags(*stmt));
            }
        },
    }
}

} // verus!
