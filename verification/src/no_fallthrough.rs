//! The `switch` fallthrough check.
//!
//! For each `switch`, the cases are read pairwise in source order. A case is
//! exempt when its body is empty — the shared-label idiom, `case 1: case 2:`
//! — or when some statement at the top level of its body is a terminator
//! (`return`, `break`, `continue` or `throw`; nested blocks are not searched).
//! A case that is neither, and that has a case after it, produces one
//! `noFallthrough` finding positioned at the *following* case's span: the
//! defect is that this next case is unintentionally reached. The last case
//! is never flagged, having no case to fall into.
//!
//! Suppression by a trailing comment such as `// falls through` needs a
//! comment-attachment facility that only the parser side has; it is an
//! external collaborator's concern and no part of this structural check.

use vstd::prelude::*;

use crate::ast::{spec_is_control_flow_stmt, Module, Span, Stmt, SwitchCase, SwitchStmt};
use crate::diagnostics::{Context, DiagnosticView};
use crate::traversal::{walk_module, RuleKind};

verus! {

/// The finding this check records at the span of the case that is fallen
/// into.
pub open spec fn fallthrough_diag(span: Span) -> DiagnosticView {
    DiagnosticView {
        span,
        code: "noFallthrough"@,
        message: "Expected break statement before case"@,
    }
}

/// Whether some statement of the list, at its top level, is a terminator.
pub open spec fn stmts_contain_terminator(ss: Seq<Stmt>) -> bool {
    exists|i: int| 0 <= i < ss.len() && spec_is_control_flow_stmt(ss[i])
}

/// Whether execution can fall out of the bottom of a case: its body is
/// non-empty and holds no top-level terminator.
pub open spec fn case_falls_through(c: SwitchCase) -> bool {
    c.cons@.len() > 0 && !stmts_contain_terminator(c.cons@)
}

/// The findings of the pairwise scan from case `k` on: for each case at or
/// after `k` that falls through and has a following case, one finding at
/// that following case's span, in case order.
pub open spec fn switch_diags_from(cases: Seq<SwitchCase>, k: int) -> Seq<DiagnosticView>
    decreases cases.len() - k,
{
    if k < 0 || k >= cases.len() {
        Seq::empty()
    } else {
        (if k + 1 < cases.len() && case_falls_through(cases[k]) {
            seq![fallthrough_diag(cases[k + 1].span)]
        } else {
            Seq::empty()
        }) + switch_diags_from(cases, k + 1)
    }
}

/// This check's findings for one `switch`'s case list.
pub open spec fn switch_diags(cases: Seq<SwitchCase>) -> Seq<DiagnosticView> {
    switch_diags_from(cases, 0)
}

/// This check's findings at one statement node.
pub open spec fn stmt_node_diags(s: Stmt) -> Seq<DiagnosticView> {
    match s {
        Stmt::Switch(sw) => switch_diags(sw.cases@),
        _ => Seq::empty(),
    }
}

proof fn lemma_from_contains(cases: Seq<SwitchCase>, j: int, k: int)
    requires
        0 <= j <= k,
        k + 1 < cases.len(),
        case_falls_through(cases[k]),
    ensures
        switch_diags_from(cases, j).contains(fallthrough_diag(cases[k + 1].span)),
    decreases k - j,
{
    if j == k {
        assert(switch_diags_from(cases, j)[0] == fallthrough_diag(cases[k + 1].span));
    } else {
        lemma_from_contains(cases, j + 1, k);
        let d = fallthrough_diag(cases[k + 1].span);
        let tail = switch_diags_from(cases, j + 1);
        let i = choose|i: int| 0 <= i < tail.len() && tail[i] == d;
        assert(switch_diags_from(cases, j)[switch_diags_from(cases, j).len() - tail.len() + i]
            == d);
    }
}

proof fn lemma_from_only_pairs(cases: Seq<SwitchCase>, j: int, d: DiagnosticView)
    requires
        0 <= j,
        switch_diags_from(cases, j).contains(d),
    ensures
        exists|k: int|
            j <= k && k + 1 < cases.len() && case_falls_through(cases[k]) && d
                == fallthrough_diag(cases[k + 1].span),
    decreases cases.len() - j,
{
    let here = if j + 1 < cases.len() && case_falls_through(cases[j]) {
        seq![fallthrough_diag(cases[j + 1].span)]
    } else {
        Seq::<DiagnosticView>::empty()
    };
    let tail = switch_diags_from(cases, j + 1);
    let i = choose|i: int| 0 <= i < switch_diags_from(cases, j).len() && switch_diags_from(cases, j)[i] == d;
    if i < here.len() {
        assert(j + 1 < cases.len() && case_falls_through(cases[j]) && d == fallthrough_diag(
            cases[j + 1].span,
        ));
    } else {
        assert(tail[i - here.len()] == d);
        assert(tail.contains(d));
        lemma_from_only_pairs(cases, j + 1, d);
    }
}

/// In a `switch`, each pair of consecutive cases (k, k+1) is judged on case
/// k alone: a finding at case k+1's span is produced when case k has a
/// non-empty body without a top-level terminator, and every finding the
/// scan produces points, in this way, at the case after one that falls
/// through.
pub proof fn lemma_fallthrough_pairwise(cases: Seq<SwitchCase>, k: int)
    requires
        0 <= k,
        k + 1 < cases.len(),
    ensures
        (cases[k].cons@.len() > 0 && !stmts_contain_terminator(cases[k].cons@))
            ==> switch_diags(cases).contains(fallthrough_diag(cases[k + 1].span)),
        case_falls_through(cases[k]) ==> switch_diags_from(cases, k) == seq![
            fallthrough_diag(cases[k + 1].span),
        ] + switch_diags_from(cases, k + 1),
        !case_falls_through(cases[k]) ==> switch_diags_from(cases, k) == switch_diags_from(
            cases,
            k + 1,
        ),
        forall|d: DiagnosticView| #[trigger]
            switch_diags(cases).contains(d) ==> exists|j: int|
                0 <= j && j + 1 < cases.len() && case_falls_through(cases[j]) && d
                    == fallthrough_diag(cases[j + 1].span),
{
    if case_falls_through(cases[k]) {
        lemma_from_contains(cases, 0, k);
    }
    assert forall|d: DiagnosticView| #[trigger] switch_diags(cases).contains(d) implies exists|
        j: int,
    |
        0 <= j && j + 1 < cases.len() && case_falls_through(cases[j]) && d == fallthrough_diag(
            cases[j + 1].span,
        ) by {
        lemma_from_only_pairs(cases, 0, d);
    }
}

/// A case with an empty body is never the cause of a finding, wherever it
/// stands, and neither is the last case: a `switch` whose every case is
/// empty-bodied or terminated yields nothing, and one with at most one case
/// yields nothing at all.
pub proof fn lemma_exempt_cases(cases: Seq<SwitchCase>)
    ensures
        (forall|k: int| 0 <= k < cases.len() ==> !case_falls_through(cases[k]))
            ==> switch_diags(cases) == Seq::<DiagnosticView>::empty(),
        cases.len() <= 1 ==> switch_diags(cases) == Seq::<DiagnosticView>::empty(),
{
    if forall|k: int| 0 <= k < cases.len() ==> !case_falls_through(cases[k]) {
        lemma_no_falling_case_no_findings(cases, 0);
    }
    if cases.len() <= 1 {
        assert(switch_diags_from(cases, 1) == Seq::<DiagnosticView>::empty());
        assert(switch_diags(cases) =~= Seq::<DiagnosticView>::empty());
    }
}

proof fn lemma_no_falling_case_no_findings(cases: Seq<SwitchCase>, j: int)
    requires
        0 <= j,
        forall|k: int| 0 <= k < cases.len() ==> !case_falls_through(cases[k]),
    ensures
        switch_diags_from(cases, j) == Seq::<DiagnosticView>::empty(),
    decreases cases.len() - j,
{
    if j < cases.len() {
        lemma_no_falling_case_no_findings(cases, j + 1);
        assert(switch_diags_from(cases, j) =~= Seq::<DiagnosticView>::empty());
    }
}

/// The `switch` fallthrough rule.
pub struct NoFallthrough;

impl NoFallthrough {
    /// A fresh instance of the rule.
    pub fn new() -> (r: Box<NoFallthrough>) {
        Box::new(NoFallthrough)
    }

    /// Runs the rule over one module, appending its findings to `context`
    /// in traversal order.
    pub fn lint_module(&self, context: &mut Context, module: &Module)
        ensures
            final(context)@ == old(context)@ + crate::traversal::module_diags(
                RuleKind::Fallthrough,
                *module,
            ),
    {
        walk_module(RuleKind::Fallthrough, context, module);
    }
}

/// The walking half of the rule: holds the sink and scans each `switch` the
/// walk hands it.
pub struct NoFallthroughVisitor {
    pub context: Context,
}

impl NoFallthroughVisitor {
    /// A visitor that will append its findings to `context`.
    pub fn new(context: Context) -> (v: NoFallthroughVisitor)
        ensures
            v.context == context,
    {
        NoFallthroughVisitor { context }
    }

    /// The pairwise scan over one `switch`, the cases' subtrees aside.
    pub fn visit_switch_stmt(&mut self, switch: &SwitchStmt)
        ensures
            final(self).context@ == old(self).context@ + switch_diags(switch.cases@),
    {
        check_switch_stmt(&mut self.context, switch);
    }

    /// Walks a whole module and records every finding of this check, in
    /// traversal order.
    pub fn visit_module(&mut self, module: &Module)
        ensures
            final(self).context@ == old(self).context@ + crate::traversal::module_diags(
                RuleKind::Fallthrough,
                *module,
            ),
    {
        walk_module(RuleKind::Fallthrough, &mut self.context, module);
    }
}

/// Whether some statement of the list, at its top level, is a terminator.
fn has_terminator(stmts: &Vec<Stmt>) -> (r: bool)
    ensures
        r == stmts_contain_terminator(stmts@),
{
    let mut i: usize = 0;
    while i < stmts.len()
        invariant
            i <= stmts@.len(),
            forall|j: int| 0 <= j < i ==> !spec_is_control_flow_stmt(stmts@[j]),
        decreases stmts@.len() - i,
    {
        if crate::ast::is_control_flow_stmt(&stmts[i]) {
            return true;
        }
        i += 1;
    }
    false
}

/// The pairwise scan over one `switch`'s cases, recording the findings
/// [`switch_diags`] asks for, in case order.
pub fn check_switch_stmt(context: &mut Context, switch: &SwitchStmt)
    ensures
        final(context)@ == old(context)@ + switch_diags(switch.cases@),
{
    let cases = &switch.cases;
    let ghost base = context@;
    let mut k: usize = 0;
    while k < cases.len()
        invariant
            k <= cases@.len(),
            context@ + switch_diags_from(cases@, k as int) == base + switch_diags(cases@),
        decreases cases@.len() - k,
    {
        let ghost before = context@;
        let case = &cases[k];
        if case.cons.len() > 0 && !has_terminator(&case.cons) {
            if k + 1 < cases.len() {
                context.add_diagnostic(
                    cases[k + 1].span,
                    "noFallthrough",
                    "Expected break statement before case",
                );
            }
        }
        proof {
            let ghost kk = k as int;
            assert(switch_diags_from(cases@, kk) == (if kk + 1 < cases@.len()
                && case_falls_through(cases@[kk]) {
                seq![fallthrough_diag(cases@[kk + 1].span)]
            } else {
                Seq::<DiagnosticView>::empty()
            }) + switch_diags_from(cases@, kk + 1));
            assert(context@ + switch_diags_from(cases@, kk + 1) =~= before + switch_diags_from(
                cases@,
                kk,
            ));
        }
        k += 1;
    }
    proof {
        assert(switch_diags_from(cases@, k as int) == Seq::<DiagnosticView>::empty());
        assert(context@ =~= old(context)@ + switch_diags(switch.cases@));
    }
}

/// This check at one statement node: scans a `switch`'s cases and touches
/// nothing else.
pub fn check_stmt(context: &mut Context, stmt: &Stmt)
    ensures
        final(context)@ == old(context)@ + stmt_node_diags(*stmt),
{
    match stmt {
        Stmt::Switch(sw) => check_switch_stmt(context, sw),
        _ => {
            proof {
                assert(context@ =~= old(context)@ + stmt_node_diags(*stmt));
            }
        },
    }
}

} // verus!
