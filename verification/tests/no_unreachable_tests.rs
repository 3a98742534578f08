use flowlint::ast::{
    BlockStmt, DeclStmt, Expr, ForStmt, Module, Span, Stmt, SwitchCase, SwitchStmt, WhileStmt,
};
use flowlint::diagnostics::Context;
use flowlint::no_unreachable::NoUnreachable;

/// The span of the `n`-th occurrence (0-based) of `pat` in `src`.
fn span_of(src: &str, pat: &str, n: usize) -> Span {
    let (pos, _) = src.match_indices(pat).nth(n).unwrap();
    Span::new(pos as u32, (pos + pat.len()) as u32)
}

fn block(span: Span, stmts: Vec<Stmt>) -> Stmt {
    Stmt::Block(BlockStmt { span, stmts })
}

fn fn_decl(span: Span, body: Stmt) -> Stmt {
    Stmt::Decl(DeclStmt { span, body: Some(Box::new(body)) })
}

fn var_decl(span: Span) -> Stmt {
    Stmt::Decl(DeclStmt { span, body: None })
}

fn run(module: &Module) -> Context {
    let mut context = Context::new();
    let rule = NoUnreachable::new();
    rule.lint_module(&mut context, module);
    context
}

const MESSAGE: &str = "Unreachable code";

#[test]
fn it_passes_when_there_is_no_unreachable_code_after_a_return() {
    let src = "\nfunction foo() {\n  return;\n}\n      ";
    let module = Module {
        stmts: vec![fn_decl(
            span_of(src, "function foo", 0),
            block(
                span_of(src, "{\n  return;\n}", 0),
                vec![Stmt::Return(span_of(src, "return;", 0))],
            ),
        )],
    };
    let context = run(&module);
    assert_eq!(context.diagnostics().len(), 0);
}

#[test]
fn it_passes_when_there_is_no_unreachable_code_after_a_throw() {
    let src = "\nfunction foo() {\n  throw new Error();\n}\n      ";
    let module = Module {
        stmts: vec![fn_decl(
            span_of(src, "function foo", 0),
            block(
                span_of(src, "{\n  throw new Error();\n}", 0),
                vec![Stmt::Throw(span_of(src, "throw new Error();", 0))],
            ),
        )],
    };
    let context = run(&module);
    assert_eq!(context.diagnostics().len(), 0);
}

#[test]
fn it_passes_when_there_is_no_unreachable_code_after_a_break() {
    let src = "\nwhile(value) {\n  break;\n}\n      ";
    let module = Module {
        stmts: vec![Stmt::While(WhileStmt {
            span: span_of(src, "while(value) {\n  break;\n}", 0),
            test: Expr::Other(span_of(src, "value", 0)),
            body: Box::new(block(
                span_of(src, "{\n  break;\n}", 0),
                vec![Stmt::Break(span_of(src, "break;", 0))],
            )),
        })],
    };
    let context = run(&module);
    assert_eq!(context.diagnostics().len(), 0);
}

#[test]
fn it_passes_when_there_is_no_unreachable_code_after_a_continue() {
    let src = "\nfor (var i = 0; i < 10; i++) {\n  continue;\n}\n      ";
    let module = Module {
        stmts: vec![Stmt::For(ForStmt {
            span: span_of(src, "for", 0),
            init: Some(Expr::Other(span_of(src, "var i = 0", 0))),
            test: Some(Expr::Other(span_of(src, "i < 10", 0))),
            update: Some(Expr::Other(span_of(src, "i++", 0))),
            body: Box::new(block(
                span_of(src, "{\n  continue;\n}", 0),
                vec![Stmt::Continue(span_of(src, "continue;", 0))],
            )),
        })],
    };
    let context = run(&module);
    assert_eq!(context.diagnostics().len(), 0);
}

#[test]
fn it_passes_with_function_hoisting() {
    let src = "\nfunction foo() {\n  return bar();\n  function bar() {\n      return 1;\n  }\n}\n      ";
    let inner = fn_decl(
        span_of(src, "function bar", 0),
        block(
            span_of(src, "{\n      return 1;\n  }", 0),
            vec![Stmt::Return(span_of(src, "return 1;", 0))],
        ),
    );
    let module = Module {
        stmts: vec![fn_decl(
            span_of(src, "function foo", 0),
            block(
                span_of(src, "{\n  return bar();", 0),
                vec![Stmt::Return(span_of(src, "return bar();", 0)), inner],
            ),
        )],
    };
    let context = run(&module);
    assert_eq!(context.diagnostics().len(), 0);
}

#[test]
fn it_passes_with_variable_hoisting() {
    let src = "\nfunction bar() {\n  return x;\n  var x;\n}\n      ";
    let module = Module {
        stmts: vec![fn_decl(
            span_of(src, "function bar", 0),
            block(
                span_of(src, "{\n  return x;\n  var x;\n}", 0),
                vec![
                    Stmt::Return(span_of(src, "return x;", 0)),
                    var_decl(span_of(src, "var x;", 0)),
                ],
            ),
        )],
    };
    let context = run(&module);
    assert_eq!(context.diagnostics().len(), 0);
}

#[test]
fn it_passes_with_variable_hoisting_in_a_switch_stmt() {
    let src = "\nswitch (foo) {\n  case 1:\n    break;\n    var x;\n}\n      ";
    let module = Module {
        stmts: vec![Stmt::Switch(SwitchStmt {
            span: span_of(src, "switch", 0),
            cases: vec![SwitchCase {
                span: span_of(src, "case 1:", 0),
                cons: vec![
                    Stmt::Break(span_of(src, "break;", 0)),
                    var_decl(span_of(src, "var x;", 0)),
                ],
            }],
        })],
    };
    let context = run(&module);
    assert_eq!(context.diagnostics().len(), 0);
}

#[test]
fn it_fails_when_there_is_unreachable_code_after_a_return() {
    let src = "\nfunction foo() {\n  return;\n  console.log();\n}\n      ";
    let call = span_of(src, "console.log();", 0);
    let module = Module {
        stmts: vec![fn_decl(
            span_of(src, "function foo", 0),
            block(
                span_of(src, "{\n  return;\n  console.log();\n}", 0),
                vec![Stmt::Return(span_of(src, "return;", 0)), Stmt::Other(call)],
            ),
        )],
    };
    let context = run(&module);
    let diags = context.diagnostics();
    assert_eq!(diags.len(), 1);
    assert_eq!(diags[0].code, "noUnreachable");
    assert_eq!(diags[0].message, MESSAGE);
    assert_eq!(diags[0].span, call);
}

#[test]
fn it_fails_when_there_is_unreachable_code_after_a_throw() {
    // At the top level of a module, the same scan applies to the module's
    // own statement list.
    let src = "\nthrow new Error();\nconsole.log();\n      ";
    let call = span_of(src, "console.log();", 0);
    let module = Module {
        stmts: vec![
            Stmt::Throw(span_of(src, "throw new Error();", 0)),
            Stmt::Other(call),
        ],
    };
    let context = run(&module);
    let diags = context.diagnostics();
    assert_eq!(diags.len(), 1);
    assert_eq!(diags[0].code, "noUnreachable");
    assert_eq!(diags[0].message, MESSAGE);
    assert_eq!(diags[0].span, call);
}

#[test]
fn it_fails_when_there_is_unreachable_code_after_a_break() {
    let src = "\nwhile(value) {\n  break;\n  console.log();\n}\n      ";
    let call = span_of(src, "console.log();", 0);
    let module = Module {
        stmts: vec![Stmt::While(WhileStmt {
            span: span_of(src, "while", 0),
            test: Expr::Other(span_of(src, "value", 0)),
            body: Box::new(block(
                span_of(src, "{\n  break;\n  console.log();\n}", 0),
                vec![Stmt::Break(span_of(src, "break;", 0)), Stmt::Other(call)],
            )),
        })],
    };
    let context = run(&module);
    let diags = context.diagnostics();
    assert_eq!(diags.len(), 1);
    assert_eq!(diags[0].code, "noUnreachable");
    assert_eq!(diags[0].message, MESSAGE);
    assert_eq!(diags[0].span, call);
}

#[test]
fn it_fails_when_there_is_unreachable_code_after_a_continue() {
    let src = "\nfor (var i = 0; i < 10; i++) {\n  continue;\n  console.log();\n}\n      ";
    let call = span_of(src, "console.log();", 0);
    let module = Module {
        stmts: vec![Stmt::For(ForStmt {
            span: span_of(src, "for", 0),
            init: Some(Expr::Other(span_of(src, "var i = 0", 0))),
            test: Some(Expr::Other(span_of(src, "i < 10", 0))),
            update: Some(Expr::Other(span_of(src, "i++", 0))),
            body: Box::new(block(
                span_of(src, "{\n  continue;\n  console.log();\n}", 0),
                vec![Stmt::Continue(span_of(src, "continue;", 0)), Stmt::Other(call)],
            )),
        })],
    };
    let context = run(&module);
    let diags = context.diagnostics();
    assert_eq!(diags.len(), 1);
    assert_eq!(diags[0].code, "noUnreachable");
    assert_eq!(diags[0].message, MESSAGE);
    assert_eq!(diags[0].span, call);
}

#[test]
fn it_flags_each_statement_after_the_first_terminator() {
    // Everything after the first terminator is reported one by one — a
    // later terminator too — except the hoisted declaration between them.
    let src = "\nfunction foo() {\n  return;\n  a();\n  var x;\n  throw e;\n  b();\n}\n";
    let first = span_of(src, "a();", 0);
    let second = span_of(src, "throw e;", 0);
    let third = span_of(src, "b();", 0);
    let module = Module {
        stmts: vec![fn_decl(
            span_of(src, "function foo", 0),
            block(
                span_of(src, "{\n  return;", 0),
                vec![
                    Stmt::Return(span_of(src, "return;", 0)),
                    Stmt::Other(first),
                    var_decl(span_of(src, "var x;", 0)),
                    Stmt::Throw(second),
                    Stmt::Other(third),
                ],
            ),
        )],
    };
    let context = run(&module);
    let diags = context.diagnostics();
    assert_eq!(diags.len(), 3);
    assert_eq!(diags[0].span, first);
    assert_eq!(diags[1].span, second);
    assert_eq!(diags[2].span, third);
    for d in diags.iter() {
        assert_eq!(d.code, "noUnreachable");
        assert_eq!(d.message, MESSAGE);
    }
}

#[test]
fn it_analyzes_each_nested_block_independently() {
    // The outer scan flags the nested block as unreachable, and the nested
    // block is still visited on its own terms: its own unreachable tail is
    // flagged as well, after the outer finding.
    let src = "\nfunction foo() {\n  return;\n  {\n    return;\n    f();\n  }\n}\n";
    let inner_span = span_of(src, "{\n    return;\n    f();\n  }", 0);
    let call = span_of(src, "f();", 0);
    let inner = block(
        inner_span,
        vec![Stmt::Return(span_of(src, "return;", 1)), Stmt::Other(call)],
    );
    let module = Module {
        stmts: vec![fn_decl(
            span_of(src, "function foo", 0),
            block(
                span_of(src, "{\n  return;", 0),
                vec![Stmt::Return(span_of(src, "return;", 0)), inner],
            ),
        )],
    };
    let context = run(&module);
    let diags = context.diagnostics();
    assert_eq!(diags.len(), 2);
    assert_eq!(diags[0].span, inner_span);
    assert_eq!(diags[1].span, call);
    assert_eq!(diags[0].code, "noUnreachable");
    assert_eq!(diags[1].code, "noUnreachable");
}
