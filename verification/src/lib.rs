//! Control-flow lints over an already-parsed syntax tree.
//!
//! The crate walks a statement tree in pre-order and reports three kinds of
//! defect as diagnostics: an assignment used as a conditional test
//! (`noCondAssign`), a `switch` case that falls through into the next one
//! (`noFallthrough`), and statements that stand after an unconditional exit
//! from their block (`noUnreachable`). An external parser builds the tree;
//! an external reporting layer turns the collected diagnostics into output.

pub mod ast;
pub mod diagnostics;
pub mod no_cond_assign;
pub mod no_fallthrough;
pub mod no_unreachable;
pub mod traversal;
