//! Bounds that keep the engine's expressions and traversals finite.

use vstd::prelude::*;

verus! {

/// The largest size an expression may have. A value whose size would exceed this
/// is replaced by a typed variable that keeps only the interval of the expression.
pub const MAX_EXPRESSION_SIZE: u64 = 1048576;

/// The depth at which refinement with a path condition gives up and returns its input.
pub const MAX_REFINE_DEPTH: usize = 16;

/// An expression larger than this is widened to a variable instead of a widen node.
pub const MAX_WIDEN_SIZE: u64 = 1000;

/// The number of operators that may apply one another, one inside the other, from
/// one operation of the engine.
///
/// A rule of one operator may apply another operator to a value that is larger
/// than the operands it was given, so no measure of the operands bounds the
/// rewriting. This bound does, and it is what shows that every operation ends. An
/// operator that is applied with nothing left of it still applies each rule that
/// applies no operator, and builds its expression as it stands where none fits.
pub const MAX_REWRITE_DEPTH: usize = 256;

} // verus!
