//! The heap blocks that a value mentions.

use vstd::prelude::*;
use std::rc::Rc;
use crate::abstract_value::AbstractValue;
use crate::expression::Expression;
use crate::path::{Path, PathEnum, PathSelector};
use crate::shared::share;

verus! {

/// True if a block that is equal to `block` is among the recorded blocks.
pub open spec fn is_recorded(recorded: Seq<Rc<AbstractValue>>, block: AbstractValue) -> bool {
    exists|i: int| 0 <= i < recorded.len() && (#[trigger] recorded[i]).same_as(block)
}

/// The recorded blocks with `block` added at the end, unless an equal block is
/// among them already.
pub open spec fn with_block(recorded: Seq<Rc<AbstractValue>>, block: Rc<AbstractValue>) -> Seq<
    Rc<AbstractValue>,
> {
    if is_recorded(recorded, *block) {
        recorded
    } else {
        recorded.push(block)
    }
}

/// The recorded blocks with the heap blocks that `value` mentions added, each once
/// and in the order in which the expression of `value` mentions them first:
/// operands from left to right, and what a path holds where a path is mentioned.
pub open spec fn with_blocks_of(value: Rc<AbstractValue>, recorded: Seq<Rc<AbstractValue>>) -> Seq<
    Rc<AbstractValue>,
>
    decreases value,
{
    match value.expression {
        Expression::HeapBlock { .. } => with_block(recorded, value),
        Expression::Add { left, right, .. }
        | Expression::And { left, right, .. }
        | Expression::BitAnd { left, right, .. }
        | Expression::BitOr { left, right, .. }
        | Expression::BitXor { left, right, .. }
        | Expression::Div { left, right, .. }
        | Expression::Equals { left, right, .. }
        | Expression::GreaterOrEqual { left, right, .. }
        | Expression::GreaterThan { left, right, .. }
        | Expression::LessOrEqual { left, right, .. }
        | Expression::LessThan { left, right, .. }
        | Expression::Mul { left, right, .. }
        | Expression::Ne { left, right, .. }
        | Expression::Offset { left, right, .. }
        | Expression::Or { left, right, .. }
        | Expression::Rem { left, right, .. }
        | Expression::Shl { left, right, .. }
        | Expression::Sub { left, right, .. }
        | Expression::AddOverflows { left, right, .. }
        | Expression::MulOverflows { left, right, .. }
        | Expression::ShlOverflows { left, right, .. }
        | Expression::Shr { left, right, .. }
        | Expression::ShrOverflows { left, right, .. }
        | Expression::SubOverflows { left, right, .. }
        | Expression::IntrinsicBinary { left, right, .. } => with_blocks_of(right, with_blocks_of(left, recorded)),
        Expression::BitNot { operand, .. }
        | Expression::Cast { operand, .. }
        | Expression::IntrinsicBitVectorUnary { operand, .. }
        | Expression::IntrinsicFloatingPointUnary { operand, .. }
        | Expression::LogicalNot { operand, .. }
        | Expression::Neg { operand, .. } => with_blocks_of(operand, recorded),
        Expression::ConditionalExpression { condition, consequent, alternate } => with_blocks_of(
            alternate,
            with_blocks_of(consequent, with_blocks_of(condition, recorded)),
        ),
        Expression::HeapBlockLayout { length, alignment, .. } => with_blocks_of(
            alignment,
            with_blocks_of(length, recorded),
        ),
        Expression::Join { left, right, .. } => with_blocks_of(
            right,
            with_blocks_of(left, recorded),
        ),
        Expression::Reference(path) | Expression::Variable { path, .. } => with_blocks_of_path(
            path,
            recorded,
        ),
        Expression::UninterpretedCall { callee, path, .. } => with_blocks_of_path(
            path,
            with_blocks_of(callee, recorded),
        ),
        Expression::UnknownModelField { path, default } => with_blocks_of(
            default,
            with_blocks_of_path(path, recorded),
        ),
        Expression::Widen { operand, .. } => with_blocks_of(operand, recorded),
        _ => recorded,
    }
}

/// The recorded blocks with the heap blocks that `path` mentions added.
pub open spec fn with_blocks_of_path(path: Rc<Path>, recorded: Seq<Rc<AbstractValue>>) -> Seq<
    Rc<AbstractValue>,
>
    decreases path,
{
    match path.value {
        PathEnum::Alias { value } | PathEnum::HeapBlock { value } | PathEnum::Offset { value } => {
            with_blocks_of(value, recorded)
        },
        PathEnum::QualifiedPath { qualifier, selector, .. } => with_blocks_of_selector(
            selector,
            with_blocks_of_path(qualifier, recorded),
        ),
        _ => recorded,
    }
}

/// The recorded blocks with the heap blocks that `selector` mentions added.
pub open spec fn with_blocks_of_selector(
    selector: Rc<PathSelector>,
    recorded: Seq<Rc<AbstractValue>>,
) -> Seq<Rc<AbstractValue>>
    decreases selector,
{
    match *selector {
        PathSelector::Index(value) | PathSelector::Slice(value) => with_blocks_of(value, recorded),
        _ => recorded,
    }
}

/// True if every recorded block is a heap block and no two of them are equal.
pub open spec fn distinct_blocks(recorded: Seq<Rc<AbstractValue>>) -> bool {
    &&& forall|i: int| 0 <= i < recorded.len() ==> (#[trigger] recorded[i]).expression is HeapBlock
    &&& forall|i: int, j: int|
        0 <= i < j < recorded.len() ==> !(#[trigger] recorded[i]).same_as(*#[trigger] recorded[j])
}

fn record_block(block: &Rc<AbstractValue>, result: &mut Vec<Rc<AbstractValue>>)
    ensures
        final(result)@ == with_block(old(result)@, *block),
{
    let mut i: usize = 0;
    while i < result.len()
        invariant
            i <= result@.len(),
            result@ == old(result)@,
            forall|k: int| 0 <= k < i ==> !(#[trigger] result@[k]).same_as(**block),
        decreases result@.len() - i,
    {
        if AbstractValue::eq(&result[i], block) {
            return ;
        }
        i += 1;
    }
    result.push(share(block));
}

/// Adds any abstract heap addresses found in the associated expression to the
/// given collection, unless an equal address is in the collection already.
pub fn record_heap_blocks(a: &Rc<AbstractValue>, result: &mut Vec<Rc<AbstractValue>>)
    ensures
        final(result)@ == with_blocks_of(*a, old(result)@),
    decreases a,
{
    match &a.expression {
        Expression::HeapBlock { .. } => record_block(a, result),
        Expression::Add { left, right, .. }
        | Expression::And { left, right, .. }
        | Expression::BitAnd { left, right, .. }
        | Expression::BitOr { left, right, .. }
        | Expression::BitXor { left, right, .. }
        | Expression::Div { left, right, .. }
        | Expression::Equals { left, right, .. }
        | Expression::GreaterOrEqual { left, right, .. }
        | Expression::GreaterThan { left, right, .. }
        | Expression::LessOrEqual { left, right, .. }
        | Expression::LessThan { left, right, .. }
        | Expression::Mul { left, right, .. }
        | Expression::Ne { left, right, .. }
        | Expression::Offset { left, right, .. }
        | Expression::Or { left, right, .. }
        | Expression::Rem { left, right, .. }
        | Expression::Shl { left, right, .. }
        | Expression::Sub { left, right, .. }
        | Expression::AddOverflows { left, right, .. }
        | Expression::MulOverflows { left, right, .. }
        | Expression::ShlOverflows { left, right, .. }
        | Expression::Shr { left, right, .. }
        | Expression::ShrOverflows { left, right, .. }
        | Expression::SubOverflows { left, right, .. }
        | Expression::IntrinsicBinary { left, right, .. } => {
            record_heap_blocks(left, result);
            record_heap_blocks(right, result);
        },
        Expression::BitNot { operand, .. }
        | Expression::Cast { operand, .. }
        | Expression::IntrinsicBitVectorUnary { operand, .. }
        | Expression::IntrinsicFloatingPointUnary { operand, .. }
        | Expression::LogicalNot { operand, .. }
        | Expression::Neg { operand, .. } => record_heap_blocks(operand, result),
        Expression::ConditionalExpression { condition, consequent, alternate } => {
            record_heap_blocks(condition, result);
            record_heap_blocks(consequent, result);
            record_heap_blocks(alternate, result);
        },
        Expression::HeapBlockLayout { length, alignment, .. } => {
            record_heap_blocks(length, result);
            record_heap_blocks(alignment, result);
        },
        Expression::Join { left, right, .. } => {
            record_heap_blocks(left, result);
            record_heap_blocks(right, result);
        },
        Expression::Reference(path) | Expression::Variable { path, .. } => {
            record_heap_blocks_of_path(path, result);
        },
        Expression::UninterpretedCall { callee, path, .. } => {
            record_heap_blocks(callee, result);
            record_heap_blocks_of_path(path, result);
        },
        Expression::UnknownModelField { path, default } => {
            record_heap_blocks_of_path(path, result);
            record_heap_blocks(default, result);
        },
        Expression::Widen { operand, .. } => record_heap_blocks(operand, result),
        _ => (),
    }
}

/// Adds the abstract heap addresses found in a path to the given collection.
pub fn record_heap_blocks_of_path(path: &Rc<Path>, result: &mut Vec<Rc<AbstractValue>>)
    ensures
        final(result)@ == with_blocks_of_path(*path, old(result)@),
    decreases path,
{
    match &path.value {
        PathEnum::Alias { value } | PathEnum::HeapBlock { value } | PathEnum::Offset { value } => {
            record_heap_blocks(value, result);
        },
        PathEnum::QualifiedPath { qualifier, selector, .. } => {
            record_heap_blocks_of_path(qualifier, result);
            record_heap_blocks_of_selector(selector, result);
        },
        _ => (),
    }
}

/// Adds the abstract heap addresses found in a selector to the given collection.
pub fn record_heap_blocks_of_selector(
    selector: &Rc<PathSelector>,
    result: &mut Vec<Rc<AbstractValue>>,
)
    ensures
        final(result)@ == with_blocks_of_selector(*selector, old(result)@),
    decreases selector,
{
    match &**selector {
        PathSelector::Index(value) | PathSelector::Slice(value) => {
            record_heap_blocks(value, result);
        },
        _ => (),
    }
}

/// Recording keeps the collection a set: where every recorded block is a heap block
/// and no two are equal, this holds after a block was added as well.
pub proof fn lemma_with_block_distinct(recorded: Seq<Rc<AbstractValue>>, block: Rc<AbstractValue>)
    requires
        distinct_blocks(recorded),
        block.expression is HeapBlock,
    ensures
        distinct_blocks(with_block(recorded, block)),
{
    let extended = with_block(recorded, block);
    if extended.len() != recorded.len() {
        assert forall|i: int, j: int| 0 <= i < j < extended.len() implies !(
        #[trigger] extended[i]).same_as(*#[trigger] extended[j]) by {
            if j == recorded.len() {
                assert(extended[i] == recorded[i]);
                assert(!recorded[i].same_as(*extended[j]));
            } else {
                assert(extended[i] == recorded[i] && extended[j] == recorded[j]);
            }
        }
    }
}

/// Recording keeps the collection a set: where every recorded block is a heap block
/// and no two are equal, this holds after the heap blocks of a value were added.
pub proof fn lemma_with_blocks_distinct(value: Rc<AbstractValue>, recorded: Seq<Rc<AbstractValue>>)
    requires
        distinct_blocks(recorded),
    ensures
        distinct_blocks(with_blocks_of(value, recorded)),
    decreases value,
{
    match value.expression {
        Expression::HeapBlock { .. } => lemma_with_block_distinct(recorded, value),
        Expression::Add { left, right, .. }
        | Expression::And { left, right, .. }
        | Expression::BitAnd { left, right, .. }
        | Expression::BitOr { left, right, .. }
        | Expression::BitXor { left, right, .. }
        | Expression::Div { left, right, .. }
        | Expression::Equals { left, right, .. }
        | Expression::GreaterOrEqual { left, right, .. }
        | Expression::GreaterThan { left, right, .. }
        | Expression::LessOrEqual { left, right, .. }
        | Expression::LessThan { left, right, .. }
        | Expression::Mul { left, right, .. }
        | Expression::Ne { left, right, .. }
        | Expression::Offset { left, right, .. }
        | Expression::Or { left, right, .. }
        | Expression::Rem { left, right, .. }
        | Expression::Shl { left, right, .. }
        | Expression::Sub { left, right, .. }
        | Expression::AddOverflows { left, right, .. }
        | Expression::MulOverflows { left, right, .. }
        | Expression::ShlOverflows { left, right, .. }
        | Expression::Shr { left, right, .. }
        | Expression::ShrOverflows { left, right, .. }
        | Expression::SubOverflows { left, right, .. }
        | Expression::IntrinsicBinary { left, right, .. } => {
            lemma_with_blocks_distinct(left, recorded);
            lemma_with_blocks_distinct(right, with_blocks_of(left, recorded));
        },
        Expression::BitNot { operand, .. }
        | Expression::Cast { operand, .. }
        | Expression::IntrinsicBitVectorUnary { operand, .. }
        | Expression::IntrinsicFloatingPointUnary { operand, .. }
        | Expression::LogicalNot { operand, .. }
        | Expression::Neg { operand, .. } => lemma_with_blocks_distinct(operand, recorded),
        Expression::ConditionalExpression { condition, consequent, alternate } => {
            lemma_with_blocks_distinct(condition, recorded);
            let first = with_blocks_of(condition, recorded);
            lemma_with_blocks_distinct(consequent, first);
            lemma_with_blocks_distinct(alternate, with_blocks_of(consequent, first));
        },
        Expression::HeapBlockLayout { length, alignment, .. } => {
            lemma_with_blocks_distinct(length, recorded);
            lemma_with_blocks_distinct(alignment, with_blocks_of(length, recorded));
        },
        Expression::Join { left, right, .. } => {
            lemma_with_blocks_distinct(left, recorded);
            lemma_with_blocks_distinct(right, with_blocks_of(left, recorded));
        },
        Expression::Reference(path) | Expression::Variable { path, .. } => {
            lemma_with_blocks_of_path_distinct(path, recorded);
        },
        Expression::UninterpretedCall { callee, path, .. } => {
            lemma_with_blocks_distinct(callee, recorded);
            lemma_with_blocks_of_path_distinct(path, with_blocks_of(callee, recorded));
        },
        Expression::UnknownModelField { path, default } => {
            lemma_with_blocks_of_path_distinct(path, recorded);
            lemma_with_blocks_distinct(default, with_blocks_of_path(path, recorded));
        },
        Expression::Widen { operand, .. } => lemma_with_blocks_distinct(operand, recorded),
        _ => {},
    }
}

/// Recording the heap blocks of a path keeps the collection a set.
pub proof fn lemma_with_blocks_of_path_distinct(path: Rc<Path>, recorded: Seq<Rc<AbstractValue>>)
    requires
        distinct_blocks(recorded),
    ensures
        distinct_blocks(with_blocks_of_path(path, recorded)),
    decreases path,
{
    match path.value {
        PathEnum::Alias { value } | PathEnum::HeapBlock { value } | PathEnum::Offset { value } => {
            lemma_with_blocks_distinct(value, recorded);
        },
        PathEnum::QualifiedPath { qualifier, selector, .. } => {
            lemma_with_blocks_of_path_distinct(qualifier, recorded);
            lemma_with_blocks_of_selector_distinct(
                selector,
                with_blocks_of_path(qualifier, recorded),
            );
        },
        _ => {},
    }
}

/// Recording the heap blocks of a selector keeps the collection a set.
pub proof fn lemma_with_blocks_of_selector_distinct(
    selector: Rc<PathSelector>,
    recorded: Seq<Rc<AbstractValue>>,
)
    requires
        distinct_blocks(recorded),
    ensures
        distinct_blocks(with_blocks_of_selector(selector, recorded)),
    decreases selector,
{
    match *selector {
        PathSelector::Index(value) | PathSelector::Slice(value) => {
            lemma_with_blocks_distinct(value, recorded);
        },
        _ => {},
    }
}

} // verus!
