//! The vocabulary of caller-supplied functions: predicates over stream
//! items, extractors from an item to a value, and binary combinators on
//! values.  Each is a small first-class value interpreted by a spec
//! function, so every use in the engine has an exact meaning; partial
//! application of a binary combinator is an explicit value as well.

use vstd::prelude::*;

verus! {

/// One element of the data stream: a tag that predicates can test and a
/// payload value that extractors can read.
#[derive(Clone, Copy, PartialEq, Eq, Structural, Debug)]
pub struct Item {
    pub tag: i64,
    pub val: i64,
}

/// A pure, total predicate over items.
#[derive(Clone, Copy, PartialEq, Eq, Structural, Debug)]
pub enum Pred {
    /// Holds of every item.
    Always,
    /// Holds of items whose tag equals the given one.
    TagEq(i64),
    /// Holds of items whose tag differs from the given one.
    TagNe(i64),
}

/// A pure, total function from an item to a value.
#[derive(Clone, Copy, PartialEq, Eq, Structural, Debug)]
pub enum Ext {
    /// The item's payload value.
    Val,
    /// The given constant, whatever the item.
    Const(i64),
}

/// A pure, total binary combinator on values.  Every operation is total:
/// addition wraps, and a quotient that does not exist (division by zero, or
/// `i64::MIN / -1`) is taken to be zero.
#[derive(Clone, Copy, PartialEq, Eq, Structural, Debug)]
pub enum Op {
    /// Wrapping addition.
    Add,
    /// Truncating division; zero when no quotient exists.
    Div,
    /// The smaller operand.
    Min,
    /// The larger operand.
    Max,
    /// The second operand.
    Snd,
    /// The average, rounded towards zero.
    Avg,
}

/// A binary combinator partially applied to a fixed left operand: the value
/// `lhs` was captured when a subquery finished, and the resulting unary
/// transform maps `x` to `op(lhs, x)`.
#[derive(Clone, Copy, PartialEq, Eq, Structural, Debug)]
pub struct Partial {
    pub op: Op,
    pub lhs: i64,
}

/// What a predicate says of an item.
pub open spec fn pred_value(phi: Pred, d: Item) -> bool {
    match phi {
        Pred::Always => true,
        Pred::TagEq(t) => d.tag == t,
        Pred::TagNe(t) => d.tag != t,
    }
}

/// What an extractor yields on an item.
pub open spec fn ext_value(op: Ext, d: Item) -> i64 {
    match op {
        Ext::Val => d.val,
        Ext::Const(c) => c,
    }
}

/// What a binary combinator yields on two values.
pub open spec fn op_value(op: Op, x: i64, y: i64) -> i64 {
    match op {
        Op::Add => x.wrapping_add(y),
        Op::Div => match x.checked_div(y) {
            Some(q) => q,
            None => 0,
        },
        Op::Min => if x <= y { x } else { y },
        Op::Max => if x >= y { x } else { y },
        Op::Snd => y,
        Op::Avg => match x.wrapping_add(y).checked_div(2) {
            Some(q) => q,
            None => 0,
        },
    }
}

/// What a partially applied combinator yields on its remaining operand.
pub open spec fn partial_value(t: Partial, x: i64) -> i64 {
    op_value(t.op, t.lhs, x)
}

/// Evaluates a predicate on an item.
pub fn eval_pred(phi: Pred, d: &Item) -> (r: bool)
    ensures
        r == pred_value(phi, *d),
{
    match phi {
        Pred::Always => true,
        Pred::TagEq(t) => d.tag == t,
        Pred::TagNe(t) => d.tag != t,
    }
}

/// Evaluates an extractor on an item.
pub fn eval_ext(op: Ext, d: &Item) -> (r: i64)
    ensures
        r == ext_value(op, *d),
{
    match op {
        Ext::Val => d.val,
        Ext::Const(c) => c,
    }
}

/// Evaluates a binary combinator on two values.
pub fn eval_op(op: Op, x: i64, y: i64) -> (r: i64)
    ensures
        r == op_value(op, x, y),
{
    match op {
        Op::Add => x.wrapping_add(y),
        Op::Div => match x.checked_div(y) {
            Some(q) => q,
            None => 0,
        },
        Op::Min => if x <= y { x } else { y },
        Op::Max => if x >= y { x } else { y },
        Op::Snd => y,
        Op::Avg => match x.wrapping_add(y).checked_div(2) {
            Some(q) => q,
            None => 0,
        },
    }
}

/// Evaluates a partially applied combinator on its remaining operand.
pub fn eval_partial(t: Partial, x: i64) -> (r: i64)
    ensures
        r == partial_value(t, x),
{
    eval_op(t.op, t.lhs, x)
}

} // verus!
