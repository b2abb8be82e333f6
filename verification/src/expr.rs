//! The expression algebra: a query is a tree of combinators over stream
//! items and values.  The executable tree `Qre` owns its children through
//! boxes and vectors; its mathematical model `QreModel` mirrors it with
//! sequences, and every contract in the engine speaks of models.

use vstd::prelude::*;
use crate::ops::{Item, Pred, Ext, Op, Partial, pred_value, ext_value, op_value, partial_value,
    eval_pred, eval_ext, eval_partial};

verus! {

/// A query over a stream: each variant is one combinator of the algebra.
#[allow(inconsistent_fields)]
pub enum Qre {
    /// The always-failing query.
    Bot,
    /// Accepts immediately, consuming nothing, with the fixed value `c`.
    Eps { c: i64 },
    /// Accepts exactly one item satisfying `phi`, yielding `op` of it.
    Sat { phi: Pred, op: Ext },
    /// Nondeterministic union of the alternatives.
    Choice { v: Vec<Qre> },
    /// Sequential composition: `f` then `g`, values joined by `op`.
    Split { f: Box<Qre>, g: Box<Qre>, op: Op },
    /// Zero or more rounds of `body`, folded onto `init`'s value by `op`.
    Iter { init: Box<Qre>, body: Box<Qre>, op: Op },
    /// Post-processes `f`'s value with the transform `op`.
    App { f: Box<Qre>, op: Partial },
    /// Parallel composition: `f` and `g` consume the same items, values
    /// joined by `op`.
    Combine { f: Box<Qre>, g: Box<Qre>, op: Op },
}

/// The mathematical model of a query tree, with sequences for the
/// alternatives of a choice.
#[verifier::ext_equal]
#[allow(inconsistent_fields)]
pub enum QreModel {
    Bot,
    Eps { c: i64 },
    Sat { phi: Pred, op: Ext },
    Choice { v: Seq<QreModel> },
    Split { f: Box<QreModel>, g: Box<QreModel>, op: Op },
    Iter { init: Box<QreModel>, body: Box<QreModel>, op: Op },
    App { f: Box<QreModel>, op: Partial },
    Combine { f: Box<QreModel>, g: Box<QreModel>, op: Op },
}

/// The model of a query tree.
pub open spec fn qre_view(q: Qre) -> QreModel
    decreases q,
{
    match q {
        Qre::Bot => QreModel::Bot,
        Qre::Eps { c } => QreModel::Eps { c },
        Qre::Sat { phi, op } => QreModel::Sat { phi, op },
        Qre::Choice { v } => QreModel::Choice { v: view_list(v@) },
        Qre::Split { f, g, op } => QreModel::Split {
            f: Box::new(qre_view(*f)),
            g: Box::new(qre_view(*g)),
            op,
        },
        Qre::Iter { init, body, op } => QreModel::Iter {
            init: Box::new(qre_view(*init)),
            body: Box::new(qre_view(*body)),
            op,
        },
        Qre::App { f, op } => QreModel::App { f: Box::new(qre_view(*f)), op },
        Qre::Combine { f, g, op } => QreModel::Combine {
            f: Box::new(qre_view(*f)),
            g: Box::new(qre_view(*g)),
            op,
        },
    }
}

/// The models of a sequence of query trees, in order.
pub open spec fn view_list(qs: Seq<Qre>) -> Seq<QreModel>
    decreases qs,
{
    if qs.len() == 0 {
        Seq::empty()
    } else {
        view_list(qs.drop_last()).push(qre_view(qs.last()))
    }
}

impl View for Qre {
    type V = QreModel;

    open spec fn view(&self) -> QreModel {
        qre_view(*self)
    }
}

/// The acceptance values of a query: the values it yields if the stream
/// ends at the current position.  Duplicates are preserved and the order is
/// an implementation detail with no semantic weight.
pub open spec fn eps_spec(q: QreModel) -> Seq<i64>
    decreases q,
{
    match q {
        QreModel::Bot => Seq::empty(),
        QreModel::Eps { c } => seq![c],
        QreModel::Sat { phi, op } => Seq::empty(),
        QreModel::Choice { v } => eps_list(v),
        QreModel::Split { f, g, op } => pair_vals(op, eps_spec(*f), eps_spec(*g)),
        QreModel::Iter { init, body, op } => eps_spec(*init),
        QreModel::App { f, op } => map_vals(op, eps_spec(*f)),
        QreModel::Combine { f, g, op } => pair_vals(op, eps_spec(*f), eps_spec(*g)),
    }
}

/// The concatenated acceptance values of a sequence of queries, in order.
pub open spec fn eps_list(qs: Seq<QreModel>) -> Seq<i64>
    decreases qs,
{
    if qs.len() == 0 {
        Seq::empty()
    } else {
        eps_list(qs.drop_last()) + eps_spec(qs.last())
    }
}

/// The full pairwise product of two value sequences under a combinator:
/// every `op(x, y)` with `x` from `xs` and `y` from `ys`, ordered by `x`
/// first.
pub open spec fn pair_vals(op: Op, xs: Seq<i64>, ys: Seq<i64>) -> Seq<i64>
    decreases xs.len(),
{
    if xs.len() == 0 {
        Seq::empty()
    } else {
        pair_vals(op, xs.drop_last(), ys) + row_vals(op, xs.last(), ys)
    }
}

/// One row of the pairwise product: `op(x, y)` for every `y` of `ys`.
pub open spec fn row_vals(op: Op, x: i64, ys: Seq<i64>) -> Seq<i64>
    decreases ys.len(),
{
    if ys.len() == 0 {
        Seq::empty()
    } else {
        row_vals(op, x, ys.drop_last()).push(op_value(op, x, ys.last()))
    }
}

/// A transform applied to every value of a sequence, in order.
pub open spec fn map_vals(t: Partial, xs: Seq<i64>) -> Seq<i64>
    decreases xs.len(),
{
    if xs.len() == 0 {
        Seq::empty()
    } else {
        map_vals(t, xs.drop_last()).push(partial_value(t, xs.last()))
    }
}

/// The derivative of a query by one item: the residual queries that remain
/// once the item has been consumed, one per nondeterministic branch.
pub open spec fn deriv_spec(q: QreModel, d: Item) -> Seq<QreModel>
    decreases q,
{
    match q {
        QreModel::Bot => seq![QreModel::Bot],
        QreModel::Eps { c } => seq![QreModel::Bot],
        QreModel::Sat { phi, op } => if pred_value(phi, d) {
            seq![QreModel::Eps { c: ext_value(op, d) }]
        } else {
            seq![QreModel::Bot]
        },
        QreModel::Choice { v } => deriv_list(v, d),
        QreModel::Split { f, g, op } => app_heads(eps_spec(*f), deriv_spec(*g, d), op).push(
            QreModel::Split {
                f: Box::new(QreModel::Choice { v: deriv_spec(*f, d) }),
                g,
                op,
            },
        ),
        QreModel::Iter { init, body, op } => iter_heads(
            eps_spec(*init),
            deriv_spec(*body, d),
            *body,
            op,
        ).push(
            QreModel::Iter {
                init: Box::new(QreModel::Choice { v: deriv_spec(*init, d) }),
                body,
                op,
            },
        ),
        QreModel::App { f, op } => seq![
            QreModel::App { f: Box::new(QreModel::Choice { v: deriv_spec(*f, d) }), op },
        ],
        QreModel::Combine { f, g, op } => seq![
            QreModel::Combine {
                f: Box::new(QreModel::Choice { v: deriv_spec(*f, d) }),
                g: Box::new(QreModel::Choice { v: deriv_spec(*g, d) }),
                op,
            },
        ],
    }
}

/// The concatenated derivatives of a sequence of queries by one item.
pub open spec fn deriv_list(qs: Seq<QreModel>, d: Item) -> Seq<QreModel>
    decreases qs,
{
    if qs.len() == 0 {
        Seq::empty()
    } else {
        deriv_list(qs.drop_last(), d) + deriv_spec(qs.last(), d)
    }
}

/// The residuals a split spawns for each acceptance value of its finished
/// left part: the right part's derivative, post-processed by the combinator
/// partially applied to that value.
pub open spec fn app_heads(vals: Seq<i64>, dg: Seq<QreModel>, op: Op) -> Seq<QreModel>
    decreases vals.len(),
{
    if vals.len() == 0 {
        Seq::empty()
    } else {
        app_heads(vals.drop_last(), dg, op).push(
            QreModel::App {
                f: Box::new(QreModel::Choice { v: dg }),
                op: Partial { op, lhs: vals.last() },
            },
        )
    }
}

/// The residuals a loop spawns for each acceptance value of its initial
/// part: one more round of the body begins, eventually folded onto the
/// accumulated value.
pub open spec fn iter_heads(vals: Seq<i64>, db: Seq<QreModel>, body: QreModel, op: Op) -> Seq<
    QreModel,
>
    decreases vals.len(),
{
    if vals.len() == 0 {
        Seq::empty()
    } else {
        iter_heads(vals.drop_last(), db, body, op).push(
            QreModel::Iter {
                init: Box::new(
                    QreModel::App {
                        f: Box::new(QreModel::Choice { v: db }),
                        op: Partial { op, lhs: vals.last() },
                    },
                ),
                body: Box::new(body),
                op,
            },
        )
    }
}

} // verus!
