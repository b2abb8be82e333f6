//! General properties of the engine, each proved once and for all: what a
//! lone satisfaction query answers after one item, why two agreeing
//! branches still make the answer undefined, what a loop yields before any
//! round, that value queries are repeatable, and that a branch-free query
//! keeps the working set small forever.

use vstd::prelude::*;
use crate::ops::{Item, Pred, Ext, Op, pred_value, ext_value};
use crate::expr::{QreModel, eps_spec, eps_list, deriv_spec, deriv_list};
use crate::solve::{QreError, output_post};

verus! {

/// After one item, a lone satisfaction query has accepted exactly when its
/// predicate holds of that item: the working set's acceptance values are
/// then the extractor's value alone, and are empty otherwise — so a value
/// query answers the extracted value in the first case and is undefined in
/// the second.
pub proof fn lemma_sat_acceptance(phi: Pred, op: Ext, d: Item)
    ensures
        pred_value(phi, d) ==> eps_list(deriv_list(seq![QreModel::Sat { phi, op }], d)) == seq![
            ext_value(op, d),
        ],
        !pred_value(phi, d) ==> eps_list(deriv_list(seq![QreModel::Sat { phi, op }], d)).len()
            == 0,
{
    reveal_with_fuel(deriv_list, 3);
    reveal_with_fuel(eps_list, 3);
    let s = seq![QreModel::Sat { phi, op }];
    assert(s.drop_last() =~= Seq::<QreModel>::empty());
    assert(deriv_list(s, d) =~= deriv_spec(QreModel::Sat { phi, op }, d));
    if pred_value(phi, d) {
        let w = seq![QreModel::Eps { c: ext_value(op, d) }];
        assert(w.drop_last() =~= Seq::<QreModel>::empty());
        assert(eps_list(w) =~= seq![ext_value(op, d)]);
        assert(deriv_list(s, d) =~= w);
    } else {
        let w = seq![QreModel::Bot];
        assert(w.drop_last() =~= Seq::<QreModel>::empty());
        assert(eps_list(w) =~= Seq::<i64>::empty());
        assert(deriv_list(s, d) =~= w);
    }
}

/// Ambiguity counts branches, not values: when both alternatives of a
/// choice of two satisfaction queries match the same item, both survive,
/// and the working set's acceptance values after that item hold both
/// extracted values — two of them, so a value query is undefined, even
/// when the two values happen to be equal.
pub proof fn lemma_choice_ambiguity(phi1: Pred, op1: Ext, phi2: Pred, op2: Ext, d: Item)
    requires
        pred_value(phi1, d),
        pred_value(phi2, d),
    ensures
        eps_list(
            deriv_list(
                seq![
                    QreModel::Choice {
                        v: seq![
                            QreModel::Sat { phi: phi1, op: op1 },
                            QreModel::Sat { phi: phi2, op: op2 },
                        ],
                    },
                ],
                d,
            ),
        ) == seq![ext_value(op1, d), ext_value(op2, d)],
{
    reveal_with_fuel(deriv_list, 4);
    reveal_with_fuel(eps_list, 4);
    let s1 = QreModel::Sat { phi: phi1, op: op1 };
    let s2 = QreModel::Sat { phi: phi2, op: op2 };
    let v = seq![s1, s2];
    let c = QreModel::Choice { v };
    let s = seq![c];
    assert(s.drop_last() =~= Seq::<QreModel>::empty());
    assert(deriv_list(s, d) =~= deriv_spec(c, d));
    assert(v.drop_last() =~= seq![s1]);
    assert(seq![s1].drop_last() =~= Seq::<QreModel>::empty());
    assert(v.last() == s2);
    assert(deriv_list(seq![s1], d) =~= deriv_spec(s1, d));
    assert(deriv_spec(s1, d) =~= seq![QreModel::Eps { c: ext_value(op1, d) }]);
    assert(deriv_spec(s2, d) =~= seq![QreModel::Eps { c: ext_value(op2, d) }]);
    let w = seq![
        QreModel::Eps { c: ext_value(op1, d) },
        QreModel::Eps { c: ext_value(op2, d) },
    ];
    assert(deriv_list(v, d) =~= w);
    assert(w.drop_last() =~= seq![QreModel::Eps { c: ext_value(op1, d) }]);
    assert(seq![QreModel::Eps { c: ext_value(op1, d) }].drop_last() =~= Seq::<QreModel>::empty());
    assert(eps_list(seq![QreModel::Eps { c: ext_value(op1, d) }]) =~= seq![ext_value(op1, d)]);
    assert(eps_list(w) =~= seq![ext_value(op1, d), ext_value(op2, d)]);
}

/// A loop may stop before any round of its body runs: before any item is
/// consumed, a loop whose initial part accepts immediately with a fixed
/// value has exactly that value as its one acceptance value, whatever the
/// body and the combinator.
pub proof fn lemma_iter_zero_rounds(c: i64, body: QreModel, op: Op)
    ensures
        eps_spec(
            QreModel::Iter { init: Box::new(QreModel::Eps { c }), body: Box::new(body), op },
        ) == seq![c],
{
    assert(eps_spec(QreModel::Eps { c }) == seq![c]);
}

/// Value queries are repeatable: the answer is a function of the working
/// set alone, so two answers given for the same working set — as by two
/// value queries with no advance between them — are equal.
pub proof fn lemma_value_idempotent(
    ws: Seq<QreModel>,
    r1: Result<i64, QreError>,
    r2: Result<i64, QreError>,
)
    requires
        output_post(ws, r1),
        output_post(ws, r2),
    ensures
        r1 == r2,
{
}

/// A query built without choices, splits or loops: only the combinators
/// that never branch.
pub open spec fn chain_like(q: QreModel) -> bool
    decreases q,
{
    match q {
        QreModel::Bot => true,
        QreModel::Eps { c } => true,
        QreModel::Sat { phi, op } => true,
        QreModel::Choice { v } => false,
        QreModel::Split { f, g, op } => false,
        QreModel::Iter { init, body, op } => false,
        QreModel::App { f, op } => chain_like(*f),
        QreModel::Combine { f, g, op } => chain_like(*f) && chain_like(*g),
    }
}

/// The residual form a branch-free query keeps: every choice it holds
/// wraps exactly one residual of the same form, so its derivative is
/// always a single query again.
pub open spec fn single_branch(q: QreModel) -> bool
    decreases q,
{
    match q {
        QreModel::Bot => true,
        QreModel::Eps { c } => true,
        QreModel::Sat { phi, op } => true,
        QreModel::Choice { v } => v.len() == 1 && single_branch(v[0]),
        QreModel::Split { f, g, op } => false,
        QreModel::Iter { init, body, op } => false,
        QreModel::App { f, op } => single_branch(*f),
        QreModel::Combine { f, g, op } => single_branch(*f) && single_branch(*g),
    }
}

/// The working set after a whole stream: each item in turn replaces the
/// set by its derivative, exactly as the solver does.
pub open spec fn run(s: Seq<QreModel>, ds: Seq<Item>) -> Seq<QreModel>
    decreases ds.len(),
{
    if ds.len() == 0 {
        s
    } else {
        run(deriv_list(s, ds.first()), ds.drop_first())
    }
}

proof fn lemma_chain_like_single_branch(q: QreModel)
    requires
        chain_like(q),
    ensures
        single_branch(q),
    decreases q,
{
    match q {
        QreModel::App { f, op } => {
            lemma_chain_like_single_branch(*f);
        },
        QreModel::Combine { f, g, op } => {
            lemma_chain_like_single_branch(*f);
            lemma_chain_like_single_branch(*g);
        },
        _ => {},
    }
}

proof fn lemma_single_branch_deriv(q: QreModel, d: Item)
    requires
        single_branch(q),
    ensures
        deriv_spec(q, d).len() == 1,
        single_branch(deriv_spec(q, d)[0]),
    decreases q,
{
    reveal_with_fuel(deriv_list, 3);
    reveal_with_fuel(single_branch, 3);
    match q {
        QreModel::Choice { v } => {
            assert(v.drop_last() =~= Seq::<QreModel>::empty());
            assert(v.last() == v[0]);
            assert(deriv_list(v, d) =~= deriv_spec(v[0], d));
            lemma_single_branch_deriv(v[0], d);
        },
        QreModel::App { f, op } => {
            lemma_single_branch_deriv(*f, d);
        },
        QreModel::Combine { f, g, op } => {
            lemma_single_branch_deriv(*f, d);
            lemma_single_branch_deriv(*g, d);
        },
        _ => {},
    }
}

proof fn lemma_single_branch_run(q: QreModel, ds: Seq<Item>)
    requires
        single_branch(q),
    ensures
        run(seq![q], ds).len() == 1,
        single_branch(run(seq![q], ds)[0]),
    decreases ds.len(),
{
    reveal_with_fuel(deriv_list, 3);
    if ds.len() != 0 {
        lemma_single_branch_deriv(q, ds.first());
        let w = deriv_list(seq![q], ds.first());
        assert(seq![q].drop_last() =~= Seq::<QreModel>::empty());
        assert(w =~= deriv_spec(q, ds.first()));
        assert(w =~= seq![deriv_spec(q, ds.first())[0]]);
        lemma_single_branch_run(deriv_spec(q, ds.first())[0], ds.drop_first());
    }
}

/// Branch-free queries never blow the working set up: starting from a
/// query with no choice, split or loop, the working set's size after any
/// sequence of items never exceeds two.
pub proof fn lemma_bounded_growth(q: QreModel, ds: Seq<Item>)
    requires
        chain_like(q),
    ensures
        run(seq![q], ds).len() <= 2,
{
    lemma_chain_like_single_branch(q);
    lemma_single_branch_run(q, ds);
}

} // verus!
