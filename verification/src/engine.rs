//! The two symbolic operators of the engine, as executable functions: the
//! acceptance-value operator `epsilon` and the derivative operator `deriv`.
//! Both are pure: they never mutate the query they are given, and residual
//! trees are built from fresh copies of the unconsumed subtrees.

use vstd::prelude::*;
use crate::ops::{Item, Op, Partial, eval_pred, eval_ext, eval_partial, eval_op};
use crate::expr::{Qre, QreModel, qre_view, view_list, eps_spec, eps_list, pair_vals, row_vals,
    map_vals, deriv_spec, deriv_list, app_heads, iter_heads};

verus! {

/// Appending one query to a list appends its model to the list of models.
pub proof fn lemma_view_list_push(qs: Seq<Qre>, q: Qre)
    ensures
        view_list(qs.push(q)) == view_list(qs).push(qre_view(q)),
{
    assert(qs.push(q).drop_last() =~= qs);
}

/// The models of a concatenation are the concatenated models.
pub proof fn lemma_view_list_app(a: Seq<Qre>, b: Seq<Qre>)
    ensures
        view_list(a + b) == view_list(a) + view_list(b),
    decreases b.len(),
{
    if b.len() == 0 {
        assert(a + b =~= a);
        assert(view_list(a) + view_list(b) =~= view_list(a));
    } else {
        lemma_view_list_app(a, b.drop_last());
        assert((a + b).drop_last() =~= a + b.drop_last());
        assert(view_list(a) + view_list(b) =~= (view_list(a) + view_list(b.drop_last())).push(
            qre_view(b.last()),
        ));
    }
}

/// Appending one query to a list appends its acceptance values to the
/// list's acceptance values.
pub proof fn lemma_eps_list_push(ms: Seq<QreModel>, m: QreModel)
    ensures
        eps_list(ms.push(m)) == eps_list(ms) + eps_spec(m),
{
    assert(ms.push(m).drop_last() =~= ms);
}

/// Appending one query to a list appends its derivative to the list's
/// derivative.
pub proof fn lemma_deriv_list_push(ms: Seq<QreModel>, m: QreModel, d: Item)
    ensures
        deriv_list(ms.push(m), d) == deriv_list(ms, d) + deriv_spec(m, d),
{
    assert(ms.push(m).drop_last() =~= ms);
}

/// The acceptance values of a query: what it yields if the stream ends at
/// the current position.  Pure and total; duplicates are preserved.
#[verifier::loop_isolation(false)]
pub fn epsilon(q: &Qre) -> (r: Vec<i64>)
    ensures
        r@ == eps_spec(q@),
    decreases q,
{
    match q {
        Qre::Bot => Vec::new(),
        Qre::Eps { c } => {
            let mut r: Vec<i64> = Vec::new();
            r.push(*c);
            proof {
                assert(r@ =~= seq![*c]);
            }
            r
        },
        Qre::Sat { phi, op } => Vec::new(),
        Qre::Choice { v } => {
            let mut r: Vec<i64> = Vec::new();
            let mut i: usize = 0;
            while i < v.len()
                invariant
                    i <= v.len(),
                    r@ == eps_list(view_list(v@.take(i as int))),
                decreases v.len() - i,
            {
                let mut e = epsilon(&v[i]);
                proof {
                    assert(v@.take(i + 1) =~= v@.take(i as int).push(v@[i as int]));
                    lemma_view_list_push(v@.take(i as int), v@[i as int]);
                    lemma_eps_list_push(view_list(v@.take(i as int)), qre_view(v@[i as int]));
                }
                r.append(&mut e);
                i += 1;
            }
            proof {
                assert(v@.take(v@.len() as int) =~= v@);
            }
            r
        },
        Qre::Split { f, g, op } => {
            let ef = epsilon(&**f);
            let eg = epsilon(&**g);
            pair_values(*op, &ef, &eg)
        },
        Qre::Iter { init, body, op } => epsilon(&**init),
        Qre::App { f, op } => {
            let ef = epsilon(&**f);
            let mut r: Vec<i64> = Vec::new();
            let mut i: usize = 0;
            while i < ef.len()
                invariant
                    i <= ef.len(),
                    r@ == map_vals(*op, ef@.take(i as int)),
                decreases ef.len() - i,
            {
                r.push(eval_partial(*op, ef[i]));
                proof {
                    assert(ef@.take(i + 1) =~= ef@.take(i as int).push(ef@[i as int]));
                    assert(ef@.take(i + 1).drop_last() =~= ef@.take(i as int));
                }
                i += 1;
            }
            proof {
                assert(ef@.take(ef@.len() as int) =~= ef@);
            }
            r
        },
        Qre::Combine { f, g, op } => {
            let ef = epsilon(&**f);
            let eg = epsilon(&**g);
            pair_values(*op, &ef, &eg)
        },
    }
}

/// The full pairwise product of two value vectors under a combinator.
fn pair_values(op: Op, xs: &Vec<i64>, ys: &Vec<i64>) -> (r: Vec<i64>)
    ensures
        r@ == pair_vals(op, xs@, ys@),
{
    let mut r: Vec<i64> = Vec::new();
    let mut i: usize = 0;
    while i < xs.len()
        invariant
            i <= xs.len(),
            r@ == pair_vals(op, xs@.take(i as int), ys@),
        decreases xs.len() - i,
    {
        let x = xs[i];
        let mut j: usize = 0;
        while j < ys.len()
            invariant
                j <= ys.len(),
                i < xs.len(),
                x == xs@[i as int],
                r@ == pair_vals(op, xs@.take(i as int), ys@) + row_vals(op, x, ys@.take(j as int)),
            decreases ys.len() - j,
        {
            r.push(eval_op(op, x, ys[j]));
            proof {
                assert(ys@.take(j + 1) =~= ys@.take(j as int).push(ys@[j as int]));
                assert(ys@.take(j + 1).drop_last() =~= ys@.take(j as int));
                assert(r@ =~= pair_vals(op, xs@.take(i as int), ys@) + row_vals(
                    op,
                    x,
                    ys@.take(j + 1),
                ));
            }
            j += 1;
        }
        proof {
            assert(ys@.take(ys@.len() as int) =~= ys@);
            assert(xs@.take(i + 1).drop_last() =~= xs@.take(i as int));
            assert(xs@.take(i + 1).last() == xs@[i as int]);
        }
        i += 1;
    }
    proof {
        assert(xs@.take(xs@.len() as int) =~= xs@);
    }
    r
}

/// A vector holding one query.
fn single(q: Qre) -> (r: Vec<Qre>)
    ensures
        view_list(r@) == seq![qre_view(q)],
{
    let ghost m = q;
    let mut r: Vec<Qre> = Vec::new();
    r.push(q);
    proof {
        assert(r@ =~= Seq::<Qre>::empty().push(m));
        lemma_view_list_push(Seq::empty(), m);
        assert(view_list(Seq::<Qre>::empty()).push(qre_view(m)) =~= seq![qre_view(m)]);
    }
    r
}

/// The residuals a split spawns for its finished left part: for each
/// acceptance value in `ef`, the right part's derivative `dg`, wrapped as a
/// choice and post-processed by the combinator applied to that value.
#[verifier::loop_isolation(false)]
fn split_heads(ef: &Vec<i64>, dg: &Vec<Qre>, o: Op) -> (r: Vec<Qre>)
    ensures
        view_list(r@) == app_heads(ef@, view_list(dg@), o),
{
    let mut r: Vec<Qre> = Vec::new();
    let mut i: usize = 0;
    while i < ef.len()
        invariant
            i <= ef.len(),
            view_list(r@) == app_heads(ef@.take(i as int), view_list(dg@), o),
        decreases ef.len() - i,
    {
        let dgc = dup_vec(dg);
        let e = Qre::App { f: Box::new(Qre::Choice { v: dgc }), op: Partial { op: o, lhs: ef[i] } };
        let ghost em = e;
        let ghost orr = r@;
        r.push(e);
        proof {
            assert(ef@.take(i + 1) =~= ef@.take(i as int).push(ef@[i as int]));
            assert(ef@.take(i + 1).drop_last() =~= ef@.take(i as int));
            lemma_view_list_push(orr, em);
            reveal_with_fuel(qre_view, 3);
            assert(qre_view(em) == (QreModel::App {
                f: Box::new(QreModel::Choice { v: view_list(dg@) }),
                op: Partial { op: o, lhs: ef@[i as int] },
            }));
            assert(view_list(r@) =~= app_heads(ef@.take(i + 1), view_list(dg@), o));
        }
        i += 1;
    }
    proof {
        assert(ef@.take(ef@.len() as int) =~= ef@);
    }
    r
}

/// The residuals a loop spawns for its finished initial part: for each
/// acceptance value in `ei`, one more round of the body begins from the
/// body's derivative `db`, eventually folded onto that value.
#[verifier::loop_isolation(false)]
fn loop_heads(ei: &Vec<i64>, db: &Vec<Qre>, body: &Qre, o: Op) -> (r: Vec<Qre>)
    ensures
        view_list(r@) == iter_heads(ei@, view_list(db@), body@, o),
{
    let mut r: Vec<Qre> = Vec::new();
    let mut i: usize = 0;
    while i < ei.len()
        invariant
            i <= ei.len(),
            view_list(r@) == iter_heads(ei@.take(i as int), view_list(db@), body@, o),
        decreases ei.len() - i,
    {
        let dbc = dup_vec(db);
        let bc = dup(body);
        let e = Qre::Iter {
            init: Box::new(
                Qre::App { f: Box::new(Qre::Choice { v: dbc }), op: Partial { op: o, lhs: ei[i] } },
            ),
            body: Box::new(bc),
            op: o,
        };
        let ghost em = e;
        let ghost orr = r@;
        r.push(e);
        proof {
            assert(ei@.take(i + 1) =~= ei@.take(i as int).push(ei@[i as int]));
            assert(ei@.take(i + 1).drop_last() =~= ei@.take(i as int));
            lemma_view_list_push(orr, em);
            reveal_with_fuel(qre_view, 4);
            assert(qre_view(em) == (QreModel::Iter {
                init: Box::new(
                    QreModel::App {
                        f: Box::new(QreModel::Choice { v: view_list(db@) }),
                        op: Partial { op: o, lhs: ei@[i as int] },
                    },
                ),
                body: Box::new(body@),
                op: o,
            }));
            assert(view_list(r@) =~= iter_heads(ei@.take(i + 1), view_list(db@), body@, o));
        }
        i += 1;
    }
    proof {
        assert(ei@.take(ei@.len() as int) =~= ei@);
    }
    r
}

/// The derivative of a query by one item: the residual queries that remain
/// once the item has been consumed, one per nondeterministic branch.  The
/// input query is left untouched; unconsumed subtrees are copied into the
/// residuals.
#[verifier::loop_isolation(false)]
pub fn deriv(q: &Qre, d: &Item) -> (r: Vec<Qre>)
    ensures
        view_list(r@) == deriv_spec(q@, *d),
    decreases q,
{
    match q {
        Qre::Bot => {
            let r = single(Qre::Bot);
            proof {
                assert(seq![qre_view(Qre::Bot)] =~= seq![QreModel::Bot]);
            }
            r
        },
        Qre::Eps { c } => {
            let r = single(Qre::Bot);
            proof {
                assert(seq![qre_view(Qre::Bot)] =~= seq![QreModel::Bot]);
            }
            r
        },
        Qre::Sat { phi, op } => {
            if eval_pred(*phi, d) {
                let e = Qre::Eps { c: eval_ext(*op, d) };
                let ghost em = e;
                let r = single(e);
                proof {
                    assert(seq![qre_view(em)] =~= deriv_spec(q@, *d));
                }
                r
            } else {
                let r = single(Qre::Bot);
                proof {
                    assert(seq![qre_view(Qre::Bot)] =~= deriv_spec(q@, *d));
                }
                r
            }
        },
        Qre::Choice { v } => {
            let mut r: Vec<Qre> = Vec::new();
            let mut i: usize = 0;
            while i < v.len()
                invariant
                    i <= v.len(),
                    view_list(r@) == deriv_list(view_list(v@.take(i as int)), *d),
                decreases v.len() - i,
            {
                let mut e = deriv(&v[i], d);
                proof {
                    assert(v@.take(i + 1) =~= v@.take(i as int).push(v@[i as int]));
                    lemma_view_list_push(v@.take(i as int), v@[i as int]);
                    lemma_deriv_list_push(view_list(v@.take(i as int)), qre_view(v@[i as int]), *d);
                    lemma_view_list_app(r@, e@);
                }
                r.append(&mut e);
                i += 1;
            }
            proof {
                assert(v@.take(v@.len() as int) =~= v@);
            }
            r
        },
        Qre::Split { f, g, op } => {
            let o = *op;
            let ef = epsilon(&**f);
            let dg = deriv(&**g, d);
            let mut r = split_heads(&ef, &dg, o);
            let df = deriv(&**f, d);
            let gc = dup(&**g);
            let e2 = Qre::Split { f: Box::new(Qre::Choice { v: df }), g: Box::new(gc), op: o };
            let ghost em2 = e2;
            let ghost orr2 = r@;
            r.push(e2);
            proof {
                lemma_view_list_push(orr2, em2);
                reveal_with_fuel(qre_view, 3);
            }
            r
        },
        Qre::Iter { init, body, op } => {
            let o = *op;
            let ei = epsilon(&**init);
            let db = deriv(&**body, d);
            let mut r = loop_heads(&ei, &db, &**body, o);
            let di = deriv(&**init, d);
            let bc2 = dup(&**body);
            let e2 = Qre::Iter { init: Box::new(Qre::Choice { v: di }), body: Box::new(bc2), op: o };
            let ghost em2 = e2;
            let ghost orr2 = r@;
            r.push(e2);
            proof {
                lemma_view_list_push(orr2, em2);
                reveal_with_fuel(qre_view, 3);
            }
            r
        },
        Qre::App { f, op } => {
            let df = deriv(&**f, d);
            let e = Qre::App { f: Box::new(Qre::Choice { v: df }), op: *op };
            let ghost em = e;
            let r = single(e);
            proof {
                reveal_with_fuel(qre_view, 3);
                assert(seq![qre_view(em)] =~= deriv_spec(q@, *d));
            }
            r
        },
        Qre::Combine { f, g, op } => {
            let df = deriv(&**f, d);
            let dg = deriv(&**g, d);
            let e = Qre::Combine {
                f: Box::new(Qre::Choice { v: df }),
                g: Box::new(Qre::Choice { v: dg }),
                op: *op,
            };
            let ghost em = e;
            let r = single(e);
            proof {
                reveal_with_fuel(qre_view, 3);
                assert(seq![qre_view(em)] =~= deriv_spec(q@, *d));
            }
            r
        },
    }
}

/// A fresh copy of a query tree, equal to the original in the model.
#[verifier::loop_isolation(false)]
pub fn dup(q: &Qre) -> (r: Qre)
    ensures
        r@ == q@,
    decreases q,
{
    match q {
        Qre::Bot => Qre::Bot,
        Qre::Eps { c } => Qre::Eps { c: *c },
        Qre::Sat { phi, op } => Qre::Sat { phi: *phi, op: *op },
        Qre::Choice { v } => {
            let mut nv: Vec<Qre> = Vec::new();
            let mut i: usize = 0;
            while i < v.len()
                invariant
                    i <= v.len(),
                    view_list(nv@) == view_list(v@.take(i as int)),
                decreases v.len() - i,
            {
                let e = dup(&v[i]);
                let ghost em = e;
                let ghost onv = nv@;
                nv.push(e);
                proof {
                    assert(v@.take(i + 1) =~= v@.take(i as int).push(v@[i as int]));
                    lemma_view_list_push(v@.take(i as int), v@[i as int]);
                    lemma_view_list_push(onv, em);
                }
                i += 1;
            }
            proof {
                assert(v@.take(v@.len() as int) =~= v@);
            }
            Qre::Choice { v: nv }
        },
        Qre::Split { f, g, op } => Qre::Split {
            f: Box::new(dup(&**f)),
            g: Box::new(dup(&**g)),
            op: *op,
        },
        Qre::Iter { init, body, op } => Qre::Iter {
            init: Box::new(dup(&**init)),
            body: Box::new(dup(&**body)),
            op: *op,
        },
        Qre::App { f, op } => Qre::App { f: Box::new(dup(&**f)), op: *op },
        Qre::Combine { f, g, op } => Qre::Combine {
            f: Box::new(dup(&**f)),
            g: Box::new(dup(&**g)),
            op: *op,
        },
    }
}

/// A fresh copy of a vector of query trees, equal to the original in the
/// model.
pub fn dup_vec(v: &Vec<Qre>) -> (r: Vec<Qre>)
    ensures
        view_list(r@) == view_list(v@),
{
    let mut nv: Vec<Qre> = Vec::new();
    let mut i: usize = 0;
    while i < v.len()
        invariant
            i <= v.len(),
            view_list(nv@) == view_list(v@.take(i as int)),
        decreases v.len() - i,
    {
        let e = dup(&v[i]);
        let ghost em = e;
        let ghost onv = nv@;
        nv.push(e);
        proof {
            assert(v@.take(i + 1) =~= v@.take(i as int).push(v@[i as int]));
            lemma_view_list_push(v@.take(i as int), v@[i as int]);
            lemma_view_list_push(onv, em);
        }
        i += 1;
    }
    proof {
        assert(v@.take(v@.len() as int) =~= v@);
    }
    nv
}

} // verus!
