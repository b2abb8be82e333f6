use qre::ops::{Item, Pred, Ext, Op, Partial, eval_op, eval_pred, eval_ext, eval_partial};
use qre::engine::{epsilon, deriv, dup};
use qre::expr::Qre;

fn item(v: i64) -> Item {
    Item { tag: 0, val: v }
}

#[test]
fn op_add_is_wrapping() {
    assert_eq!(eval_op(Op::Add, 2, 3), 5);
    assert_eq!(eval_op(Op::Add, i64::MAX, 1), i64::MIN);
}

#[test]
fn op_div_truncates_and_is_total() {
    assert_eq!(eval_op(Op::Div, 5050, 101), 50);
    assert_eq!(eval_op(Op::Div, 7, 2), 3);
    assert_eq!(eval_op(Op::Div, -7, 2), -3);
    assert_eq!(eval_op(Op::Div, 7, 0), 0);
    assert_eq!(eval_op(Op::Div, i64::MIN, -1), 0);
}

#[test]
fn op_min_max_snd_avg() {
    assert_eq!(eval_op(Op::Min, 4, 9), 4);
    assert_eq!(eval_op(Op::Max, 4, 9), 9);
    assert_eq!(eval_op(Op::Snd, 4, 9), 9);
    assert_eq!(eval_op(Op::Avg, 2, 1), 1);
    assert_eq!(eval_op(Op::Avg, 4, 10), 7);
}

#[test]
fn predicates_and_extractors() {
    let d = Item { tag: 3, val: 41 };
    assert!(eval_pred(Pred::Always, &d));
    assert!(eval_pred(Pred::TagEq(3), &d));
    assert!(!eval_pred(Pred::TagEq(4), &d));
    assert!(eval_pred(Pred::TagNe(4), &d));
    assert!(!eval_pred(Pred::TagNe(3), &d));
    assert_eq!(eval_ext(Ext::Val, &d), 41);
    assert_eq!(eval_ext(Ext::Const(9), &d), 9);
    assert_eq!(eval_partial(Partial { op: Op::Add, lhs: 40 }, 2), 42);
}

#[test]
fn epsilon_of_leaves() {
    assert_eq!(epsilon(&Qre::Bot), Vec::<i64>::new());
    assert_eq!(epsilon(&Qre::Eps { c: 11 }), vec![11]);
    assert_eq!(epsilon(&Qre::Sat { phi: Pred::Always, op: Ext::Val }), Vec::<i64>::new());
}

#[test]
fn epsilon_of_choice_concatenates_in_order() {
    let q = Qre::Choice {
        v: vec![Qre::Eps { c: 1 }, Qre::Bot, Qre::Eps { c: 2 }, Qre::Eps { c: 1 }],
    };
    assert_eq!(epsilon(&q), vec![1, 2, 1]);
}

#[test]
fn epsilon_of_split_is_pairwise_product() {
    let q = Qre::Split {
        f: Box::new(Qre::Choice { v: vec![Qre::Eps { c: 1 }, Qre::Eps { c: 2 }] }),
        g: Box::new(Qre::Choice { v: vec![Qre::Eps { c: 10 }, Qre::Eps { c: 20 }] }),
        op: Op::Add,
    };
    assert_eq!(epsilon(&q), vec![11, 21, 12, 22]);
}

#[test]
fn epsilon_of_combine_is_pairwise_product() {
    let q = Qre::Combine {
        f: Box::new(Qre::Choice { v: vec![Qre::Eps { c: 6 }, Qre::Eps { c: 3 }] }),
        g: Box::new(Qre::Eps { c: 2 }),
        op: Op::Div,
    };
    assert_eq!(epsilon(&q), vec![3, 1]);
}

#[test]
fn epsilon_of_iter_is_epsilon_of_init() {
    let q = Qre::Iter {
        init: Box::new(Qre::Eps { c: 8 }),
        body: Box::new(Qre::Sat { phi: Pred::Always, op: Ext::Val }),
        op: Op::Add,
    };
    assert_eq!(epsilon(&q), vec![8]);
}

#[test]
fn epsilon_of_app_transforms_each_value() {
    let q = Qre::App {
        f: Box::new(Qre::Choice { v: vec![Qre::Eps { c: 1 }, Qre::Eps { c: 2 }] }),
        op: Partial { op: Op::Add, lhs: 100 },
    };
    assert_eq!(epsilon(&q), vec![101, 102]);
}

#[test]
fn deriv_of_bot_and_eps_is_bot() {
    let rb = deriv(&Qre::Bot, &item(5));
    assert_eq!(rb.len(), 1);
    assert!(matches!(rb[0], Qre::Bot));
    let re = deriv(&Qre::Eps { c: 3 }, &item(5));
    assert_eq!(re.len(), 1);
    assert!(matches!(re[0], Qre::Bot));
}

#[test]
fn deriv_of_sat_accepts_or_fails() {
    let q = Qre::Sat { phi: Pred::TagEq(0), op: Ext::Val };
    let hit = deriv(&q, &item(9));
    assert_eq!(hit.len(), 1);
    assert!(matches!(hit[0], Qre::Eps { c: 9 }));
    let miss = deriv(&q, &Item { tag: 1, val: 9 });
    assert_eq!(miss.len(), 1);
    assert!(matches!(miss[0], Qre::Bot));
}

#[test]
fn deriv_of_choice_concatenates_branches() {
    let q = Qre::Choice {
        v: vec![
            Qre::Sat { phi: Pred::Always, op: Ext::Val },
            Qre::Sat { phi: Pred::Always, op: Ext::Const(0) },
        ],
    };
    let r = deriv(&q, &item(4));
    assert_eq!(r.len(), 2);
    assert!(matches!(r[0], Qre::Eps { c: 4 }));
    assert!(matches!(r[1], Qre::Eps { c: 0 }));
}

#[test]
fn deriv_of_split_spawns_head_per_left_value() {
    // the left part has already accepted with 1 or 2; each spawns one
    // residual, and one more keeps the left part consuming
    let q = Qre::Split {
        f: Box::new(Qre::Choice { v: vec![Qre::Eps { c: 1 }, Qre::Eps { c: 2 }] }),
        g: Box::new(Qre::Sat { phi: Pred::Always, op: Ext::Val }),
        op: Op::Add,
    };
    let r = deriv(&q, &item(10));
    assert_eq!(r.len(), 3);
    assert_eq!(epsilon(&r[0]), vec![11]);
    assert_eq!(epsilon(&r[1]), vec![12]);
    assert_eq!(epsilon(&r[2]), Vec::<i64>::new());
}

#[test]
fn deriv_leaves_the_query_untouched() {
    let q = Qre::Split {
        f: Box::new(Qre::Eps { c: 1 }),
        g: Box::new(Qre::Sat { phi: Pred::Always, op: Ext::Val }),
        op: Op::Add,
    };
    let _ = deriv(&q, &item(10));
    let r2 = deriv(&q, &item(10));
    assert_eq!(r2.len(), 2);
    assert_eq!(epsilon(&r2[0]), vec![11]);
}

#[test]
fn dup_preserves_meaning() {
    let q = Qre::Choice {
        v: vec![
            Qre::Eps { c: 5 },
            Qre::App {
                f: Box::new(Qre::Eps { c: 1 }),
                op: Partial { op: Op::Add, lhs: 2 },
            },
        ],
    };
    let c = dup(&q);
    assert_eq!(epsilon(&c), epsilon(&q));
    assert_eq!(epsilon(&c), vec![5, 3]);
}
