use qre::ops::{Item, Pred, Ext, Op};
use qre::expr::Qre;
use qre::solve::{Solve, QreError};

fn item(v: i64) -> Item {
    Item { tag: 0, val: v }
}

fn any_val() -> Qre {
    Qre::Sat { phi: Pred::Always, op: Ext::Val }
}

#[test]
fn sat_acceptance_on_match() {
    let mut s = Solve::new(any_val());
    s.update(item(7));
    assert_eq!(s.output(), Ok(7));
}

#[test]
fn sat_acceptance_on_mismatch_is_undefined() {
    let mut s = Solve::new(Qre::Sat { phi: Pred::TagEq(1), op: Ext::Val });
    s.update(Item { tag: 2, val: 7 });
    assert_eq!(s.output(), Err(QreError::Undefined));
}

#[test]
fn fresh_sat_solver_is_undefined() {
    let s = Solve::new(any_val());
    assert_eq!(s.output(), Err(QreError::Undefined));
}

#[test]
fn eps_answers_before_any_item_and_dies_after() {
    let mut s = Solve::new(Qre::Eps { c: 3 });
    assert_eq!(s.output(), Ok(3));
    s.update(item(1));
    assert_eq!(s.output(), Err(QreError::Undefined));
}

#[test]
fn choice_ambiguity_with_distinct_values() {
    let q = Qre::Choice {
        v: vec![
            Qre::Sat { phi: Pred::Always, op: Ext::Val },
            Qre::Sat { phi: Pred::Always, op: Ext::Const(0) },
        ],
    };
    let mut s = Solve::new(q);
    s.update(item(7));
    assert_eq!(s.output(), Err(QreError::Undefined));
}

#[test]
fn choice_ambiguity_counts_branches_not_values() {
    // both branches extract the same value, yet two branches survive and
    // the answer stays undefined
    let q = Qre::Choice {
        v: vec![
            Qre::Sat { phi: Pred::Always, op: Ext::Val },
            Qre::Sat { phi: Pred::TagEq(0), op: Ext::Val },
        ],
    };
    let mut s = Solve::new(q);
    s.update(item(7));
    assert_eq!(s.output(), Err(QreError::Undefined));
}

#[test]
fn iter_zero_rounds_yields_init_value() {
    let q = Qre::Iter {
        init: Box::new(Qre::Eps { c: 12 }),
        body: Box::new(any_val()),
        op: Op::Add,
    };
    let s = Solve::new(q);
    assert_eq!(s.output(), Ok(12));
}

#[test]
fn running_sum_of_first_hundred() {
    let q = Qre::Iter {
        init: Box::new(any_val()),
        body: Box::new(any_val()),
        op: Op::Add,
    };
    let mut s = Solve::new(q);
    for x in 0..101 {
        s.update(item(x));
    }
    assert_eq!(s.output(), Ok(5050));
}

#[test]
fn running_average_of_first_hundred() {
    let sum = Qre::Iter {
        init: Box::new(Qre::Sat { phi: Pred::Always, op: Ext::Const(0) }),
        body: Box::new(any_val()),
        op: Op::Add,
    };
    let count = Qre::Iter {
        init: Box::new(Qre::Sat { phi: Pred::Always, op: Ext::Const(0) }),
        body: Box::new(Qre::Sat { phi: Pred::Always, op: Ext::Const(1) }),
        op: Op::Add,
    };
    let avg = Qre::Combine { f: Box::new(sum), g: Box::new(count), op: Op::Div };
    let mut s = Solve::new(avg);
    for x in 0..101 {
        s.update(item(x));
    }
    assert_eq!(s.output(), Ok(50));
}

#[test]
fn value_queries_are_idempotent() {
    let q = Qre::Iter {
        init: Box::new(any_val()),
        body: Box::new(any_val()),
        op: Op::Add,
    };
    let mut s = Solve::new(q);
    for x in 1..6 {
        s.update(item(x));
    }
    let first = s.output();
    let second = s.output();
    assert_eq!(first, second);
    assert_eq!(first, Ok(15));
}

#[test]
fn bounded_growth_of_sat_chain() {
    // a branch-free query: satisfactions joined only by parallel
    // composition and post-processing
    let q = Qre::Combine {
        f: Box::new(any_val()),
        g: Box::new(Qre::App {
            f: Box::new(any_val()),
            op: qre::ops::Partial { op: Op::Add, lhs: 1 },
        }),
        op: Op::Snd,
    };
    let mut s = Solve::new(q);
    for x in 0..50 {
        s.update(item(x));
        assert!(s.state.len() <= 2);
    }
    assert!(s.max_workingset <= 2);
}

#[test]
fn bounded_growth_of_lone_sat() {
    let mut s = Solve::new(any_val());
    for x in 0..50 {
        s.update(item(x));
        assert!(s.state.len() <= 2);
    }
    assert!(s.max_workingset <= 2);
}

#[test]
fn windowed_extremum_average() {
    // the last two of five items pass through a window: one side keeps
    // their maximum, the other their minimum, and the final step averages
    // the two; streaming 5,4,3,2,1 leaves the window on 2,1, so the answer
    // is the average of 2 and 1, which rounds to 1
    let f = || any_val();
    let h1 = Qre::Split { f: Box::new(f()), g: Box::new(f()), op: Op::Max };
    let h2 = Qre::Split { f: Box::new(f()), g: Box::new(f()), op: Op::Min };
    let skip = || Qre::Iter {
        init: Box::new(Qre::Eps { c: 0 }),
        body: Box::new(Qre::Sat { phi: Pred::Always, op: Ext::Const(0) }),
        op: Op::Snd,
    };
    let k1 = Qre::Split { f: Box::new(skip()), g: Box::new(h1), op: Op::Snd };
    let k2 = Qre::Split { f: Box::new(skip()), g: Box::new(h2), op: Op::Snd };
    let r = Qre::Combine { f: Box::new(k1), g: Box::new(k2), op: Op::Avg };
    let mut s = Solve::new(r);
    for v in [5, 4, 3, 2, 1] {
        s.update(item(v));
    }
    assert_eq!(s.output(), Ok(1));
}

#[test]
fn grouped_sum_by_tag() {
    // sum the payloads of the items bearing one tag, zero for the others
    let pick = Qre::Choice {
        v: vec![
            Qre::Sat { phi: Pred::TagEq(1), op: Ext::Val },
            Qre::Sat { phi: Pred::TagNe(1), op: Ext::Const(0) },
        ],
    };
    let pick2 = Qre::Choice {
        v: vec![
            Qre::Sat { phi: Pred::TagEq(1), op: Ext::Val },
            Qre::Sat { phi: Pred::TagNe(1), op: Ext::Const(0) },
        ],
    };
    let q = Qre::Iter { init: Box::new(pick), body: Box::new(pick2), op: Op::Add };
    let mut s = Solve::new(q);
    for x in 0..10 {
        if x % 2 == 0 {
            s.update(Item { tag: 2, val: 3 });
        } else {
            s.update(Item { tag: 1, val: 10 });
        }
    }
    assert_eq!(s.output(), Ok(50));
}

#[test]
fn longer_running_sum() {
    let q = Qre::Iter {
        init: Box::new(any_val()),
        body: Box::new(any_val()),
        op: Op::Add,
    };
    let mut s = Solve::new(q);
    for x in 0..1001 {
        s.update(item(x));
    }
    assert_eq!(s.output(), Ok(500500));
}

#[test]
fn peak_working_set_is_tracked() {
    let mut s = Solve::new(any_val());
    assert_eq!(s.max_workingset, 0);
    s.update(item(1));
    assert_eq!(s.state.len(), 1);
    assert_eq!(s.max_workingset, 1);
}
