//! The incremental solver: it owns the working set of live residual
//! queries, replaces the whole set by its derivative on every new item, and
//! answers a value query when the acceptance values of the set collapse to
//! exactly one.

use vstd::prelude::*;
use crate::ops::Item;
use crate::expr::{Qre, QreModel, view_list, eps_list, deriv_list};
use crate::engine::{epsilon, deriv, lemma_view_list_push, lemma_view_list_app,
    lemma_eps_list_push, lemma_deriv_list_push};

verus! {

/// The one failure of a value query: the working set's acceptance values do
/// not collapse to exactly one.  It covers both no branch having accepted
/// and several branches disagreeing; the two are deliberately not told
/// apart, and equal values from different branches still count separately.
#[derive(Clone, Copy, PartialEq, Eq, Structural, Debug)]
pub enum QreError {
    Undefined,
}

/// What a value query must answer for a working set: the single acceptance
/// value when there is exactly one, and `Undefined` otherwise.
pub open spec fn output_post(ws: Seq<QreModel>, r: Result<i64, QreError>) -> bool {
    match r {
        Ok(c) => eps_list(ws).len() == 1 && c == eps_list(ws)[0],
        Err(e) => eps_list(ws).len() != 1 && e == QreError::Undefined,
    }
}

/// The incremental solver for one query over one stream.
pub struct Solve {
    /// The working set: the live residual queries, one per nondeterministic
    /// branch still in play.  Order carries no meaning.
    pub state: Vec<Qre>,
    /// The largest size the working set has reached so far.
    pub max_workingset: u64,
}

impl Solve {
    /// The solver's working set in the model.
    pub open spec fn wset(self) -> Seq<QreModel> {
        view_list(self.state@)
    }

    /// Starts a solver on a query: the working set holds the query alone.
    pub fn new(q: Qre) -> (s: Self)
        ensures
            s.wset() == seq![q@],
            s.max_workingset == 0u64,
    {
        let ghost m = q;
        let mut state: Vec<Qre> = Vec::new();
        state.push(q);
        proof {
            assert(state@ =~= Seq::<Qre>::empty().push(m));
            lemma_view_list_push(Seq::empty(), m);
            assert(view_list(Seq::<Qre>::empty()).push(m@) =~= seq![m@]);
        }
        Self { state, max_workingset: 0 }
    }

    /// Consumes one stream item: every query of the working set is replaced
    /// by its derivative, and the old set is discarded.  The peak-size
    /// counter keeps the largest size the set has ever had.
    #[verifier::loop_isolation(false)]
    pub fn update(&mut self, d: Item)
        ensures
            final(self).wset() == deriv_list(old(self).wset(), d),
            final(self).max_workingset == (if final(self).state@.len() as u64
                > old(self).max_workingset {
                final(self).state@.len() as u64
            } else {
                old(self).max_workingset
            }),
    {
        let mut vnew: Vec<Qre> = Vec::new();
        let n = self.state.len();
        let mut i: usize = 0;
        while i < n
            invariant
                i <= n,
                view_list(vnew@) == deriv_list(view_list(self.state@.take(i as int)), d),
            decreases n - i,
        {
            let mut e = deriv(&self.state[i], &d);
            proof {
                let s = self.state@;
                assert(s.take(i + 1) =~= s.take(i as int).push(s[i as int]));
                lemma_view_list_push(s.take(i as int), s[i as int]);
                lemma_deriv_list_push(view_list(s.take(i as int)), s[i as int]@, d);
                lemma_view_list_app(vnew@, e@);
            }
            vnew.append(&mut e);
            i += 1;
        }
        proof {
            assert(self.state@.take(self.state@.len() as int) =~= self.state@);
        }
        let len = vnew.len() as u64;
        self.state = vnew;
        if len > self.max_workingset {
            self.max_workingset = len;
        }
    }

    /// Answers a value query: the acceptance values of the whole working
    /// set are collected, and the answer is defined exactly when there is
    /// one of them.  The solver is left untouched, so repeated queries
    /// agree.
    #[verifier::loop_isolation(false)]
    pub fn output(&self) -> (r: Result<i64, QreError>)
        ensures
            output_post(self.wset(), r),
    {
        let mut cnew: Vec<i64> = Vec::new();
        let n = self.state.len();
        let mut i: usize = 0;
        while i < n
            invariant
                i <= n,
                cnew@ == eps_list(view_list(self.state@.take(i as int))),
            decreases n - i,
        {
            let mut e = epsilon(&self.state[i]);
            proof {
                let s = self.state@;
                assert(s.take(i + 1) =~= s.take(i as int).push(s[i as int]));
                lemma_view_list_push(s.take(i as int), s[i as int]);
                lemma_eps_list_push(view_list(s.take(i as int)), s[i as int]@);
            }
            cnew.append(&mut e);
            i += 1;
        }
        proof {
            assert(self.state@.take(self.state@.len() as int) =~= self.state@);
        }
        if cnew.len() == 1 {
            Ok(cnew[0])
        } else {
            Err(QreError::Undefined)
        }
    }
}

} // verus!
