//! Figures for a project's story and a problem's journey.
use vstd::prelude::*;

use crate::records::{Learning, Problem, SolutionAttempt};
use crate::text::same_text;

verus! {

/// Number of problems among `s` whose status is `solved`.
pub open spec fn solved_in(s: Seq<Problem>) -> nat
    decreases s.len(),
{
    if s.len() == 0 {
        0
    } else {
        solved_in(s.drop_last()) + if s.last().status@ == "solved"@ {
            1nat
        } else {
            0
        }
    }
}

/// Number of attempts among `s` whose outcome is `failure`.
pub open spec fn failed_in(s: Seq<SolutionAttempt>) -> nat
    decreases s.len(),
{
    if s.len() == 0 {
        0
    } else {
        failed_in(s.drop_last()) + if s.last().outcome matches Some(o) && o@ == "failure"@ {
            1nat
        } else {
            0
        }
    }
}

/// The learnings among `s` recorded against component `id`, in order.
pub open spec fn learnings_of(s: Seq<Learning>, id: i64) -> Seq<Learning>
    decreases s.len(),
{
    if s.len() == 0 {
        Seq::empty()
    } else if s[0].component_id == Some(id) {
        seq![s[0]] + learnings_of(s.drop_first(), id)
    } else {
        learnings_of(s.drop_first(), id)
    }
}

proof fn lemma_solved_bound(s: Seq<Problem>)
    ensures
        solved_in(s) <= s.len(),
    decreases s.len(),
{
    if s.len() > 0 {
        lemma_solved_bound(s.drop_last());
    }
}

/// How many of `problems` are solved, and how many are not.
pub fn problem_counts(problems: &Vec<Problem>) -> (r: (usize, usize))
    ensures
        r.0 == solved_in(problems@),
        r.0 + r.1 == problems@.len(),
{
    let mut solved: usize = 0;
    let mut i: usize = 0;
    while i < problems.len()
        invariant
            i <= problems@.len(),
            solved == solved_in(problems@.take(i as int)),
            solved <= i,
        decreases problems@.len() - i,
    {
        proof {
            assert(problems@.take(i as int + 1).drop_last() =~= problems@.take(i as int));
        }
        if same_text(problems[i].status.as_str(), "solved") {
            solved = solved + 1;
        }
        i = i + 1;
    }
    assert(problems@.take(i as int) =~= problems@);
    (solved, problems.len() - solved)
}

/// How many of `attempts` failed.
pub fn failed_attempts(attempts: &Vec<SolutionAttempt>) -> (r: usize)
    ensures
        r == failed_in(attempts@),
{
    let mut failed: usize = 0;
    let mut i: usize = 0;
    while i < attempts.len()
        invariant
            i <= attempts@.len(),
            failed == failed_in(attempts@.take(i as int)),
            failed <= i,
        decreases attempts@.len() - i,
    {
        proof {
            assert(attempts@.take(i as int + 1).drop_last() =~= attempts@.take(i as int));
        }
        let is_failure = match &attempts[i].outcome {
            Some(o) => same_text(o.as_str(), "failure"),
            None => false,
        };
        if is_failure {
            failed = failed + 1;
        }
        i = i + 1;
    }
    assert(attempts@.take(i as int) =~= attempts@);
    failed
}

/// The learnings recorded against component `component_id`, in their order.
pub fn learnings_for_component(learnings: Vec<Learning>, component_id: i64) -> (r: Vec<Learning>)
    ensures
        r@ == learnings_of(learnings@, component_id),
{
    let mut out: Vec<Learning> = Vec::new();
    let mut rest = learnings;
    let ghost whole = rest@;
    assert(out@ + learnings_of(rest@, component_id) =~= learnings_of(whole, component_id));
    while rest.len() > 0
        invariant
            out@ + learnings_of(rest@, component_id) == learnings_of(whole, component_id),
        decreases rest@.len(),
    {
        let ghost r0 = rest@;
        let x = rest.remove(0);
        proof {
            assert(rest@ =~= r0.drop_first());
        }
        if x.component_id == Some(component_id) {
            let ghost before = out@;
            out.push(x);
            assert(out@ + learnings_of(rest@, component_id) =~= before + learnings_of(r0, component_id));
        }
    }
    assert(out@ + learnings_of(rest@, component_id) =~= out@);
    out
}

} // verus!
