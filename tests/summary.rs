use flowstate::records::{Learning, Problem, SolutionAttempt};
use flowstate::summary::{failed_attempts, learnings_for_component, problem_counts};

fn problem(status: &str) -> Problem {
    Problem {
        id: 1,
        component_id: 1,
        title: "t".to_string(),
        description: None,
        status: status.to_string(),
        severity: "high".to_string(),
        root_cause: None,
        created_at: "c".to_string(),
        solved_at: None,
    }
}

fn attempt(outcome: Option<&str>) -> SolutionAttempt {
    SolutionAttempt {
        id: 1,
        problem_id: 1,
        parent_attempt_id: None,
        description: "d".to_string(),
        outcome: outcome.map(String::from),
        confidence: "medium".to_string(),
        notes: None,
        created_at: "c".to_string(),
    }
}

fn learning(id: i64, component_id: Option<i64>) -> Learning {
    Learning {
        id,
        project_id: 1,
        component_id,
        category: None,
        insight: "i".to_string(),
        context: None,
        source: "manual".to_string(),
        verified: false,
        created_at: "c".to_string(),
    }
}

#[test]
fn counts_solved_and_open_problems() {
    let ps = vec![problem("solved"), problem("open"), problem("investigating"), problem("solved")];
    assert_eq!(problem_counts(&ps), (2, 2));
    assert_eq!(problem_counts(&vec![]), (0, 0));
}

#[test]
fn counts_failed_attempts() {
    let a = vec![attempt(Some("failure")), attempt(None), attempt(Some("success")), attempt(Some("failure"))];
    assert_eq!(failed_attempts(&a), 2);
}

#[test]
fn learnings_of_a_component_keep_their_order() {
    let ls = vec![learning(1, Some(4)), learning(2, None), learning(3, Some(5)), learning(4, Some(4))];
    let ids: Vec<i64> = learnings_for_component(ls, 4).iter().map(|l| l.id).collect();
    assert_eq!(ids, vec![1, 4]);
}
