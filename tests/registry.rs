use caramelo::report::CHECK_PRIVACY_POLICY;
use caramelo::{CheckResult, PollResult, TaskRegistry};

fn sample() -> Vec<CheckResult> {
    vec![CheckResult::verdict(CHECK_PRIVACY_POLICY, true)]
}

#[test]
fn unknown_task_is_not_found() {
    let mut reg = TaskRegistry::new();
    assert!(matches!(reg.poll("nope"), PollResult::NotFound));
    let id = reg.create().expect("fresh id");
    assert!(matches!(reg.poll("nope"), PollResult::NotFound));
    assert!(matches!(reg.poll(&format!("{}x", id)), PollResult::NotFound));
}

#[test]
fn created_task_is_pending_then_ready() {
    let mut reg = TaskRegistry::new();
    let id = reg.create().expect("fresh id");
    assert_eq!(id.len(), 36);
    assert!(matches!(reg.poll(&id), PollResult::Pending));
    reg.complete(&id, sample());
    for _ in 0..3 {
        match reg.poll(&id) {
            PollResult::Ready(results) => {
                assert_eq!(results.len(), 1);
                assert_eq!(results[0].check, CHECK_PRIVACY_POLICY);
                assert!(results[0].passed);
                assert!(results[0].error.is_none());
            }
            _ => panic!("expected the results"),
        }
    }
}

#[test]
fn tasks_are_independent() {
    let mut reg = TaskRegistry::new();
    let a = reg.create().expect("fresh id");
    let b = reg.create().expect("fresh id");
    assert_ne!(a, b);
    reg.complete(&b, vec![]);
    assert!(matches!(reg.poll(&a), PollResult::Pending));
    assert!(matches!(reg.poll(&b), PollResult::Ready(ref r) if r.is_empty()));
}

#[test]
fn insert_pending_refuses_taken_id() {
    let mut reg = TaskRegistry::new();
    assert!(reg.insert_pending("t1".to_string()));
    reg.complete("t1", sample());
    assert!(!reg.insert_pending("t1".to_string()));
    assert!(matches!(reg.poll("t1"), PollResult::Ready(_)));
}

#[test]
fn completing_unknown_task_registers_it() {
    let mut reg = TaskRegistry::new();
    reg.complete("late", sample());
    assert!(matches!(reg.poll("late"), PollResult::Ready(ref r) if r.len() == 1));
}
