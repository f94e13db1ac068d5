use typing_cadence::action::Step;
use typing_cadence::key::Key;
use typing_cadence::run::{Outcome, Run, Status};

fn steps() -> Vec<Step> {
    vec![
        Step::Suspend(50),
        Step::EmitCharacter('a'),
        Step::Suspend(100),
        Step::EmitControlKey(Key::Return),
    ]
}

#[test]
fn a_run_of_no_steps_is_complete() {
    let run = Run::new(Vec::new());
    assert_eq!(run.status(), Status::Completed);
    assert_eq!(run.next_step(), None);
    assert_eq!(run.delivered(), 0);
}

#[test]
fn delivered_steps_follow_in_order() {
    let mut run = Run::new(steps());
    let mut seen = Vec::new();
    while let Some(step) = run.next_step() {
        assert_eq!(run.status(), Status::Running);
        seen.push(step);
        run = run.after(Outcome::Delivered);
    }
    assert_eq!(seen, steps());
    assert_eq!(run.status(), Status::Completed);
    assert_eq!(run.delivered(), 4);
}

#[test]
fn a_failed_delivery_aborts_the_run() {
    let run = Run::new(steps());
    let run = run.after(Outcome::Delivered);
    assert_eq!(run.next_step(), Some(Step::EmitCharacter('a')));
    let run = run.after(Outcome::Failed);
    assert_eq!(run.status(), Status::Aborted);
    assert_eq!(run.next_step(), None);
    assert_eq!(run.delivered(), 1);
}

#[test]
fn an_aborted_run_is_not_resumed() {
    let run = Run::new(steps()).after(Outcome::Failed);
    let run = run.after(Outcome::Delivered).after(Outcome::Delivered);
    assert_eq!(run.status(), Status::Aborted);
    assert_eq!(run.next_step(), None);
    assert_eq!(run.delivered(), 0);
}

#[test]
fn an_interruption_cancels_the_run() {
    let run = Run::new(steps());
    let run = run.after(Outcome::Delivered).after(Outcome::Delivered);
    let run = run.after(Outcome::Interrupted);
    assert_eq!(run.status(), Status::Cancelled);
    assert_eq!(run.next_step(), None);
    assert_eq!(run.delivered(), 2);
    let run = run.after(Outcome::Failed);
    assert_eq!(run.status(), Status::Cancelled);
}

#[test]
fn a_completed_run_stays_completed() {
    let mut run = Run::new(steps());
    for _ in 0..4 {
        run = run.after(Outcome::Delivered);
    }
    assert_eq!(run.status(), Status::Completed);
    let run = run.after(Outcome::Failed).after(Outcome::Interrupted).after(Outcome::Delivered);
    assert_eq!(run.status(), Status::Completed);
    assert_eq!(run.delivered(), 4);
}
