use field_line::{judge_step, StepController, StepVerdict};

#[test]
fn narrow_step_is_accepted() {
    assert_eq!(judge_step(0, 4, false), StepVerdict::Accept);
    assert_eq!(judge_step(4, 4, false), StepVerdict::Accept);
}

#[test]
fn wide_step_is_halved_while_allowed() {
    assert_eq!(judge_step(0, 4, true), StepVerdict::Halve);
    assert_eq!(judge_step(3, 4, true), StepVerdict::Halve);
}

#[test]
fn wide_step_gives_up_at_the_limit() {
    assert_eq!(judge_step(4, 4, true), StepVerdict::GiveUp);
    assert_eq!(judge_step(u32::MAX, u32::MAX, true), StepVerdict::GiveUp);
}

#[test]
fn fresh_controller_starts_at_full_step() {
    let c = StepController::new(7);
    assert_eq!(c.halvings(), 0);
    assert_eq!(c.max_halvings(), 7);
}

#[test]
fn rejections_halve_until_the_limit_then_give_up() {
    let mut c = StepController::new(3);
    assert_eq!(c.judge(true), StepVerdict::Halve);
    assert_eq!(c.halvings(), 1);
    assert_eq!(c.judge(true), StepVerdict::Halve);
    assert_eq!(c.judge(true), StepVerdict::Halve);
    assert_eq!(c.halvings(), 3);
    assert_eq!(c.judge(true), StepVerdict::GiveUp);
    assert_eq!(c.halvings(), 3);
    assert_eq!(c.judge(true), StepVerdict::GiveUp);
}

#[test]
fn accepted_step_restarts_at_full_step() {
    let mut c = StepController::new(5);
    assert_eq!(c.judge(true), StepVerdict::Halve);
    assert_eq!(c.judge(true), StepVerdict::Halve);
    assert_eq!(c.halvings(), 2);
    assert_eq!(c.judge(false), StepVerdict::Accept);
    assert_eq!(c.halvings(), 0);
    assert_eq!(c.max_halvings(), 5);
}

#[test]
fn no_halving_allowed_gives_up_at_once() {
    let mut c = StepController::new(0);
    assert_eq!(c.judge(false), StepVerdict::Accept);
    assert_eq!(c.judge(true), StepVerdict::GiveUp);
    assert_eq!(c.halvings(), 0);
}
