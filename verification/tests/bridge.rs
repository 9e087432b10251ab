use yakui_macroquad::access::{plan_access, AccessError, SlotPlan};
use yakui_macroquad::frame::{plan_cfg, plan_draw, plan_finish, plan_start, plan_ui, Step};

#[test]
fn nested_borrow_is_refused() {
    assert_eq!(plan_access(false, false), Err(AccessError::Reentrant));
    assert_eq!(plan_access(false, true), Err(AccessError::Reentrant));
}

#[test]
fn empty_slot_is_initialized() {
    assert_eq!(plan_access(true, false), Ok(SlotPlan::Initialize));
}

#[test]
fn occupied_slot_is_reused() {
    assert_eq!(plan_access(true, true), Ok(SlotPlan::Reuse));
}

#[test]
fn start_replays_input_before_opening_the_pass() {
    assert_eq!(plan_start(), vec![Step::ReplayInput, Step::BeginPass]);
}

#[test]
fn finish_closes_the_pass() {
    assert_eq!(plan_finish(), vec![Step::EndPass]);
}

#[test]
fn ui_brackets_the_callers_code() {
    let mut expected = plan_start();
    expected.push(Step::RunUser);
    expected.extend(plan_finish());
    assert_eq!(plan_ui(), expected);
}

#[test]
fn cfg_runs_the_callers_code_alone() {
    assert_eq!(plan_cfg(), vec![Step::RunUser]);
}

#[test]
fn draw_flushes_the_engine_before_the_ui_paints() {
    let steps = plan_draw();
    assert_eq!(steps, vec![Step::FlushEngine, Step::PaintUi]);
    let flush = steps.iter().position(|s| *s == Step::FlushEngine).unwrap();
    let paint = steps.iter().position(|s| *s == Step::PaintUi).unwrap();
    assert!(flush < paint);
}
