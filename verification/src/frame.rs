//! The steps that make up each entry point of a frame.
//!
//! Each entry point of the bridge is a short, fixed sequence of primitive
//! steps: replaying queued input, opening and closing the UI-building pass,
//! running the caller's own code, flushing the engine's pending draw
//! commands, and handing the graphics context to the UI library. The
//! functions here decide those sequences; the host performs them in order.

use vstd::prelude::*;

verus! {

/// One primitive action of the bridge. The host performs the steps of a
/// plan strictly in order.
#[derive(Clone, Copy, Debug, PartialEq, Eq, Structural)]
pub enum Step {
    /// Replay the engine's queued input events into the UI context.
    ReplayInput,
    /// Open the UI-building pass for this frame.
    BeginPass,
    /// Run the caller's own code against the UI context.
    RunUser,
    /// Close the UI-building pass, leaving the frame ready to render.
    EndPass,
    /// Flush the engine's pending draw commands so none of them is lost.
    FlushEngine,
    /// Hand the graphics context to the UI library for its own draw pass.
    PaintUi,
}

/// The steps that open a frame: queued input is replayed before the pass
/// opens, so the pass sees every event that arrived since the last one.
pub open spec fn start_steps() -> Seq<Step> {
    seq![Step::ReplayInput, Step::BeginPass]
}

/// The steps that close a frame.
pub open spec fn finish_steps() -> Seq<Step> {
    seq![Step::EndPass]
}

/// The steps of the bracketed helper: one whole UI-building pass around the
/// caller's code.
pub open spec fn ui_steps() -> Seq<Step> {
    seq![Step::ReplayInput, Step::BeginPass, Step::RunUser, Step::EndPass]
}

/// The steps that reconfigure the context: the caller's code alone, with no
/// input replay and no pass around it.
pub open spec fn cfg_steps() -> Seq<Step> {
    seq![Step::RunUser]
}

/// The steps that render: the engine's own pending commands are flushed
/// before the UI library receives the graphics context, so neither side's
/// output is dropped.
pub open spec fn draw_steps() -> Seq<Step> {
    seq![Step::FlushEngine, Step::PaintUi]
}

/// Plans the opening of a frame.
pub fn plan_start() -> (r: Vec<Step>)
    ensures
        r@ == start_steps(),
{
    let mut v: Vec<Step> = Vec::new();
    v.push(Step::ReplayInput);
    v.push(Step::BeginPass);
    v
}

/// Plans the closing of a frame.
pub fn plan_finish() -> (r: Vec<Step>)
    ensures
        r@ == finish_steps(),
{
    let mut v: Vec<Step> = Vec::new();
    v.push(Step::EndPass);
    v
}

/// Plans the bracketed helper.
pub fn plan_ui() -> (r: Vec<Step>)
    ensures
        r@ == ui_steps(),
{
    let mut v: Vec<Step> = Vec::new();
    v.push(Step::ReplayInput);
    v.push(Step::BeginPass);
    v.push(Step::RunUser);
    v.push(Step::EndPass);
    v
}

/// Plans a configuration call.
pub fn plan_cfg() -> (r: Vec<Step>)
    ensures
        r@ == cfg_steps(),
{
    let mut v: Vec<Step> = Vec::new();
    v.push(Step::RunUser);
    v
}

/// Plans the render of a frame.
pub fn plan_draw() -> (r: Vec<Step>)
    ensures
        r@ == draw_steps(),
{
    let mut v: Vec<Step> = Vec::new();
    v.push(Step::FlushEngine);
    v.push(Step::PaintUi);
    v
}

/// The bracketed helper performs exactly the steps that open a frame, then
/// the caller's code, then the steps that close it: it is the opening and
/// closing pair with the caller's code in between, nothing more.
pub proof fn lemma_ui_is_bracketed()
    ensures
        ui_steps() == start_steps() + seq![Step::RunUser] + finish_steps(),
{
    assert(ui_steps() =~= start_steps() + seq![Step::RunUser] + finish_steps());
}

} // verus!
