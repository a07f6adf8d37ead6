//! The instruction executor as a state machine.
//!
//! Running a workflow alternates decisions with outside work: finding
//! elements, acting on them, sleeping, logging, reporting progress. The
//! executor makes the decisions. Each call of [`Executor::step`] takes the
//! outcome of the last requested work (an [`Event`]) and whether
//! cancellation was requested, performs one step, and returns the next
//! [`Action`] to perform. The caller performs it and reports back, until the
//! executor returns [`Action::Done`].
//!
//! Control flow follows blocks: a loop runs its body while its iteration
//! count is below its maximum and its condition holds; an `If` runs one of
//! its bodies; `Break` leaves the innermost enclosing loop (outside any
//! loop, the innermost `If` body; at the top level, the workflow). A
//! condition on the screen or on a script is decided by asking for a probe
//! of each of its questions, in order. `Call` asks for the named workflow
//! and runs it with its arguments bound as variables; `Return` ends the
//! workflow being run with a value, which becomes the result of the `Call`
//! that ran it, or of the whole run. Cancellation is checked before every
//! instruction and before every loop iteration.

use vstd::prelude::*;

use crate::context::Context;
use crate::element::{clone_opt_string, fits_i32, Element, Rect};
use crate::error::{RpaError, RpaErrorView};
use crate::fmt::string_of;
use crate::eval::{
    cond_holds, condition_probes, evaluate_condition, has_area, probes_of, truthy, value_truthy,
    ProbeQuery,
};
use crate::instruction::{Condition, Instruction, LogLevel, ModifierKey, MouseButton, ScrollDirection};
use crate::target::Target;
use crate::value::{entries_model, lemma_entries_model, Value, ValueModel};

verus! {

// ---------------------------------------------------------------------
// Machine state
// ---------------------------------------------------------------------

/// Which block of the enclosing instruction a frame runs.
#[derive(Debug, Clone, Copy, PartialEq, Eq, Structural)]
pub enum Branch {
    /// The workflow itself.
    Root,
    /// The body of a `Loop`.
    LoopBody,
    /// The `then` body of an `If`.
    Then,
    /// The `else` body of an `If`.
    Else,
}

/// A block being run: the position in it, which block it is, and for a loop
/// body the current iteration and the maximum.
#[derive(Debug, Clone, Copy, PartialEq, Eq, Structural)]
pub struct Frame {
    pub pc: usize,
    pub branch: Branch,
    pub iteration: u32,
    pub max: u32,
}

/// Where the executor is within the current instruction.
#[allow(inconsistent_fields)]
#[derive(Debug)]
pub enum Phase {
    /// About to start the instruction at the frame's position, or to leave
    /// the block when it is done.
    Next,
    /// The start of the instruction was reported; it is to be carried out.
    Dispatch,
    /// Waiting for the element that the instruction acts on.
    AwaitTarget,
    /// Waiting for the outcome of an action, a sleep or a log line.
    AwaitAct,
    /// Waiting for one search of a `WaitFor` target.
    AwaitPoll,
    /// Waiting out the interval between two searches of a `WaitFor`.
    AwaitPollSleep,
    /// Waiting for the element a drag starts from.
    AwaitDragFrom,
    /// Waiting for the element a drag ends at.
    AwaitDragTo { from: Element },
    /// Carrying out a drag: stage 1 moved to the start, 2 pressed the
    /// button, 3 waited, 4 moved to the end.
    Drag { stage: u8, from: (i32, i32), to: (i32, i32) },
    /// The instruction completed; it is to be counted and reported.
    Complete,
    /// At the head of a loop, before iteration `iteration`.
    LoopHead { iteration: u32, max: u32 },
    /// Waiting for the instructions of the workflow a `Call` names.
    AwaitWorkflow,
    /// Waiting for the answers to the questions of an `If` condition.
    ProbeIf,
    /// Waiting for the answers to the questions of a loop condition, before
    /// iteration `iteration`.
    ProbeLoop { iteration: u32, max: u32 },
    /// The run ended.
    Finished,
}

/// The outcome of the work that the executor requested last.
#[derive(Debug)]
pub enum Event {
    /// The work was done (also the event for a step that requested none).
    Ack,
    /// The element that was searched for.
    Element(Element),
    /// The work failed.
    Failed(RpaError),
    /// One search of a `WaitFor` target found nothing; `elapsed_ms` is the
    /// time since the first search for it, `target_debug` the target's
    /// debug description.
    NotFound { elapsed_ms: u64, target_debug: String },
    /// The instructions of the workflow that was asked for.
    Workflow(Vec<Instruction>),
    /// The value of a script expression that was asked for.
    Value(Value),
}

/// An operation of the actor.
#[derive(Debug)]
pub enum ActorCall {
    Click { element: Element, button: MouseButton },
    DoubleClick { element: Element },
    InputText { element: Element, text: String, clear_first: bool },
    KeyPress { key: String, modifiers: Vec<ModifierKey> },
    Scroll { element: Element, direction: ScrollDirection, amount: u32 },
    MouseMove { x: i32, y: i32 },
    MouseDown { button: MouseButton, x: i32, y: i32 },
    MouseUp { button: MouseButton, x: i32, y: i32 },
    SetForeground { element: Element },
    /// Capture the screen or a region, and write it to a file if a path is
    /// given.
    Screenshot { region: Option<Rect>, save_path: Option<String> },
}

/// A progress report.
#[derive(Debug)]
pub enum Notice {
    InstructionStart { index: usize },
    InstructionComplete { index: usize },
    VariableSet { name: String, value: Value },
    WorkflowCall { name: String },
    /// A called workflow returned, with the value of its `Return` if it
    /// ended with one.
    WorkflowReturn { name: String, result: Option<Value> },
}

/// The work the executor asks for next.
#[derive(Debug)]
pub enum Action {
    /// Nothing outside; step again.
    Continue,
    /// Report progress.
    Notify(Notice),
    /// Write a log line.
    Log { level: LogLevel, message: String },
    /// Find an element along the fallback chain, retrying as the context's
    /// retry configuration says.
    Find(Target),
    /// Search once for a `WaitFor` target; `first` marks the first search.
    Poll { target: Target, first: bool },
    /// Perform an actor operation.
    Act(ActorCall),
    /// Sleep for the given number of milliseconds.
    Sleep(u64),
    /// Give the instructions of the named workflow.
    LoadWorkflow(String),
    /// Answer a question a condition depends on: search once for the target
    /// (answering with the element, or with `NotFound`), or evaluate the
    /// script expression (answering with its value).
    Probe(ProbeQuery),
    /// The run ended with a returned value, without one, or with an error.
    Done(Result<Option<Value>, RpaError>),
}

// ---------------------------------------------------------------------
// Views
// ---------------------------------------------------------------------

pub enum ActorCallView {
    Click { element: Element, button: MouseButton },
    DoubleClick { element: Element },
    InputText { element: Element, text: Seq<char>, clear_first: bool },
    KeyPress { key: Seq<char>, modifiers: Seq<ModifierKey> },
    Scroll { element: Element, direction: ScrollDirection, amount: u32 },
    MouseMove { x: i32, y: i32 },
    MouseDown { button: MouseButton, x: i32, y: i32 },
    MouseUp { button: MouseButton, x: i32, y: i32 },
    SetForeground { element: Element },
    Screenshot { region: Option<Rect>, save_path: Option<Seq<char>> },
}

pub enum NoticeView {
    InstructionStart { index: usize },
    InstructionComplete { index: usize },
    VariableSet { name: Seq<char>, value: ValueModel },
    WorkflowCall { name: Seq<char> },
    WorkflowReturn { name: Seq<char>, result: Option<ValueModel> },
}

pub enum ActionView {
    Continue,
    Notify(NoticeView),
    Log { level: LogLevel, message: Seq<char> },
    Find(Target),
    Poll { target: Target, first: bool },
    Act(ActorCallView),
    Sleep(u64),
    LoadWorkflow(Seq<char>),
    Probe(ProbeQuery),
    Done(Result<Option<ValueModel>, RpaErrorView>),
}

pub open spec fn opt_str_view(s: Option<String>) -> Option<Seq<char>> {
    match s {
        Some(t) => Some(t@),
        None => None,
    }
}

impl View for ActorCall {
    type V = ActorCallView;

    open spec fn view(&self) -> ActorCallView {
        match *self {
            ActorCall::Click { element, button } => ActorCallView::Click { element, button },
            ActorCall::DoubleClick { element } => ActorCallView::DoubleClick { element },
            ActorCall::InputText { element, text, clear_first } => ActorCallView::InputText {
                element,
                text: text@,
                clear_first,
            },
            ActorCall::KeyPress { key, modifiers } => ActorCallView::KeyPress {
                key: key@,
                modifiers: modifiers@,
            },
            ActorCall::Scroll { element, direction, amount } => ActorCallView::Scroll {
                element,
                direction,
                amount,
            },
            ActorCall::MouseMove { x, y } => ActorCallView::MouseMove { x, y },
            ActorCall::MouseDown { button, x, y } => ActorCallView::MouseDown { button, x, y },
            ActorCall::MouseUp { button, x, y } => ActorCallView::MouseUp { button, x, y },
            ActorCall::SetForeground { element } => ActorCallView::SetForeground { element },
            ActorCall::Screenshot { region, save_path } => ActorCallView::Screenshot {
                region,
                save_path: opt_str_view(save_path),
            },
        }
    }
}

impl View for Notice {
    type V = NoticeView;

    open spec fn view(&self) -> NoticeView {
        match *self {
            Notice::InstructionStart { index } => NoticeView::InstructionStart { index },
            Notice::InstructionComplete { index } => NoticeView::InstructionComplete { index },
            Notice::VariableSet { name, value } => NoticeView::VariableSet {
                name: name@,
                value: value@,
            },
            Notice::WorkflowCall { name } => NoticeView::WorkflowCall { name: name@ },
            Notice::WorkflowReturn { name, result } => NoticeView::WorkflowReturn {
                name: name@,
                result: match result {
                    Some(v) => Some(v@),
                    None => None,
                },
            },
        }
    }
}

impl View for Action {
    type V = ActionView;

    open spec fn view(&self) -> ActionView {
        match *self {
            Action::Continue => ActionView::Continue,
            Action::Notify(n) => ActionView::Notify(n@),
            Action::Log { level, message } => ActionView::Log { level, message: message@ },
            Action::Find(t) => ActionView::Find(t),
            Action::Poll { target, first } => ActionView::Poll { target, first },
            Action::Act(c) => ActionView::Act(c@),
            Action::Sleep(ms) => ActionView::Sleep(ms),
            Action::LoadWorkflow(name) => ActionView::LoadWorkflow(name@),
            Action::Probe(q) => ActionView::Probe(q),
            Action::Done(r) => ActionView::Done(
                match r {
                    Ok(Some(v)) => Ok(Some(v@)),
                    Ok(None) => Ok(None),
                    Err(e) => Err(e@),
                },
            ),
        }
    }
}

/// A call under way: the called workflow's name, and where the caller
/// stands.
#[verifier::ext_equal]
pub struct CallView {
    pub name: Seq<char>,
    pub program: Seq<Instruction>,
    pub frames: Seq<Frame>,
}

/// The state of the executor, as its transitions see it.
#[verifier::ext_equal]
pub struct MachineView {
    /// The instructions of the workflow being run (the called one, while a
    /// call is under way).
    pub program: Seq<Instruction>,
    /// The calls under way, outermost first.
    pub calls: Seq<CallView>,
    pub frames: Seq<Frame>,
    pub phase: Phase,
    /// The answers so far to the questions of the condition being decided.
    pub answers: Seq<bool>,
    pub steps: nat,
    pub vars: Map<Seq<char>, ValueModel>,
}

// ---------------------------------------------------------------------
// Blocks
// ---------------------------------------------------------------------

/// The block that an instruction holds under a branch.
pub open spec fn child_block(instr: Instruction, branch: Branch) -> Option<Seq<Instruction>> {
    match branch {
        Branch::LoopBody => match instr {
            Instruction::Loop { body, .. } => Some(body@),
            _ => None,
        },
        Branch::Then => match instr {
            Instruction::If { then_body, .. } => Some(then_body@),
            _ => None,
        },
        Branch::Else => match instr {
            Instruction::If { else_body, .. } => match else_body {
                Some(e) => Some(e@),
                None => None,
            },
            _ => None,
        },
        Branch::Root => None,
    }
}

/// The block that frame `n` runs: the program for the first frame, and the
/// child of the instruction its parent frame is at for the others.
pub open spec fn block_of(program: Seq<Instruction>, frames: Seq<Frame>, n: nat) -> Option<
    Seq<Instruction>,
>
    decreases n,
{
    if n == 0 {
        Some(program)
    } else {
        match block_of(program, frames, (n - 1) as nat) {
            Some(parent) => if frames[n - 1].pc < parent.len() {
                child_block(parent[frames[n - 1].pc as int], frames[n as int].branch)
            } else {
                None
            },
            None => None,
        }
    }
}

pub open spec fn top(frames: Seq<Frame>) -> Frame {
    frames.last()
}

/// The block of the innermost frame.
pub open spec fn cur_block(program: Seq<Instruction>, frames: Seq<Frame>) -> Seq<Instruction> {
    block_of(program, frames, (frames.len() - 1) as nat).unwrap()
}

/// The instruction the innermost frame is at.
pub open spec fn cur_instr(program: Seq<Instruction>, frames: Seq<Frame>) -> Instruction {
    cur_block(program, frames)[top(frames).pc as int]
}

/// The innermost frame moved to the next instruction.
pub open spec fn advance(frames: Seq<Frame>) -> Seq<Frame> {
    frames.update(frames.len() - 1, Frame { pc: (top(frames).pc + 1) as usize, ..top(frames) })
}

/// The frames left after a `Break`: everything up to and including the
/// innermost loop body is left; `None` when there is no enclosing loop.
pub open spec fn unwind_break(frames: Seq<Frame>) -> Option<Seq<Frame>>
    decreases frames.len(),
{
    if frames.len() <= 1 {
        None
    } else if frames.last().branch == Branch::LoopBody {
        Some(frames.drop_last())
    } else {
        unwind_break(frames.drop_last())
    }
}

/// Whether the instruction acts on one element found by its target.
pub open spec fn acts_on_target(instr: Instruction) -> bool {
    ||| instr is Click
    ||| instr is DoubleClick
    ||| instr is Input
    ||| instr is Scroll
    ||| instr is SetForeground
    ||| instr is Extract
}

/// The frames are consistent with the program: each one runs a block of
/// the instruction its parent frame is at, every frame but the innermost
/// is at an instruction of its block, and loop bodies are below their
/// maximum iteration count.
pub open spec fn frames_wf(program: Seq<Instruction>, frames: Seq<Frame>) -> bool {
    &&& frames.len() >= 1
    &&& frames[0].branch == Branch::Root
    &&& forall|n: int| 0 <= n < frames.len() ==> #[trigger] block_of(program, frames, n as nat) is Some
    &&& forall|n: int| 1 <= n < frames.len() ==> #[trigger] frames[n].branch != Branch::Root
    &&& forall|n: int|
        0 <= n < frames.len() - 1 ==> #[trigger] frames[n].pc < block_of(
            program,
            frames,
            n as nat,
        ).unwrap().len()
    &&& forall|n: int|
        0 <= n < frames.len() && #[trigger] frames[n].branch == Branch::LoopBody
            ==> frames[n].iteration < frames[n].max
    &&& top(frames).pc <= cur_block(program, frames).len()
}

/// The phase is consistent with the instruction the frames point at.
pub open spec fn phase_ok(program: Seq<Instruction>, frames: Seq<Frame>, phase: Phase) -> bool {
    &&& !(phase is Next || phase is Finished) ==> top(frames).pc < cur_block(program, frames).len()
    &&& phase is AwaitTarget ==> acts_on_target(cur_instr(program, frames))
    &&& (phase is AwaitPoll || phase is AwaitPollSleep) ==> cur_instr(program, frames) is WaitFor
    &&& (phase is AwaitDragFrom || phase is AwaitDragTo || phase is Drag) ==> cur_instr(
        program,
        frames,
    ) is Drag
    &&& phase is Drag ==> 1 <= phase->stage <= 4
    &&& phase is LoopHead ==> cur_instr(program, frames) is Loop
    &&& phase is AwaitWorkflow ==> cur_instr(program, frames) is Call
    &&& phase is ProbeIf ==> cur_instr(program, frames) is If
    &&& phase is ProbeLoop ==> cur_instr(program, frames) is Loop && cur_instr(
        program,
        frames,
    )->Loop_condition is Some && phase->ProbeLoop_iteration < phase->ProbeLoop_max
}

/// The condition that the current `If` or `Loop` tests.
pub open spec fn cur_condition(program: Seq<Instruction>, frames: Seq<Frame>) -> Condition {
    match cur_instr(program, frames) {
        Instruction::If { condition, .. } => condition,
        Instruction::Loop { condition, .. } => match condition {
            Some(c) => c,
            None => arbitrary(),
        },
        _ => arbitrary(),
    }
}

/// While a condition is being decided, fewer answers than questions have
/// arrived.
pub open spec fn answers_ok(
    program: Seq<Instruction>,
    frames: Seq<Frame>,
    phase: Phase,
    answers: Seq<bool>,
) -> bool {
    (phase is ProbeIf || phase is ProbeLoop) ==> answers.len() < probes_of(
        cur_condition(program, frames),
    ).len()
}

/// Each caller stands at the `Call` it made.
pub open spec fn calls_wf(calls: Seq<CallView>) -> bool {
    forall|k: int|
        0 <= k < calls.len() ==> {
            &&& #[trigger] frames_wf(calls[k].program, calls[k].frames)
            &&& top(calls[k].frames).pc < cur_block(calls[k].program, calls[k].frames).len()
            &&& cur_instr(calls[k].program, calls[k].frames) is Call
        }
}

/// The frames are consistent with the program, and the phase with the
/// instruction they point at.
pub open spec fn machine_wf(program: Seq<Instruction>, frames: Seq<Frame>, phase: Phase) -> bool {
    frames_wf(program, frames) && phase_ok(program, frames, phase)
}

// ---------------------------------------------------------------------
// Transitions
// ---------------------------------------------------------------------

/// The value an `Extract` stores: the element's text, or null.
pub open spec fn text_value(text: Option<String>) -> ValueModel {
    match text {
        Some(t) => ValueModel::Str(t@),
        None => ValueModel::Null,
    }
}

/// The run ends with the given outcome.
pub open spec fn finish(s: MachineView, r: Result<Option<ValueModel>, RpaErrorView>) -> (
    MachineView,
    ActionView,
) {
    (MachineView { phase: Phase::Finished, ..s }, ActionView::Done(r))
}

pub open spec fn with_phase(s: MachineView, phase: Phase) -> MachineView {
    MachineView { phase, ..s }
}

/// Starting the next instruction of the innermost block, or leaving the
/// block when it is done.
pub open spec fn step_next(program: Seq<Instruction>, s: MachineView, cancelled: bool) -> (
    MachineView,
    ActionView,
) {
    let t = top(s.frames);
    if t.pc < cur_block(program, s.frames).len() {
        if cancelled {
            finish(s, Err(RpaErrorView::Cancelled))
        } else {
            (
                with_phase(s, Phase::Dispatch),
                ActionView::Notify(NoticeView::InstructionStart { index: t.pc }),
            )
        }
    } else {
        match t.branch {
            Branch::Root => end_of_workflow(s, None),
            Branch::LoopBody => (
                MachineView {
                    frames: s.frames.drop_last(),
                    phase: Phase::LoopHead { iteration: (t.iteration + 1) as u32, max: t.max },
                    ..s
                },
                ActionView::Continue,
            ),
            _ => (
                MachineView { frames: s.frames.drop_last(), phase: Phase::Complete, ..s },
                ActionView::Continue,
            ),
        }
    }
}

/// The variables after binding arguments in order: a later binding of a
/// name replaces an earlier one.
pub open spec fn bind_args(
    vars: Map<Seq<char>, ValueModel>,
    args: Seq<(Seq<char>, ValueModel)>,
) -> Map<Seq<char>, ValueModel>
    decreases args.len(),
{
    if args.len() == 0 {
        vars
    } else {
        bind_args(vars, args.drop_last()).insert(args.last().0, args.last().1)
    }
}

/// Entering the workflow that a `Call` names: its arguments are bound as
/// variables, the caller's place is kept, and the workflow runs from its
/// first instruction.
pub open spec fn enter_call(program: Seq<Instruction>, s: MachineView, body: Seq<Instruction>) -> (
    MachineView,
    ActionView,
) {
    let instr = cur_instr(program, s.frames);
    let name = instr->Call_workflow@;
    (
        MachineView {
            program: body,
            calls: s.calls.push(CallView { name, program, frames: s.frames }),
            frames: seq![Frame { pc: 0, branch: Branch::Root, iteration: 0, max: 0 }],
            phase: Phase::Next,
            vars: bind_args(s.vars, entries_model(instr->Call_args@, instr->Call_args@.len())),
            ..s
        },
        ActionView::Notify(NoticeView::WorkflowCall { name }),
    )
}

/// The end of the workflow being run, with the value of its `Return` if it
/// has one: a called workflow returns to its caller, whose `Call` then
/// completes; the top-level workflow ends the run.
pub open spec fn end_of_workflow(s: MachineView, result: Option<ValueModel>) -> (
    MachineView,
    ActionView,
) {
    if s.calls.len() > 0 {
        let c = s.calls.last();
        (
            MachineView {
                program: c.program,
                calls: s.calls.drop_last(),
                frames: c.frames,
                phase: Phase::Complete,
                ..s
            },
            ActionView::Notify(NoticeView::WorkflowReturn { name: c.name, result }),
        )
    } else {
        finish(s, Ok(result))
    }
}

/// The workflow a `Call` asked for arrived, or could not be had.
pub open spec fn step_call(program: Seq<Instruction>, s: MachineView, ev: Event) -> (
    MachineView,
    ActionView,
) {
    match ev {
        Event::Workflow(body) => enter_call(program, s, body@),
        Event::Failed(err) => finish(s, Err(err@)),
        _ => (s, ActionView::Continue),
    }
}

/// Counting and reporting a completed instruction, and moving past it.
pub open spec fn step_complete(s: MachineView) -> (MachineView, ActionView) {
    (
        MachineView {
            frames: advance(s.frames),
            phase: Phase::Next,
            steps: s.steps + 1,
            ..s
        },
        ActionView::Notify(NoticeView::InstructionComplete { index: top(s.frames).pc }),
    )
}

/// Running the body of a loop for iteration `iteration` when its condition
/// holds, or completing the loop.
pub open spec fn decide_loop(s: MachineView, holds: bool, iteration: u32, max: u32) -> (
    MachineView,
    ActionView,
) {
    if holds {
        (
            MachineView {
                frames: s.frames.push(Frame { pc: 0, branch: Branch::LoopBody, iteration, max }),
                phase: Phase::Next,
                ..s
            },
            ActionView::Continue,
        )
    } else {
        (with_phase(s, Phase::Complete), ActionView::Continue)
    }
}

/// Entering the branch of an `If` that its condition picks, or completing
/// the `If` when the condition fails and there is no `else` body.
pub open spec fn decide_if(s: MachineView, holds: bool, has_else: bool) -> (
    MachineView,
    ActionView,
) {
    if holds {
        (enter(s, Branch::Then), ActionView::Continue)
    } else if has_else {
        (enter(s, Branch::Else), ActionView::Continue)
    } else {
        (with_phase(s, Phase::Complete), ActionView::Continue)
    }
}

/// The answer that an event gives to a question: whether the element was
/// found (with an area, for visibility), or whether the expression's value
/// is truthy.
pub open spec fn answer_of(q: ProbeQuery, ev: Event) -> bool {
    match q {
        ProbeQuery::Exists(_) => ev is Element,
        ProbeQuery::Visible(_) => ev matches Event::Element(e) && has_area(e.bounds),
        ProbeQuery::Expression(_) => ev matches Event::Value(v) && truthy(v@),
    }
}

/// An answer to the next question of the condition being decided arrived:
/// ask the next one, or decide the condition once all are answered. A
/// script that fails ends the run with its error.
pub open spec fn step_probe(program: Seq<Instruction>, s: MachineView, ev: Event) -> (
    MachineView,
    ActionView,
) {
    let c = cur_condition(program, s.frames);
    let qs = probes_of(c);
    let q = qs[s.answers.len() as int];
    if q is Expression && ev is Failed {
        finish(s, Err(ev->Failed_0@))
    } else {
        let answers = s.answers.push(answer_of(q, ev));
        if answers.len() < qs.len() {
            (MachineView { answers, ..s }, ActionView::Probe(qs[answers.len() as int]))
        } else {
            let holds = cond_holds(c, s.vars, answers, 0);
            let s2 = MachineView { answers: seq![], ..s };
            match s.phase {
                Phase::ProbeLoop { iteration, max } => decide_loop(s2, holds, iteration, max),
                _ => decide_if(
                    s2,
                    holds,
                    cur_instr(program, s.frames)->If_else_body is Some,
                ),
            }
        }
    }
}

/// At the head of a loop: run the body again, or complete the loop.
pub open spec fn step_loop_head(
    program: Seq<Instruction>,
    s: MachineView,
    iteration: u32,
    max: u32,
    cancelled: bool,
) -> (MachineView, ActionView) {
    let condition = cur_instr(program, s.frames)->Loop_condition;
    if iteration < max {
        if cancelled {
            finish(s, Err(RpaErrorView::Cancelled))
        } else if condition is Some && probes_of(condition->0).len() > 0 {
            (
                MachineView { phase: Phase::ProbeLoop { iteration, max }, answers: seq![], ..s },
                ActionView::Probe(probes_of(condition->0)[0]),
            )
        } else {
            decide_loop(
                s,
                condition is None || cond_holds(condition->0, s.vars, seq![], 0),
                iteration,
                max,
            )
        }
    } else {
        (with_phase(s, Phase::Complete), ActionView::Continue)
    }
}

/// Entering a block of the current instruction.
pub open spec fn enter(s: MachineView, branch: Branch) -> MachineView {
    MachineView {
        frames: s.frames.push(Frame { pc: 0, branch, iteration: 0, max: 0 }),
        phase: Phase::Next,
        ..s
    }
}

/// The phase and the work that an instruction without control flow starts
/// with.
pub open spec fn simple_plan(instr: Instruction) -> (Phase, ActionView) {
    match instr {
        Instruction::Click { target, .. } => (Phase::AwaitTarget, ActionView::Find(target)),
        Instruction::DoubleClick { target } => (Phase::AwaitTarget, ActionView::Find(target)),
        Instruction::Input { target, .. } => (Phase::AwaitTarget, ActionView::Find(target)),
        Instruction::Scroll { target, .. } => (Phase::AwaitTarget, ActionView::Find(target)),
        Instruction::SetForeground { target } => (Phase::AwaitTarget, ActionView::Find(target)),
        Instruction::Extract { target, .. } => (Phase::AwaitTarget, ActionView::Find(target)),
        Instruction::KeyPress { key, modifiers } => (
            Phase::AwaitAct,
            ActionView::Act(ActorCallView::KeyPress { key: key@, modifiers: modifiers@ }),
        ),
        Instruction::Wait { duration_ms } => (Phase::AwaitAct, ActionView::Sleep(duration_ms)),
        Instruction::WaitFor { target, .. } => (
            Phase::AwaitPoll,
            ActionView::Poll { target, first: true },
        ),
        Instruction::Log { message, level } => (
            Phase::AwaitAct,
            ActionView::Log { level, message: message@ },
        ),
        Instruction::MouseMove { x, y } => (
            Phase::AwaitAct,
            ActionView::Act(ActorCallView::MouseMove { x, y }),
        ),
        Instruction::MouseDown { button, x, y } => (
            Phase::AwaitAct,
            ActionView::Act(ActorCallView::MouseDown { button, x, y }),
        ),
        Instruction::MouseUp { button, x, y } => (
            Phase::AwaitAct,
            ActionView::Act(ActorCallView::MouseUp { button, x, y }),
        ),
        Instruction::Drag { from, .. } => (Phase::AwaitDragFrom, ActionView::Find(from)),
        Instruction::Screenshot { region, save_path, .. } => (
            Phase::AwaitAct,
            ActionView::Act(ActorCallView::Screenshot { region, save_path: opt_str_view(save_path) }),
        ),
        Instruction::MoveWindow { .. } => (
            Phase::Finished,
            ActionView::Done(
                Err(RpaErrorView::InvalidInstruction("MoveWindow requires WindowPerceptor"@)),
            ),
        ),
        Instruction::OcrRegion { .. } => (
            Phase::Finished,
            ActionView::Done(
                Err(
                    RpaErrorView::InvalidInstruction(
                        "OcrRegion requires an OcrEngine to be wired to the VM"@,
                    ),
                ),
            ),
        ),
        _ => (Phase::Next, ActionView::Continue),
    }
}

/// Whether an instruction enters or leaves blocks when carried out.
pub open spec fn is_control(instr: Instruction) -> bool {
    instr is Loop || instr is If || instr is Break || instr is Call || instr is Return
}

/// Carrying out the current instruction.
pub open spec fn step_dispatch(program: Seq<Instruction>, s: MachineView) -> (
    MachineView,
    ActionView,
) {
    match cur_instr(program, s.frames) {
        Instruction::Loop { max, .. } => (
            with_phase(
                s,
                Phase::LoopHead {
                    iteration: 0,
                    max: match max {
                        Some(m) => m,
                        None => u32::MAX,
                    },
                },
            ),
            ActionView::Continue,
        ),
        Instruction::If { condition, else_body, .. } => {
            if probes_of(condition).len() == 0 {
                decide_if(s, cond_holds(condition, s.vars, seq![], 0), else_body is Some)
            } else {
                (
                    MachineView { phase: Phase::ProbeIf, answers: seq![], ..s },
                    ActionView::Probe(probes_of(condition)[0]),
                )
            }
        },
        Instruction::Call { workflow, .. } => (
            with_phase(s, Phase::AwaitWorkflow),
            ActionView::LoadWorkflow(workflow@),
        ),
        Instruction::Return(v) => end_of_workflow(s, Some(v@)),
        Instruction::Break => match unwind_break(s.frames) {
            Some(frames) => (
                MachineView { frames, phase: Phase::Complete, ..s },
                ActionView::Continue,
            ),
            None => if s.frames.len() > 1 {
                (
                    MachineView { frames: s.frames.drop_last(), phase: Phase::Complete, ..s },
                    ActionView::Continue,
                )
            } else {
                end_of_workflow(s, None)
            },
        },
        instr => (with_phase(s, simple_plan(instr).0), simple_plan(instr).1),
    }
}

/// The element of an element-acting instruction arrived.
pub open spec fn step_target(program: Seq<Instruction>, s: MachineView, ev: Event) -> (
    MachineView,
    ActionView,
) {
    match ev {
        Event::Element(e) => match cur_instr(program, s.frames) {
            Instruction::Click { button, .. } => (
                with_phase(s, Phase::AwaitAct),
                ActionView::Act(ActorCallView::Click { element: e, button }),
            ),
            Instruction::DoubleClick { .. } => (
                with_phase(s, Phase::AwaitAct),
                ActionView::Act(ActorCallView::DoubleClick { element: e }),
            ),
            Instruction::Input { text, clear_first, .. } => (
                with_phase(s, Phase::AwaitAct),
                ActionView::Act(ActorCallView::InputText { element: e, text: text@, clear_first }),
            ),
            Instruction::Scroll { direction, amount, .. } => (
                with_phase(s, Phase::AwaitAct),
                ActionView::Act(ActorCallView::Scroll { element: e, direction, amount }),
            ),
            Instruction::SetForeground { .. } => (
                with_phase(s, Phase::AwaitAct),
                ActionView::Act(ActorCallView::SetForeground { element: e }),
            ),
            Instruction::Extract { into_var, .. } => (
                MachineView {
                    vars: s.vars.insert(into_var@, text_value(e.text)),
                    phase: Phase::Complete,
                    ..s
                },
                ActionView::Notify(
                    NoticeView::VariableSet { name: into_var@, value: text_value(e.text) },
                ),
            ),
            _ => (s, ActionView::Continue),
        },
        Event::Failed(err) => finish(s, Err(err@)),
        _ => (s, ActionView::Continue),
    }
}

/// One search of a `WaitFor` target ended.
pub open spec fn step_poll(program: Seq<Instruction>, s: MachineView, ev: Event) -> (
    MachineView,
    ActionView,
) {
    let instr = cur_instr(program, s.frames);
    match ev {
        Event::Element(_) => (with_phase(s, Phase::Complete), ActionView::Continue),
        Event::NotFound { elapsed_ms, target_debug } => {
            if elapsed_ms >= instr->WaitFor_timeout_ms {
                finish(s, Err(RpaErrorView::Timeout(instr->WaitFor_timeout_ms, target_debug@)))
            } else {
                (
                    with_phase(s, Phase::AwaitPollSleep),
                    ActionView::Sleep(instr->WaitFor_interval_ms),
                )
            }
        },
        _ => (s, ActionView::Continue),
    }
}

/// The center of an element's bounds, as `i32` coordinates.
pub open spec fn center_of(e: Element) -> (i32, i32) {
    (e.bounds.center_x() as i32, e.bounds.center_y() as i32)
}

/// A step of a drag.
pub open spec fn step_drag(program: Seq<Instruction>, s: MachineView, ev: Event) -> (
    MachineView,
    ActionView,
) {
    let button = cur_instr(program, s.frames)->Drag_button;
    match ev {
        Event::Failed(err) => finish(s, Err(err@)),
        Event::Element(e) => match s.phase {
            Phase::AwaitDragFrom => (
                with_phase(s, Phase::AwaitDragTo { from: e }),
                ActionView::Find(cur_instr(program, s.frames)->Drag_to),
            ),
            Phase::AwaitDragTo { from } => (
                with_phase(s, Phase::Drag { stage: 1, from: center_of(from), to: center_of(e) }),
                ActionView::Act(
                    ActorCallView::MouseMove { x: center_of(from).0, y: center_of(from).1 },
                ),
            ),
            _ => (s, ActionView::Continue),
        },
        _ => match s.phase {
            Phase::Drag { stage, from, to } => {
                if stage == 1 {
                    (
                        with_phase(s, Phase::Drag { stage: 2, from, to }),
                        ActionView::Act(ActorCallView::MouseDown { button, x: from.0, y: from.1 }),
                    )
                } else if stage == 2 {
                    (with_phase(s, Phase::Drag { stage: 3, from, to }), ActionView::Sleep(50))
                } else if stage == 3 {
                    (
                        with_phase(s, Phase::Drag { stage: 4, from, to }),
                        ActionView::Act(ActorCallView::MouseMove { x: to.0, y: to.1 }),
                    )
                } else {
                    (
                        with_phase(s, Phase::AwaitAct),
                        ActionView::Act(ActorCallView::MouseUp { button, x: to.0, y: to.1 }),
                    )
                }
            },
            _ => (s, ActionView::Continue),
        },
    }
}

/// One step of the executor: the next state and the work to ask for.
pub open spec fn transition(program: Seq<Instruction>, s: MachineView, ev: Event, cancelled: bool) -> (
    MachineView,
    ActionView,
) {
    match s.phase {
        Phase::Next => step_next(program, s, cancelled),
        Phase::Dispatch => step_dispatch(program, s),
        Phase::AwaitTarget => step_target(program, s, ev),
        Phase::AwaitAct => match ev {
            Event::Failed(err) => finish(s, Err(err@)),
            _ => (with_phase(s, Phase::Complete), ActionView::Continue),
        },
        Phase::AwaitPoll => step_poll(program, s, ev),
        Phase::AwaitPollSleep => match ev {
            Event::Failed(err) => finish(s, Err(err@)),
            _ => (
                with_phase(s, Phase::AwaitPoll),
                ActionView::Poll {
                    target: cur_instr(program, s.frames)->WaitFor_target,
                    first: false,
                },
            ),
        },
        Phase::AwaitDragFrom => step_drag(program, s, ev),
        Phase::AwaitDragTo { .. } => step_drag(program, s, ev),
        Phase::Drag { .. } => step_drag(program, s, ev),
        Phase::Complete => step_complete(s),
        Phase::LoopHead { iteration, max } => step_loop_head(program, s, iteration, max, cancelled),
        Phase::AwaitWorkflow => step_call(program, s, ev),
        Phase::ProbeIf => step_probe(program, s, ev),
        Phase::ProbeLoop { .. } => step_probe(program, s, ev),
        Phase::Finished => (s, ActionView::Continue),
    }
}

/// The events that a phase waits for.
pub open spec fn event_expected(phase: Phase, ev: Event) -> bool {
    match phase {
        Phase::AwaitTarget => ev is Element || ev is Failed,
        Phase::AwaitDragFrom => ev is Element || ev is Failed,
        Phase::AwaitDragTo { .. } => ev is Element || ev is Failed,
        Phase::AwaitAct => ev is Ack || ev is Failed,
        Phase::AwaitPollSleep => ev is Ack || ev is Failed,
        Phase::Drag { .. } => ev is Ack || ev is Failed,
        Phase::AwaitPoll => ev is Element || ev is NotFound,
        Phase::AwaitWorkflow => ev is Workflow || ev is Failed,
        Phase::ProbeIf => ev is Element || ev is NotFound || ev is Value || ev is Failed,
        Phase::ProbeLoop { .. } => ev is Element || ev is NotFound || ev is Value || ev is Failed,
        _ => true,
    }
}

/// The step can be taken without arithmetic overflow: the count of
/// completed instructions fits, and the centers of dragged elements fit.
pub open spec fn step_computable(s: MachineView, ev: Event) -> bool {
    &&& s.phase is Complete ==> s.steps < u32::MAX
    &&& match (s.phase, ev) {
        (Phase::AwaitDragTo { from }, Event::Element(e)) => {
            &&& fits_i32(from.bounds.center_x())
            &&& fits_i32(from.bounds.center_y())
            &&& fits_i32(e.bounds.center_x())
            &&& fits_i32(e.bounds.center_y())
        },
        _ => true,
    }
}

// ---------------------------------------------------------------------
// Laws of the transitions
// ---------------------------------------------------------------------

/// The block of a frame depends only on the frames up to it.
pub proof fn lemma_block_of_agree(
    program: Seq<Instruction>,
    f1: Seq<Frame>,
    f2: Seq<Frame>,
    n: nat,
)
    requires
        n < f1.len(),
        n < f2.len(),
        forall|i: int| 0 <= i < n ==> f1[i].pc == f2[i].pc,
        forall|i: int| 0 <= i <= n ==> f1[i].branch == f2[i].branch,
    ensures
        block_of(program, f1, n) == block_of(program, f2, n),
    decreases n,
{
    if n > 0 {
        lemma_block_of_agree(program, f1, f2, (n - 1) as nat);
    }
}

/// After a `Break`, what is left is a proper prefix of the frames, and the
/// first frame left out is a loop body.
pub proof fn lemma_unwind_break(frames: Seq<Frame>)
    ensures
        unwind_break(frames) matches Some(fs) ==> {
            &&& 1 <= fs.len() < frames.len()
            &&& fs == frames.subrange(0, fs.len() as int)
            &&& frames[fs.len() as int].branch == Branch::LoopBody
        },
        unwind_break(frames) is None ==> forall|i: int|
            1 <= i < frames.len() ==> frames[i].branch != Branch::LoopBody,
    decreases frames.len(),
{
    if frames.len() > 1 {
        if frames.last().branch == Branch::LoopBody {
            assert(frames.drop_last() =~= frames.subrange(0, frames.len() - 1));
        } else {
            lemma_unwind_break(frames.drop_last());
            let p = frames.drop_last();
            if let Some(fs) = unwind_break(p) {
                assert(fs =~= frames.subrange(0, fs.len() as int));
                assert(p[fs.len() as int] == frames[fs.len() as int]);
            } else {
                assert forall|i: int| 1 <= i < frames.len() implies frames[i].branch
                    != Branch::LoopBody by {
                    if i < frames.len() - 1 {
                        assert(p[i] == frames[i]);
                    }
                }
            }
        }
    }
}

/// Frames that agree on a prefix have the same blocks along it.
pub proof fn lemma_prefix_blocks(program: Seq<Instruction>, frames: Seq<Frame>, fs: Seq<Frame>)
    requires
        1 <= fs.len() <= frames.len(),
        forall|i: int| 0 <= i < fs.len() - 1 ==> fs[i].pc == frames[i].pc,
        forall|i: int| 0 <= i < fs.len() ==> fs[i].branch == frames[i].branch,
    ensures
        forall|n: int|
            0 <= n < fs.len() ==> #[trigger] block_of(program, fs, n as nat) == block_of(
                program,
                frames,
                n as nat,
            ),
{
    assert forall|n: int| 0 <= n < fs.len() implies #[trigger] block_of(program, fs, n as nat)
        == block_of(program, frames, n as nat) by {
        lemma_block_of_agree(program, fs, frames, n as nat);
    }
}

/// A proper prefix of consistent frames is consistent, and its innermost
/// frame is at an instruction holding the block of the next frame.
pub proof fn lemma_prefix_wf(program: Seq<Instruction>, frames: Seq<Frame>, k: int)
    requires
        frames_wf(program, frames),
        1 <= k < frames.len(),
    ensures
        frames_wf(program, frames.subrange(0, k)),
        top(frames.subrange(0, k)).pc < cur_block(program, frames.subrange(0, k)).len(),
        child_block(cur_instr(program, frames.subrange(0, k)), frames[k].branch) is Some,
{
    let fs = frames.subrange(0, k);
    lemma_prefix_blocks(program, frames, fs);
    assert(block_of(program, frames, (k - 1) as nat) is Some);
    assert(block_of(program, frames, k as nat) is Some);
    assert(frames[k - 1].pc < block_of(program, frames, (k - 1) as nat).unwrap().len());
    assert forall|n: int| 0 <= n < fs.len() - 1 implies #[trigger] fs[n].pc < block_of(
        program,
        fs,
        n as nat,
    ).unwrap().len() by {
        assert(frames[n].pc < block_of(program, frames, n as nat).unwrap().len());
    }
    assert forall|n: int|
        0 <= n < fs.len() && #[trigger] fs[n].branch == Branch::LoopBody implies fs[n].iteration
        < fs[n].max by {
        assert(frames[n].branch == Branch::LoopBody);
    }
    assert forall|n: int| 1 <= n < fs.len() implies #[trigger] fs[n].branch != Branch::Root by {
        assert(frames[n].branch != Branch::Root);
    }
    assert forall|n: int| 0 <= n < fs.len() implies #[trigger] block_of(program, fs, n as nat) is Some by {
        assert(block_of(program, frames, n as nat) is Some);
    }
}

/// Entering a block of the current instruction keeps the frames consistent.
pub proof fn lemma_push_wf(program: Seq<Instruction>, frames: Seq<Frame>, f: Frame)
    requires
        frames_wf(program, frames),
        top(frames).pc < cur_block(program, frames).len(),
        child_block(cur_instr(program, frames), f.branch) is Some,
        f.pc == 0,
        f.branch == Branch::LoopBody ==> f.iteration < f.max,
    ensures
        frames_wf(program, frames.push(f)),
        cur_block(program, frames.push(f)) == child_block(cur_instr(program, frames), f.branch).unwrap(),
{
    let fs = frames.push(f);
    let len = frames.len();
    assert(fs.drop_last() =~= frames);
    lemma_prefix_blocks(program, fs, frames);
    assert(block_of(program, fs, len as nat) == child_block(
        cur_block(program, frames)[frames[len - 1].pc as int],
        f.branch,
    ));
    assert forall|n: int| 0 <= n < fs.len() - 1 implies #[trigger] fs[n].pc < block_of(
        program,
        fs,
        n as nat,
    ).unwrap().len() by {
        assert(fs[n] == frames[n]);
        if n < len - 1 {
            assert(frames[n].pc < block_of(program, frames, n as nat).unwrap().len());
        }
    }
    assert forall|n: int|
        0 <= n < fs.len() && #[trigger] fs[n].branch == Branch::LoopBody implies fs[n].iteration
        < fs[n].max by {
        if n < len {
            assert(fs[n] == frames[n]);
        }
    }
    assert forall|n: int| 1 <= n < fs.len() implies #[trigger] fs[n].branch != Branch::Root by {
        if n < len {
            assert(fs[n] == frames[n]);
        }
    }
    assert forall|n: int| 0 <= n < fs.len() implies #[trigger] block_of(program, fs, n as nat) is Some by {
        if n < len {
            assert(block_of(program, frames, n as nat) is Some);
        }
    }
}

/// Moving past the current instruction keeps the frames consistent.
pub proof fn lemma_advance_wf(program: Seq<Instruction>, frames: Seq<Frame>)
    requires
        frames_wf(program, frames),
        top(frames).pc < cur_block(program, frames).len(),
    ensures
        frames_wf(program, advance(frames)),
        cur_block(program, advance(frames)) == cur_block(program, frames),
{
    let fs = advance(frames);
    let len = frames.len();
    lemma_prefix_blocks(program, frames, fs);
    assert forall|n: int| 0 <= n < fs.len() - 1 implies #[trigger] fs[n].pc < block_of(
        program,
        fs,
        n as nat,
    ).unwrap().len() by {
        assert(fs[n] == frames[n]);
        assert(frames[n].pc < block_of(program, frames, n as nat).unwrap().len());
    }
    assert forall|n: int|
        0 <= n < fs.len() && #[trigger] fs[n].branch == Branch::LoopBody implies fs[n].iteration
        < fs[n].max by {
        assert(frames[n].branch == Branch::LoopBody);
    }
    assert forall|n: int| 1 <= n < fs.len() implies #[trigger] fs[n].branch != Branch::Root by {
        assert(frames[n].branch != Branch::Root);
    }
    assert forall|n: int| 0 <= n < fs.len() implies #[trigger] block_of(program, fs, n as nat) is Some by {
        assert(block_of(program, frames, n as nat) is Some);
    }
}

/// Keeping the place of a caller that stands at a `Call` keeps the calls
/// well-formed.
proof fn lemma_push_call_wf(calls: Seq<CallView>, c: CallView)
    requires
        calls_wf(calls),
        frames_wf(c.program, c.frames),
        top(c.frames).pc < cur_block(c.program, c.frames).len(),
        cur_instr(c.program, c.frames) is Call,
    ensures
        calls_wf(calls.push(c)),
{
    let t = calls.push(c);
    assert forall|k: int| 0 <= k < t.len() implies {
        &&& #[trigger] frames_wf(t[k].program, t[k].frames)
        &&& top(t[k].frames).pc < cur_block(t[k].program, t[k].frames).len()
        &&& cur_instr(t[k].program, t[k].frames) is Call
    } by {
        if k < calls.len() {
            assert(t[k] == calls[k]);
            assert(frames_wf(calls[k].program, calls[k].frames));
        }
    }
}

/// Returning to a caller leaves a well-formed machine.
proof fn lemma_end_of_workflow_wf(s: MachineView, result: Option<ValueModel>)
    requires
        calls_wf(s.calls),
    ensures
        ({
            let t = end_of_workflow(s, result).0;
            &&& calls_wf(t.calls)
            &&& s.calls.len() > 0 ==> machine_wf(t.program, t.frames, t.phase)
            &&& s.calls.len() == 0 ==> t.phase is Finished && t.program == s.program && t.frames
                == s.frames
        }),
{
    if s.calls.len() > 0 {
        let k = s.calls.len() - 1;
        assert(frames_wf(s.calls[k].program, s.calls[k].frames));
        let t = end_of_workflow(s, result).0;
        assert forall|j: int| 0 <= j < t.calls.len() implies #[trigger] frames_wf(
            t.calls[j].program,
            t.calls[j].frames,
        ) && top(t.calls[j].frames).pc < cur_block(t.calls[j].program, t.calls[j].frames).len()
            && cur_instr(t.calls[j].program, t.calls[j].frames) is Call by {
            assert(t.calls[j] == s.calls[j]);
            assert(frames_wf(s.calls[j].program, s.calls[j].frames));
        }
    }
}

proof fn lemma_next_wf(program: Seq<Instruction>, s: MachineView, cancelled: bool)
    requires
        s.program == program,
        machine_wf(program, s.frames, s.phase),
        calls_wf(s.calls),
        s.phase is Next,
    ensures
        machine_wf(
            transition(program, s, Event::Ack, cancelled).0.program,
            transition(program, s, Event::Ack, cancelled).0.frames,
            transition(program, s, Event::Ack, cancelled).0.phase,
        ),
        calls_wf(transition(program, s, Event::Ack, cancelled).0.calls),
{
    let frames = s.frames;
    let t = top(frames);
    lemma_end_of_workflow_wf(s, None);
    if t.pc >= cur_block(program, frames).len() && t.branch != Branch::Root {
        let k = frames.len() - 1;
        assert(k >= 1);
        lemma_prefix_wf(program, frames, k);
        assert(frames.drop_last() =~= frames.subrange(0, k));
    }
}

proof fn lemma_dispatch_wf(program: Seq<Instruction>, s: MachineView)
    requires
        s.program == program,
        machine_wf(program, s.frames, s.phase),
        calls_wf(s.calls),
        s.phase is Dispatch,
    ensures
        machine_wf(
            transition(program, s, Event::Ack, false).0.program,
            transition(program, s, Event::Ack, false).0.frames,
            transition(program, s, Event::Ack, false).0.phase,
        ),
        calls_wf(transition(program, s, Event::Ack, false).0.calls),
{
    let frames = s.frames;
    lemma_end_of_workflow_wf(s, None);
    if cur_instr(program, frames) is Return {
        lemma_end_of_workflow_wf(s, Some(cur_instr(program, frames)->Return_0@));
    }
    match cur_instr(program, frames) {
        Instruction::If { condition, else_body, .. } => {
            lemma_push_wf(program, frames, Frame { pc: 0, branch: Branch::Then, iteration: 0, max: 0 });
            if else_body is Some {
                lemma_push_wf(program, frames, Frame { pc: 0, branch: Branch::Else, iteration: 0, max: 0 });
            }
        },
        Instruction::Break => {
            lemma_unwind_break(frames);
            if let Some(fs) = unwind_break(frames) {
                lemma_prefix_wf(program, frames, fs.len() as int);
            } else if frames.len() > 1 {
                let k = frames.len() - 1;
                lemma_prefix_wf(program, frames, k);
                assert(frames.drop_last() =~= frames.subrange(0, k));
            }
        },
        _ => {},
    }
}

proof fn lemma_loop_head_wf(program: Seq<Instruction>, s: MachineView, cancelled: bool)
    requires
        machine_wf(program, s.frames, s.phase),
        s.phase is LoopHead,
    ensures
        machine_wf(
            program,
            transition(program, s, Event::Ack, cancelled).0.frames,
            transition(program, s, Event::Ack, cancelled).0.phase,
        ),
{
    let iteration = s.phase->LoopHead_iteration;
    let max = s.phase->LoopHead_max;
    if iteration < max {
        lemma_push_wf(
            program,
            s.frames,
            Frame { pc: 0, branch: Branch::LoopBody, iteration, max },
        );
    }
}

proof fn lemma_probe_wf(program: Seq<Instruction>, s: MachineView, ev: Event)
    requires
        machine_wf(program, s.frames, s.phase),
        s.phase is ProbeIf || s.phase is ProbeLoop,
    ensures
        machine_wf(
            program,
            transition(program, s, ev, false).0.frames,
            transition(program, s, ev, false).0.phase,
        ),
{
    let frames = s.frames;
    match s.phase {
        Phase::ProbeLoop { iteration, max } => {
            lemma_push_wf(
                program,
                frames,
                Frame { pc: 0, branch: Branch::LoopBody, iteration, max },
            );
        },
        _ => {
            lemma_push_wf(program, frames, Frame { pc: 0, branch: Branch::Then, iteration: 0, max: 0 });
            if cur_instr(program, frames)->If_else_body is Some {
                lemma_push_wf(program, frames, Frame { pc: 0, branch: Branch::Else, iteration: 0, max: 0 });
            }
        },
    }
}

proof fn lemma_await_wf(program: Seq<Instruction>, s: MachineView, ev: Event, cancelled: bool)
    requires
        s.program == program,
        machine_wf(program, s.frames, s.phase),
        calls_wf(s.calls),
        s.phase is AwaitWorkflow,
        event_expected(s.phase, ev),
    ensures
        machine_wf(
            transition(program, s, ev, cancelled).0.program,
            transition(program, s, ev, cancelled).0.frames,
            transition(program, s, ev, cancelled).0.phase,
        ),
        calls_wf(transition(program, s, ev, cancelled).0.calls),
        answers_ok(
            transition(program, s, ev, cancelled).0.program,
            transition(program, s, ev, cancelled).0.frames,
            transition(program, s, ev, cancelled).0.phase,
            transition(program, s, ev, cancelled).0.answers,
        ),
{
    let t0 = transition(program, s, ev, cancelled).0;
    if !(ev is Workflow) {
        assert(t0.calls == s.calls);
    }
    if let Event::Workflow(body) = ev {
        let t = transition(program, s, ev, cancelled).0;
        let f0 = Frame { pc: 0, branch: Branch::Root, iteration: 0, max: 0 };
        assert(t.frames == seq![f0]);
        assert(block_of(body@, t.frames, 0) is Some);
        lemma_push_call_wf(
            s.calls,
            CallView {
                name: cur_instr(program, s.frames)->Call_workflow@,
                program,
                frames: s.frames,
            },
        );
    }
}

/// Every step keeps the frames consistent with the program and the phase
/// consistent with the instruction the frames point at.
pub proof fn law_step_keeps_wf(program: Seq<Instruction>, s: MachineView, ev: Event, cancelled: bool)
    requires
        s.program == program,
        machine_wf(program, s.frames, s.phase),
        calls_wf(s.calls),
        answers_ok(program, s.frames, s.phase, s.answers),
        !(s.phase is Finished),
        event_expected(s.phase, ev),
    ensures
        machine_wf(
            transition(program, s, ev, cancelled).0.program,
            transition(program, s, ev, cancelled).0.frames,
            transition(program, s, ev, cancelled).0.phase,
        ),
        calls_wf(transition(program, s, ev, cancelled).0.calls),
        answers_ok(
            transition(program, s, ev, cancelled).0.program,
            transition(program, s, ev, cancelled).0.frames,
            transition(program, s, ev, cancelled).0.phase,
            transition(program, s, ev, cancelled).0.answers,
        ),
{
    match s.phase {
        Phase::ProbeIf => {
            lemma_probe_wf(program, s, ev);
        },
        Phase::ProbeLoop { .. } => {
            lemma_probe_wf(program, s, ev);
        },
        Phase::AwaitWorkflow => {
            lemma_await_wf(program, s, ev, cancelled);
        },
        Phase::Next => {
            lemma_next_wf(program, s, cancelled);
        },
        Phase::Dispatch => {
            lemma_dispatch_wf(program, s);
        },
        Phase::LoopHead { .. } => {
            lemma_loop_head_wf(program, s, cancelled);
        },
        Phase::Complete => {
            lemma_advance_wf(program, s.frames);
        },
        _ => {},
    }
}

/// The frames left by a `Break` end just before the innermost loop body.
pub proof fn lemma_unwind_at(frames: Seq<Frame>, k: int)
    requires
        1 <= k < frames.len(),
        frames[k].branch == Branch::LoopBody,
        forall|j: int| k < j < frames.len() ==> frames[j].branch != Branch::LoopBody,
    ensures
        unwind_break(frames) == Some(frames.subrange(0, k)),
    decreases frames.len(),
{
    if k == frames.len() - 1 {
        assert(frames.drop_last() =~= frames.subrange(0, k));
    } else {
        let p = frames.drop_last();
        assert forall|j: int| k < j < p.len() implies p[j].branch != Branch::LoopBody by {
            assert(p[j] == frames[j]);
        }
        lemma_unwind_at(p, k);
        assert(p.subrange(0, k) =~= frames.subrange(0, k));
    }
}

/// The block of a frame is the child of the instruction its parent frame is
/// at.
pub proof fn lemma_block_step(program: Seq<Instruction>, frames: Seq<Frame>, n: int)
    requires
        frames_wf(program, frames),
        1 <= n < frames.len(),
    ensures
        block_of(program, frames, (n - 1) as nat) is Some,
        frames[n - 1].pc < block_of(program, frames, (n - 1) as nat).unwrap().len(),
        block_of(program, frames, n as nat) == child_block(
            block_of(program, frames, (n - 1) as nat).unwrap()[frames[n - 1].pc as int],
            frames[n].branch,
        ),
        block_of(program, frames, n as nat) is Some,
{
    assert(block_of(program, frames, (n - 1) as nat) is Some);
    assert(block_of(program, frames, n as nat) is Some);
    assert(frames[n - 1].pc < block_of(program, frames, (n - 1) as nat).unwrap().len());
}

/// Cancellation is honored before each instruction and before each loop
/// iteration: the run then ends with `Cancelled`.
pub proof fn law_cancellation(program: Seq<Instruction>, s: MachineView, ev: Event)
    requires
        machine_wf(program, s.frames, s.phase),
        (s.phase is Next && top(s.frames).pc < cur_block(program, s.frames).len()) || (
        s.phase matches Phase::LoopHead { iteration, max } && iteration < max),
    ensures
        transition(program, s, ev, true).1 == ActionView::Done(
            Err::<Option<ValueModel>, RpaErrorView>(RpaErrorView::Cancelled),
        ),
        transition(program, s, ev, true).0.phase is Finished,
{
}

/// `Break` leaves the innermost enclosing loop: the frames that remain are
/// those outside its body, none of the frames left lies in a deeper loop,
/// and the loop instruction counts as completed. Outside any loop it leaves
/// the innermost `If` body, completing the `If`; at the top level of a
/// workflow it ends the workflow without a value (returning to its caller,
/// or ending the run).
pub proof fn law_break_leaves_innermost_loop(program: Seq<Instruction>, s: MachineView, ev: Event, cancelled: bool)
    requires
        machine_wf(program, s.frames, s.phase),
        s.phase is Dispatch,
        cur_instr(program, s.frames) is Break,
    ensures
        ({
            let (t, a) = transition(program, s, ev, cancelled);
            match unwind_break(s.frames) {
                Some(fs) => {
                    &&& t.frames == fs
                    &&& fs.len() < s.frames.len()
                    &&& fs == s.frames.subrange(0, fs.len() as int)
                    &&& s.frames[fs.len() as int].branch == Branch::LoopBody
                    &&& forall|j: int|
                        fs.len() < j < s.frames.len() ==> s.frames[j].branch != Branch::LoopBody
                    &&& cur_instr(program, fs) is Loop
                    &&& t.phase is Complete
                    &&& a == ActionView::Continue
                },
                None => {
                    &&& forall|j: int|
                        1 <= j < s.frames.len() ==> s.frames[j].branch != Branch::LoopBody
                    &&& s.frames.len() > 1 ==> {
                        &&& t.frames == s.frames.drop_last()
                        &&& cur_instr(program, t.frames) is If
                        &&& t.phase is Complete
                        &&& a == ActionView::Continue
                    }
                    &&& s.frames.len() == 1 ==> (t, a) == end_of_workflow(s, None)
                },
            }
        }),
{
    lemma_unwind_break(s.frames);
    if let Some(fs) = unwind_break(s.frames) {
        let k = fs.len() as int;
        lemma_prefix_wf(program, s.frames, k);
        assert(s.frames.subrange(0, k) == fs);
        assert forall|j: int| k < j < s.frames.len() implies s.frames[j].branch
            != Branch::LoopBody by {
            if s.frames[j].branch == Branch::LoopBody {
                lemma_unwind_last_loop(s.frames, j);
            }
        }
    } else if s.frames.len() > 1 {
        let k = s.frames.len() - 1;
        let fs = s.frames.drop_last();
        assert(fs =~= s.frames.subrange(0, k));
        lemma_block_of_agree(program, s.frames, fs, (k - 1) as nat);
        assert(block_of(program, s.frames, k as nat) is Some);
        assert(s.frames[k].branch != Branch::LoopBody);
        assert(s.frames[k].branch != Branch::Root);
    }
}

/// No loop body runs later than the last loop body frame.
proof fn lemma_unwind_last_loop(frames: Seq<Frame>, j: int)
    requires
        1 <= j < frames.len(),
        frames[j].branch == Branch::LoopBody,
    ensures
        unwind_break(frames) matches Some(fs) && fs.len() >= j,
    decreases frames.len(),
{
    if frames.last().branch != Branch::LoopBody {
        assert(j < frames.len() - 1);
        let p = frames.drop_last();
        assert(p[j] == frames[j]);
        lemma_unwind_last_loop(p, j);
    }
}

/// A loop runs its body only while the iteration count is below the
/// maximum: at the head of a loop that reached its maximum the loop
/// completes, and otherwise the body frame records the iteration, which
/// stays below the maximum.
pub proof fn law_loop_bounded(
    program: Seq<Instruction>,
    s: MachineView,
    ev: Event,
    cancelled: bool,
    iteration: u32,
    max: u32,
)
    requires
        machine_wf(program, s.frames, s.phase),
        s.phase == (Phase::LoopHead { iteration, max }),
    ensures
        iteration >= max ==> transition(program, s, ev, cancelled).0.phase is Complete
            && transition(program, s, ev, cancelled).0.frames == s.frames,
        transition(program, s, ev, cancelled).0.frames.len() > s.frames.len() ==> {
            let f = transition(program, s, ev, cancelled).0.frames.last();
            &&& f.branch == Branch::LoopBody
            &&& f.iteration == iteration
            &&& f.iteration < f.max
            &&& f.pc == 0
        },
{
}

/// The count of completed instructions grows by one exactly when an
/// instruction completes, and never otherwise.
pub proof fn law_steps_count_completions(program: Seq<Instruction>, s: MachineView, ev: Event, cancelled: bool)
    ensures
        transition(program, s, ev, cancelled).0.steps == s.steps + (if s.phase is Complete {
            1int
        } else {
            0int
        }),
{
}

/// Variables change only when an `Extract` receives its element, and then
/// only the extracted variable changes: it becomes the element's text, or
/// null when the element has none; or when a called workflow is entered,
/// and then its arguments are bound.
pub proof fn law_only_extract_writes(program: Seq<Instruction>, s: MachineView, ev: Event, cancelled: bool)
    requires
        machine_wf(program, s.frames, s.phase),
    ensures
        ({
            let t = transition(program, s, ev, cancelled).0;
            if s.phase is AwaitTarget && ev is Element && cur_instr(program, s.frames) is Extract {
                t.vars == s.vars.insert(
                    cur_instr(program, s.frames)->Extract_into_var@,
                    text_value(ev->Element_0.text),
                )
            } else if s.phase is AwaitWorkflow && ev is Workflow {
                t.vars == bind_args(
                    s.vars,
                    entries_model(
                        cur_instr(program, s.frames)->Call_args@,
                        cur_instr(program, s.frames)->Call_args@.len(),
                    ),
                )
            } else {
                t.vars == s.vars
            }
        }),
{
}

/// `Return` ends the workflow being run with its value: in a called
/// workflow, the caller's `Call` completes and the value is reported as the
/// call's result; at the top level, the run ends with the value.
pub proof fn law_return_ends_run(program: Seq<Instruction>, s: MachineView, ev: Event, cancelled: bool)
    requires
        machine_wf(program, s.frames, s.phase),
        s.phase is Dispatch,
        cur_instr(program, s.frames) is Return,
    ensures
        ({
            let v = cur_instr(program, s.frames)->Return_0@;
            let (t, a) = transition(program, s, ev, cancelled);
            &&& s.calls.len() == 0 ==> {
                &&& a == ActionView::Done(Ok::<Option<ValueModel>, RpaErrorView>(Some(v)))
                &&& t.phase is Finished
            }
            &&& s.calls.len() > 0 ==> {
                &&& a == ActionView::Notify(
                    NoticeView::WorkflowReturn { name: s.calls.last().name, result: Some(v) },
                )
                &&& t.program == s.calls.last().program
                &&& t.frames == s.calls.last().frames
                &&& t.calls == s.calls.drop_last()
                &&& t.phase is Complete
            }
        }),
{
}

/// `Call` runs the named workflow: once its instructions arrive, its
/// arguments are bound as variables and it runs from its first instruction,
/// with the caller's place kept until it returns.
pub proof fn law_call_enters_workflow(
    program: Seq<Instruction>,
    s: MachineView,
    body: Vec<Instruction>,
    cancelled: bool,
)
    requires
        machine_wf(program, s.frames, s.phase),
        s.phase is Dispatch || s.phase is AwaitWorkflow,
        cur_instr(program, s.frames) is Call,
    ensures
        ({
            let instr = cur_instr(program, s.frames);
            let (t, a) = transition(program, s, Event::Workflow(body), cancelled);
            &&& s.phase is Dispatch ==> a == ActionView::LoadWorkflow(instr->Call_workflow@)
                && t.phase is AwaitWorkflow
            &&& s.phase is AwaitWorkflow ==> {
                &&& t.program == body@
                &&& t.frames == seq![Frame { pc: 0, branch: Branch::Root, iteration: 0, max: 0 }]
                &&& t.phase is Next
                &&& t.calls == s.calls.push(
                    CallView { name: instr->Call_workflow@, program, frames: s.frames },
                )
                &&& t.vars == bind_args(
                    s.vars,
                    entries_model(instr->Call_args@, instr->Call_args@.len()),
                )
                &&& a == ActionView::Notify(NoticeView::WorkflowCall { name: instr->Call_workflow@ })
            }
        }),
{
}

/// An `If` on whether an element exists asks the screen: dispatching it
/// asks whether an element matching the target can be found, and the answer
/// picks the branch. A found element enters the `then` body; otherwise the
/// `else` body is entered, or the `If` completes when it has none.
pub proof fn law_element_exists_decides_if(
    program: Seq<Instruction>,
    s: MachineView,
    target: Target,
    ev: Event,
)
    requires
        machine_wf(program, s.frames, s.phase),
        s.phase is Dispatch,
        cur_instr(program, s.frames) matches Instruction::If { condition, .. }
            && condition == (Condition::ElementExists { target }),
        ev is Element || ev is NotFound,
    ensures
        ({
            let else_body = cur_instr(program, s.frames)->If_else_body;
            let (t, a) = transition(program, s, Event::Ack, false);
            let (u, b) = transition(program, t, ev, false);
            &&& a == ActionView::Probe(ProbeQuery::Exists(target))
            &&& t.phase is ProbeIf
            &&& t.frames == s.frames
            &&& b == ActionView::Continue
            &&& ev is Element ==> u.phase is Next && u.frames == s.frames.push(
                Frame { pc: 0, branch: Branch::Then, iteration: 0, max: 0 },
            )
            &&& (ev is NotFound && else_body is Some) ==> u.phase is Next && u.frames
                == s.frames.push(Frame { pc: 0, branch: Branch::Else, iteration: 0, max: 0 })
            &&& (ev is NotFound && else_body is None) ==> u.phase is Complete && u.frames
                == s.frames
        }),
{
    let c = Condition::ElementExists { target };
    assert(probes_of(c) =~= seq![ProbeQuery::Exists(target)]);
    let t = transition(program, s, Event::Ack, false).0;
    assert(cur_condition(program, t.frames) == c);
    assert(t.answers.push(answer_of(ProbeQuery::Exists(target), ev)) =~= seq![ev is Element]);
}

/// A visibility condition holds only for an element that was found with a
/// non-empty area, and an expression condition only for a truthy value: the
/// answer recorded for each question is exactly that.
pub proof fn law_probe_answers(target: Target, js: String, ev: Event)
    ensures
        answer_of(ProbeQuery::Exists(target), ev) <==> ev is Element,
        answer_of(ProbeQuery::Visible(target), ev) <==> (ev matches Event::Element(e) && e.bounds.width
            > 0 && e.bounds.height > 0),
        answer_of(ProbeQuery::Expression(js), ev) <==> (ev matches Event::Value(v) && truthy(v@)),
{
}

/// While a loop's condition asks the screen, the body runs for an iteration
/// only when the answers make the condition hold; otherwise the loop
/// completes.
pub proof fn law_probed_loop_runs_only_when_condition_holds(
    program: Seq<Instruction>,
    s: MachineView,
    ev: Event,
)
    requires
        machine_wf(program, s.frames, s.phase),
        answers_ok(program, s.frames, s.phase, s.answers),
        s.phase matches Phase::ProbeLoop { .. },
        s.answers.len() + 1 == probes_of(cur_condition(program, s.frames)).len(),
        !(ev is Failed),
    ensures
        ({
            let c = cur_condition(program, s.frames);
            let q = probes_of(c)[s.answers.len() as int];
            let holds = cond_holds(c, s.vars, s.answers.push(answer_of(q, ev)), 0);
            let (t, a) = transition(program, s, ev, false);
            &&& a == ActionView::Continue
            &&& holds ==> t.phase is Next && t.frames == s.frames.push(
                Frame {
                    pc: 0,
                    branch: Branch::LoopBody,
                    iteration: s.phase->ProbeLoop_iteration,
                    max: s.phase->ProbeLoop_max,
                },
            )
            &&& !holds ==> t.phase is Complete && t.frames == s.frames
        }),
{
}

/// Carrying out an instruction asks for its own work: an instruction that
/// acts on an element asks to find that instruction's target; a key press,
/// a mouse move, press or release asks the actor for exactly that, with the
/// instruction's key, modifiers, button and position; a wait sleeps for its
/// duration; waiting for an element starts polling for its target; a drag
/// first finds where it starts; a log writes the instruction's message.
pub proof fn law_dispatch_requests(program: Seq<Instruction>, s: MachineView, ev: Event, cancelled: bool)
    requires
        machine_wf(program, s.frames, s.phase),
        s.phase is Dispatch,
    ensures
        ({
            let a = transition(program, s, ev, cancelled).1;
            let p = transition(program, s, ev, cancelled).0.phase;
            let i = cur_instr(program, s.frames);
            &&& (i matches Instruction::Click { target, .. } ==> a == ActionView::Find(target)
                && p is AwaitTarget)
            &&& (i matches Instruction::DoubleClick { target } ==> a == ActionView::Find(target)
                && p is AwaitTarget)
            &&& (i matches Instruction::Input { target, .. } ==> a == ActionView::Find(target)
                && p is AwaitTarget)
            &&& (i matches Instruction::Scroll { target, .. } ==> a == ActionView::Find(target)
                && p is AwaitTarget)
            &&& (i matches Instruction::SetForeground { target } ==> a == ActionView::Find(target)
                && p is AwaitTarget)
            &&& (i matches Instruction::Extract { target, .. } ==> a == ActionView::Find(target)
                && p is AwaitTarget)
            &&& (i matches Instruction::KeyPress { key, modifiers } ==> a == ActionView::Act(
                ActorCallView::KeyPress { key: key@, modifiers: modifiers@ },
            ))
            &&& (i matches Instruction::MouseMove { x, y } ==> a == ActionView::Act(
                ActorCallView::MouseMove { x, y },
            ))
            &&& (i matches Instruction::MouseDown { button, x, y } ==> a == ActionView::Act(
                ActorCallView::MouseDown { button, x, y },
            ))
            &&& (i matches Instruction::MouseUp { button, x, y } ==> a == ActionView::Act(
                ActorCallView::MouseUp { button, x, y },
            ))
            &&& (i matches Instruction::Wait { duration_ms } ==> a == ActionView::Sleep(
                duration_ms,
            ))
            &&& (i matches Instruction::WaitFor { target, .. } ==> a == ActionView::Poll {
                target,
                first: true,
            })
            &&& (i matches Instruction::Drag { from, .. } ==> a == ActionView::Find(from))
            &&& (i matches Instruction::Log { message, level } ==> a == ActionView::Log {
                level,
                message: message@,
            })
        }),
{
}

/// When the element an instruction searched for arrives, the actor is asked
/// to act on exactly that element as the instruction says: a click with the
/// instruction's button, a double click, typing the instruction's text
/// (clearing first as it says), scrolling in its direction by its amount,
/// bringing the element to the foreground; an extraction sets its variable
/// to the element's text (null when it has none). A failed search ends the
/// run with its error.
pub proof fn law_element_actions(program: Seq<Instruction>, s: MachineView, ev: Event, cancelled: bool)
    requires
        machine_wf(program, s.frames, s.phase),
        s.phase is AwaitTarget,
    ensures
        ({
            let (t, a) = transition(program, s, ev, cancelled);
            let i = cur_instr(program, s.frames);
            &&& (ev matches Event::Element(e) ==> {
                &&& (i matches Instruction::Click { button, .. } ==> a == ActionView::Act(
                    ActorCallView::Click { element: e, button },
                ) && t.phase is AwaitAct)
                &&& (i matches Instruction::DoubleClick { .. } ==> a == ActionView::Act(
                    ActorCallView::DoubleClick { element: e },
                ) && t.phase is AwaitAct)
                &&& (i matches Instruction::Input { text, clear_first, .. } ==> a
                    == ActionView::Act(
                    ActorCallView::InputText { element: e, text: text@, clear_first },
                ) && t.phase is AwaitAct)
                &&& (i matches Instruction::Scroll { direction, amount, .. } ==> a
                    == ActionView::Act(ActorCallView::Scroll { element: e, direction, amount })
                    && t.phase is AwaitAct)
                &&& (i matches Instruction::SetForeground { .. } ==> a == ActionView::Act(
                    ActorCallView::SetForeground { element: e },
                ) && t.phase is AwaitAct)
                &&& (i matches Instruction::Extract { into_var, .. } ==> {
                    &&& t.vars.dom().contains(into_var@)
                    &&& (e.text matches Some(x) ==> t.vars[into_var@] == ValueModel::Str(x@))
                    &&& (e.text is None ==> t.vars[into_var@] == ValueModel::Null)
                    &&& forall|k: Seq<char>| k != into_var@ ==> t.vars.dom().contains(k)
                        == s.vars.dom().contains(k) && t.vars[k] == s.vars[k]
                })
                &&& t.frames == s.frames
            })
            &&& (ev matches Event::Failed(err) ==> a == ActionView::Done(
                Err::<Option<ValueModel>, RpaErrorView>(err@),
            ) && t.phase is Finished)
        }),
{
}

/// Waiting for an element polls until it is found or the instruction's
/// timeout has passed: a found element completes the instruction; a search
/// that found nothing sleeps the instruction's interval before searching
/// again, unless the time since the first search has reached the timeout,
/// which ends the run with a timeout error naming the target.
pub proof fn law_wait_for(program: Seq<Instruction>, s: MachineView, ev: Event, cancelled: bool)
    requires
        machine_wf(program, s.frames, s.phase),
        s.phase is AwaitPoll,
    ensures
        ({
            let (t, a) = transition(program, s, ev, cancelled);
            let i = cur_instr(program, s.frames);
            &&& ev is Element ==> t.phase is Complete && a == ActionView::Continue
            &&& (ev matches Event::NotFound { elapsed_ms, target_debug } ==> {
                &&& elapsed_ms >= i->WaitFor_timeout_ms ==> a == ActionView::Done(
                    Err::<Option<ValueModel>, RpaErrorView>(
                        RpaErrorView::Timeout(i->WaitFor_timeout_ms, target_debug@),
                    ),
                )
                &&& elapsed_ms < i->WaitFor_timeout_ms ==> a == ActionView::Sleep(
                    i->WaitFor_interval_ms,
                ) && t.phase is AwaitPollSleep
            })
        }),
{
}

/// A drag presses at the center of the element it starts from and releases
/// at the center of the element it ends on, with the instruction's button:
/// it moves to the start, presses, pauses 50 ms, moves to the end and
/// releases there.
pub proof fn law_drag(program: Seq<Instruction>, s: MachineView, ev: Event, cancelled: bool)
    requires
        machine_wf(program, s.frames, s.phase),
        event_expected(s.phase, ev),
        !(ev is Failed),
    ensures
        ({
            let (t, a) = transition(program, s, ev, cancelled);
            let button = cur_instr(program, s.frames)->Drag_button;
            &&& (s.phase is AwaitDragFrom ==> (ev matches Event::Element(e) ==> a
                == ActionView::Find(cur_instr(program, s.frames)->Drag_to) && t.phase == (
            Phase::AwaitDragTo { from: e })))
            &&& (s.phase matches Phase::AwaitDragTo { from } ==> (ev matches Event::Element(e) ==> {
                let fx = from.bounds.center_x() as i32;
                let fy = from.bounds.center_y() as i32;
                &&& a == ActionView::Act(ActorCallView::MouseMove { x: fx, y: fy })
                &&& t.phase == (Phase::Drag {
                    stage: 1,
                    from: (fx, fy),
                    to: (e.bounds.center_x() as i32, e.bounds.center_y() as i32),
                })
            }))
            &&& (s.phase matches Phase::Drag { stage, from, to } ==> {
                &&& stage == 1 ==> a == ActionView::Act(
                    ActorCallView::MouseDown { button, x: from.0, y: from.1 },
                )
                &&& stage == 2 ==> a == ActionView::Sleep(50)
                &&& stage == 3 ==> a == ActionView::Act(ActorCallView::MouseMove { x: to.0, y: to.1 })
                &&& stage == 4 ==> a == ActionView::Act(
                    ActorCallView::MouseUp { button, x: to.0, y: to.1 },
                )
            })
        }),
{
}

// ---------------------------------------------------------------------
// The executor
// ---------------------------------------------------------------------

/// What a dispatched instruction does to the frames.
enum FrameOp {
    Enter(Branch),
    LeaveLoop,
}

/// How an instruction uses the element found for it.
enum TargetUse {
    Click(MouseButton),
    DoubleClick,
    Input(String, bool),
    Scroll(ScrollDirection, u32),
    SetForeground,
    Extract(String),
}

/// Copies a list of modifier keys.
fn copy_modifiers(m: &Vec<ModifierKey>) -> (r: Vec<ModifierKey>)
    ensures
        r@ == m@,
{
    let mut r: Vec<ModifierKey> = Vec::new();
    let mut i: usize = 0;
    while i < m.len()
        invariant
            i <= m@.len(),
            r@ == m@.subrange(0, i as int),
        decreases m.len() - i,
    {
        r.push(m[i]);
        i = i + 1;
        assert(r@ =~= m@.subrange(0, i as int));
    }
    assert(r@ =~= m@);
    r
}

/// The phase and the work that an instruction without control flow starts
/// with.
fn simple_step(instr: &Instruction) -> (r: (Phase, Action))
    requires
        !is_control(*instr),
    ensures
        r.0 == simple_plan(*instr).0,
        r.1@ == simple_plan(*instr).1,
{
    match instr {
        Instruction::Click { target, .. } => (Phase::AwaitTarget, Action::Find(target.clone())),
        Instruction::DoubleClick { target } => (Phase::AwaitTarget, Action::Find(target.clone())),
        Instruction::Input { target, .. } => (Phase::AwaitTarget, Action::Find(target.clone())),
        Instruction::Scroll { target, .. } => (Phase::AwaitTarget, Action::Find(target.clone())),
        Instruction::SetForeground { target } => (
            Phase::AwaitTarget,
            Action::Find(target.clone()),
        ),
        Instruction::Extract { target, .. } => (Phase::AwaitTarget, Action::Find(target.clone())),
        Instruction::KeyPress { key, modifiers } => (
            Phase::AwaitAct,
            Action::Act(
                ActorCall::KeyPress { key: key.clone(), modifiers: copy_modifiers(modifiers) },
            ),
        ),
        Instruction::Wait { duration_ms } => (Phase::AwaitAct, Action::Sleep(*duration_ms)),
        Instruction::WaitFor { target, .. } => (
            Phase::AwaitPoll,
            Action::Poll { target: target.clone(), first: true },
        ),
        Instruction::Log { message, level } => (
            Phase::AwaitAct,
            Action::Log { level: *level, message: message.clone() },
        ),
        Instruction::MouseMove { x, y } => (
            Phase::AwaitAct,
            Action::Act(ActorCall::MouseMove { x: *x, y: *y }),
        ),
        Instruction::MouseDown { button, x, y } => (
            Phase::AwaitAct,
            Action::Act(ActorCall::MouseDown { button: *button, x: *x, y: *y }),
        ),
        Instruction::MouseUp { button, x, y } => (
            Phase::AwaitAct,
            Action::Act(ActorCall::MouseUp { button: *button, x: *x, y: *y }),
        ),
        Instruction::Drag { from, .. } => (Phase::AwaitDragFrom, Action::Find(from.clone())),
        Instruction::Screenshot { region, save_path, .. } => (
            Phase::AwaitAct,
            Action::Act(
                ActorCall::Screenshot { region: *region, save_path: clone_opt_string(save_path) },
            ),
        ),
        Instruction::MoveWindow { .. } => (
            Phase::Finished,
            Action::Done(
                Err(RpaError::InvalidInstruction(string_of("MoveWindow requires WindowPerceptor"))),
            ),
        ),
        Instruction::OcrRegion { .. } => (
            Phase::Finished,
            Action::Done(
                Err(
                    RpaError::InvalidInstruction(
                        string_of("OcrRegion requires an OcrEngine to be wired to the VM"),
                    ),
                ),
            ),
        ),
        _ => (Phase::Next, Action::Continue),
    }
}

/// A call under way: the called workflow's name, and where the caller
/// stands.
struct CallRecord {
    name: String,
    program: Vec<Instruction>,
    frames: Vec<Frame>,
}

spec fn call_view_of(c: CallRecord) -> CallView {
    CallView { name: c.name@, program: c.program@, frames: c.frames@ }
}

/// A value's content, if there is one.
pub open spec fn opt_model(v: Option<Value>) -> Option<ValueModel> {
    match v {
        Some(x) => Some(x@),
        None => None,
    }
}

/// The executor of one workflow run.
pub struct Executor {
    program: Vec<Instruction>,
    calls: Vec<CallRecord>,
    frames: Vec<Frame>,
    answers: Vec<bool>,
    phase: Phase,
    steps_executed: u32,
    ctx: Context,
}

impl View for Executor {
    type V = MachineView;

    closed spec fn view(&self) -> MachineView {
        MachineView {
            program: self.program@,
            calls: self.calls@.map_values(|c: CallRecord| call_view_of(c)),
            frames: self.frames@,
            phase: self.phase,
            answers: self.answers@,
            steps: self.steps_executed as nat,
            vars: self.ctx.vars_map(),
        }
    }
}

impl Executor {
    /// The instructions being run.
    pub closed spec fn program(&self) -> Seq<Instruction> {
        self.program@
    }

    /// The context of the run.
    pub closed spec fn ctx(&self) -> Context {
        self.ctx
    }

    pub closed spec fn wf(&self) -> bool {
        &&& machine_wf(self.program@, self.frames@, self.phase)
        &&& calls_wf(self@.calls)
        &&& answers_ok(self.program@, self.frames@, self.phase, self.answers@)
        &&& self.ctx.vars_map() == self@.vars
        &&& self.ctx.call_stack@.len() >= self.calls@.len()
    }

    /// An executor about to run `program` in `ctx`.
    pub fn new(program: Vec<Instruction>, ctx: Context) -> (r: Self)
        ensures
            r.wf(),
            r.program() == program@,
            r@.program == program@,
            r@.calls.len() == 0,
            r@.frames == seq![Frame { pc: 0, branch: Branch::Root, iteration: 0, max: 0 }],
            r@.phase is Next,
            r@.steps == 0,
            r@.vars == ctx.vars_map(),
            r.ctx() == ctx,
    {
        let mut frames: Vec<Frame> = Vec::new();
        frames.push(Frame { pc: 0, branch: Branch::Root, iteration: 0, max: 0 });
        let r = Executor {
            program,
            calls: Vec::new(),
            frames,
            answers: Vec::new(),
            phase: Phase::Next,
            steps_executed: 0,
            ctx,
        };
        assert(r@.calls =~= Seq::<CallView>::empty());
        assert(r.frames@ =~= seq![Frame { pc: 0, branch: Branch::Root, iteration: 0, max: 0 }]);
        assert(block_of(r.program@, r.frames@, 0) is Some);
        r
    }

    /// The number of instructions completed so far.
    pub fn steps_executed(&self) -> (r: u32)
        ensures
            r == self@.steps,
    {
        self.steps_executed
    }

    /// The context of the run.
    pub fn context(&self) -> (r: &Context)
        requires
            self.wf(),
        ensures
            *r == self.ctx(),
            r.vars_map() == self@.vars,
    {
        &self.ctx
    }

    /// The block of the innermost frame.
    fn cur_block(&self) -> (r: &Vec<Instruction>)
        requires
            frames_wf(self.program@, self.frames@),
        ensures
            r@ == cur_block(self.program@, self.frames@),
    {
        let mut blk: &Vec<Instruction> = &self.program;
        let mut n: usize = 1;
        let ghost program = self.program@;
        let ghost frames = self.frames@;
        while n < self.frames.len()
            invariant
                frames_wf(program, frames),
                program == self.program@,
                frames == self.frames@,
                1 <= n <= frames.len(),
                block_of(program, frames, (n - 1) as nat) == Some(blk@),
            decreases self.frames.len() - n,
        {
            let pc = self.frames[n - 1].pc;
            let br = self.frames[n].branch;
            proof {
                lemma_block_step(program, frames, n as int);
            }
            let instr: &Instruction = &blk[pc];
            blk =
            match br {
                Branch::LoopBody => match instr {
                    Instruction::Loop { body, .. } => body,
                    _ => blk,
                },
                Branch::Then => match instr {
                    Instruction::If { then_body, .. } => then_body,
                    _ => blk,
                },
                Branch::Else => match instr {
                    Instruction::If { else_body, .. } => match else_body {
                        Some(e) => e,
                        None => blk,
                    },
                    _ => blk,
                },
                Branch::Root => blk,
            };
            n = n + 1;
        }
        blk
    }

    /// The instruction the innermost frame is at.
    fn cur_instr(&self) -> (r: &Instruction)
        requires
            frames_wf(self.program@, self.frames@),
            top(self.frames@).pc < cur_block(self.program@, self.frames@).len(),
        ensures
            *r == cur_instr(self.program@, self.frames@),
    {
        let blk = self.cur_block();
        let pc = self.frames[self.frames.len() - 1].pc;
        &blk[pc]
    }

    /// The instruction the innermost frame is at, while one is being run.
    pub fn current_instruction(&self) -> (r: Option<&Instruction>)
        requires
            self.wf(),
        ensures
            top(self@.frames).pc < cur_block(self.program(), self@.frames).len() ==> r == Some(
                &cur_instr(self.program(), self@.frames),
            ),
            top(self@.frames).pc >= cur_block(self.program(), self@.frames).len() ==> r is None,
    {
        let blk = self.cur_block();
        let pc = self.frames[self.frames.len() - 1].pc;
        if pc < blk.len() {
            Some(&blk[pc])
        } else {
            None
        }
    }

    /// The number of frames that a `Break` leaves.
    fn break_target(&self) -> (r: Option<usize>)
        requires
            self.frames@.len() >= 1,
        ensures
            match unwind_break(self.frames@) {
                Some(fs) => r == Some(fs.len() as usize),
                None => r is None,
            },
    {
        let mut k = self.frames.len() - 1;
        while k >= 1
            invariant
                k < self.frames@.len(),
                forall|j: int| k < j < self.frames@.len() ==> self.frames@[j].branch
                    != Branch::LoopBody,
            decreases k,
        {
            if self.frames[k].branch == Branch::LoopBody {
                proof {
                    lemma_unwind_at(self.frames@, k as int);
                }
                return Some(k);
            }
            k = k - 1;
        }
        proof {
            lemma_unwind_break(self.frames@);
            if let Some(fs) = unwind_break(self.frames@) {
                assert(self.frames@[fs.len() as int].branch == Branch::LoopBody);
            }
        }
        None
    }

    fn finish_with(&mut self, r: Result<Option<Value>, RpaError>) -> (a: Action)
        ensures
            final(self).program == old(self).program,
            final(self).frames == old(self).frames,
            final(self).steps_executed == old(self).steps_executed,
            final(self).ctx == old(self).ctx,
            final(self).calls == old(self).calls,
            final(self).answers == old(self).answers,
            final(self).phase is Finished,
            a == Action::Done(r),
    {
        self.phase = Phase::Finished;
        Action::Done(r)
    }

    /// The condition that the current `If` or `Loop` tests.
    fn cur_condition(&self) -> (r: &Condition)
        requires
            machine_wf(self.program@, self.frames@, self.phase),
            self.phase is ProbeIf || self.phase is ProbeLoop,
        ensures
            *r == cur_condition(self.program@, self.frames@),
    {
        match self.cur_instr() {
            Instruction::If { condition, .. } => condition,
            Instruction::Loop { condition, .. } => match condition {
                Some(c) => c,
                None => vstd::pervasive::unreached(),
            },
            _ => vstd::pervasive::unreached(),
        }
    }

    /// An answer to the next question of the condition being decided.
    fn exec_probe(&mut self, ev: Event) -> (r: Action)
        requires
            old(self).wf(),
            old(self)@.phase is ProbeIf || old(self)@.phase is ProbeLoop,
        ensures
            final(self).program == old(self).program,
            final(self).calls == old(self).calls,
            final(self).ctx == old(self).ctx,
            final(self)@ == transition(old(self).program@, old(self)@, ev, false).0,
            r@ == transition(old(self).program@, old(self)@, ev, false).1,
    {
        let qs = condition_probes(self.cur_condition());
        let k = self.answers.len();
        let q = qs[k].clone();
        let has_else = match self.cur_instr() {
            Instruction::If { else_body, .. } => else_body.is_some(),
            _ => false,
        };
        let failed = match (&q, &ev) {
            (ProbeQuery::Expression(_), Event::Failed(_)) => true,
            _ => false,
        };
        if failed {
            match ev {
                Event::Failed(err) => {
                    return self.finish_with(Err(err));
                },
                _ => {},
            }
        }
        let a = match (&q, &ev) {
            (ProbeQuery::Exists(_), Event::Element(_)) => true,
            (ProbeQuery::Visible(_), Event::Element(e)) => e.bounds.width > 0 && e.bounds.height
                > 0,
            (ProbeQuery::Expression(_), Event::Value(v)) => value_truthy(v),
            _ => false,
        };
        self.answers.push(a);
        if self.answers.len() < qs.len() {
            let next = qs[self.answers.len()].clone();
            return Action::Probe(next);
        }
        let holds = evaluate_condition(self.cur_condition(), &self.ctx, &self.answers);
        self.answers = Vec::new();
        match self.phase {
            Phase::ProbeLoop { iteration, max } => {
                if holds {
                    self.frames.push(Frame { pc: 0, branch: Branch::LoopBody, iteration, max });
                    self.phase = Phase::Next;
                } else {
                    self.phase = Phase::Complete;
                }
            },
            _ => {
                if holds {
                    self.frames.push(Frame { pc: 0, branch: Branch::Then, iteration: 0, max: 0 });
                    self.phase = Phase::Next;
                } else if has_else {
                    self.frames.push(Frame { pc: 0, branch: Branch::Else, iteration: 0, max: 0 });
                    self.phase = Phase::Next;
                } else {
                    self.phase = Phase::Complete;
                }
            },
        }
        Action::Continue
    }

    /// Returns from the innermost call to its caller.
    fn return_from_call(&mut self, result: Option<Value>) -> (r: Action)
        requires
            old(self).wf(),
            old(self).calls@.len() > 0,
        ensures
            final(self)@ == end_of_workflow(old(self)@, opt_model(result)).0,
            r@ == end_of_workflow(old(self)@, opt_model(result)).1,
            final(self).ctx.vars == old(self).ctx.vars,
            final(self).ctx.retry_config == old(self).ctx.retry_config,
            final(self).ctx.call_stack@ == old(self).ctx.call_stack@.drop_last(),
            final(self)@.calls.len() < old(self)@.calls.len(),
    {
        let ghost old_calls = self.calls@;
        let rec = self.calls.pop().unwrap();
        let CallRecord { name, program, frames } = rec;
        self.program = program;
        self.frames = frames;
        self.phase = Phase::Complete;
        let _ = self.ctx.pop_call();
        assert(self@.calls =~= old(self)@.calls.drop_last());
        Action::Notify(Notice::WorkflowReturn { name, result })
    }

    /// The workflow a `Call` asked for arrived, or could not be had.
    fn exec_await_workflow(&mut self, ev: Event) -> (r: Action)
        requires
            old(self).wf(),
            old(self)@.phase is AwaitWorkflow,
            ev is Workflow || ev is Failed,
        ensures
            final(self)@ == transition(old(self).program@, old(self)@, ev, false).0,
            r@ == transition(old(self).program@, old(self)@, ev, false).1,
            final(self).ctx.retry_config == old(self).ctx.retry_config,
            final(self)@.calls.len() >= old(self)@.calls.len(),
            final(self)@.calls.len() == old(self)@.calls.len() ==> final(self).ctx.call_stack
                == old(self).ctx.call_stack,
            final(self)@.calls.len() > old(self)@.calls.len() ==> {
                &&& final(self)@.calls.len() == old(self)@.calls.len() + 1
                &&& final(self).ctx.call_stack@.drop_last() == old(self).ctx.call_stack@
                &&& final(self).ctx.call_stack@.len() == old(self).ctx.call_stack@.len() + 1
                &&& final(self).ctx.call_stack@.last()@ == final(self)@.calls.last().name
            },
    {
        match ev {
            Event::Failed(err) => self.finish_with(Err(err)),
            Event::Workflow(body) => {
                let ghost s0 = self@;
                let ghost args = cur_instr(self.program@, self.frames@)->Call_args@;
                let ghost vars0 = self@.vars;
                let n = match self.cur_instr() {
                    Instruction::Call { args, .. } => args.len(),
                    _ => 0,
                };
                let mut i: usize = 0;
                while i < n
                    invariant
                        self.wf(),
                        self.program == old(self).program,
                        self.frames == old(self).frames,
                        self.calls == old(self).calls,
                        self.phase == old(self).phase,
                        self.steps_executed == old(self).steps_executed,
                        self.answers == old(self).answers,
                        frames_wf(self.program@, self.frames@),
                        top(self.frames@).pc < cur_block(self.program@, self.frames@).len(),
                        cur_instr(self.program@, self.frames@) is Call,
                        args == cur_instr(self.program@, self.frames@)->Call_args@,
                        n == args.len(),
                        i <= n,
                        self.ctx.call_stack == old(self).ctx.call_stack,
                        self.ctx.retry_config == old(self).ctx.retry_config,
                        self.ctx.vars_map() == bind_args(vars0, entries_model(args, i as nat)),
                    decreases n - i,
                {
                    let (k, v) = match self.cur_instr() {
                        Instruction::Call { args, .. } => (args[i].0.clone(), args[i].1.clone()),
                        _ => (String::new(), Value::Null),
                    };
                    proof {
                        lemma_entries_model(args, (i + 1) as nat);
                        lemma_entries_model(args, i as nat);
                        assert(entries_model(args, (i + 1) as nat) =~= entries_model(
                            args,
                            i as nat,
                        ).push((k@, v@)));
                        assert(entries_model(args, (i + 1) as nat).drop_last() =~= entries_model(
                            args,
                            i as nat,
                        ));
                    }
                    self.ctx.set_var(k, v);
                    i = i + 1;
                }
                let name = match self.cur_instr() {
                    Instruction::Call { workflow, .. } => workflow.clone(),
                    _ => String::new(),
                };
                let shown = name.clone();
                self.ctx.push_call(name.clone());
                let mut program = body;
                std::mem::swap(&mut program, &mut self.program);
                let mut frames: Vec<Frame> = Vec::new();
                frames.push(Frame { pc: 0, branch: Branch::Root, iteration: 0, max: 0 });
                std::mem::swap(&mut frames, &mut self.frames);
                self.calls.push(CallRecord { name, program, frames });
                self.phase = Phase::Next;
                proof {
                    assert(self@.calls =~= s0.calls.push(
                        CallView {
                            name: cur_instr(s0.program, s0.frames)->Call_workflow@,
                            program: s0.program,
                            frames: s0.frames,
                        },
                    ));
                    assert(self@.frames =~= seq![
                        Frame { pc: 0, branch: Branch::Root, iteration: 0, max: 0 },
                    ]);
                }
                Action::Notify(Notice::WorkflowCall { name: shown })
            },
            _ => Action::Continue,
        }
    }

    fn exec_next(&mut self, cancelled: bool) -> (r: Action)
        requires
            old(self).wf(),
            old(self)@.phase is Next,
        ensures
            final(self).ctx.vars == old(self).ctx.vars,
            final(self).ctx.retry_config == old(self).ctx.retry_config,
            final(self)@.calls.len() <= old(self)@.calls.len(),
            final(self)@.calls.len() == old(self)@.calls.len() ==> final(self).ctx.call_stack
                == old(self).ctx.call_stack,
            final(self)@.calls.len() < old(self)@.calls.len() ==> final(self).ctx.call_stack@
                == old(self).ctx.call_stack@.drop_last(),
            final(self)@ == transition(old(self).program@, old(self)@, Event::Ack, cancelled).0,
            r@ == transition(old(self).program@, old(self)@, Event::Ack, cancelled).1,
    {
        let n = self.frames.len();
        let t = self.frames[n - 1];
        let blen = self.cur_block().len();
        if t.pc < blen {
            if cancelled {
                return self.finish_with(Err(RpaError::Cancelled));
            }
            self.phase = Phase::Dispatch;
            Action::Notify(Notice::InstructionStart { index: t.pc })
        } else {
            match t.branch {
                Branch::Root => if self.calls.len() > 0 {
                    self.return_from_call(None)
                } else {
                    self.finish_with(Ok(None))
                },
                Branch::LoopBody => {
                    assert(self.frames@[n - 1].branch == Branch::LoopBody);
                    self.frames.pop();
                    self.phase = Phase::LoopHead { iteration: t.iteration + 1, max: t.max };
                    Action::Continue
                },
                _ => {
                    self.frames.pop();
                    self.phase = Phase::Complete;
                    Action::Continue
                },
            }
        }
    }

    fn exec_complete(&mut self) -> (r: Action)
        requires
            old(self).wf(),
            old(self)@.phase is Complete,
            old(self).steps_executed < u32::MAX,
        ensures
            final(self).program == old(self).program,
            final(self).ctx == old(self).ctx,
            final(self)@ == transition(old(self).program@, old(self)@, Event::Ack, false).0,
            r@ == transition(old(self).program@, old(self)@, Event::Ack, false).1,
    {
        let n = self.frames.len();
        let t = self.frames[n - 1];
        let blen = self.cur_block().len();
        assert(t.pc < blen);
        self.frames.set(n - 1, Frame { pc: t.pc + 1, ..t });
        self.steps_executed = self.steps_executed + 1;
        self.phase = Phase::Next;
        Action::Notify(Notice::InstructionComplete { index: t.pc })
    }

    fn exec_loop_head(&mut self, cancelled: bool) -> (r: Action)
        requires
            old(self).wf(),
            old(self)@.phase is LoopHead,
        ensures
            final(self).program == old(self).program,
            final(self).ctx == old(self).ctx,
            final(self)@ == transition(old(self).program@, old(self)@, Event::Ack, cancelled).0,
            r@ == transition(old(self).program@, old(self)@, Event::Ack, cancelled).1,
    {
        let (iteration, max) = match self.phase {
            Phase::LoopHead { iteration, max } => (iteration, max),
            _ => (0, 0),
        };
        if iteration < max {
            if cancelled {
                return self.finish_with(Err(RpaError::Cancelled));
            }
            let (first, proceed) = match self.cur_instr() {
                Instruction::Loop { condition, .. } => match condition {
                    Some(c) => {
                        let qs = condition_probes(c);
                        if qs.len() > 0 {
                            (Some(qs[0].clone()), false)
                        } else {
                            (None, evaluate_condition(c, &self.ctx, &Vec::new()))
                        }
                    },
                    None => (None, true),
                },
                _ => (None, true),
            };
            if let Some(q) = first {
                self.answers = Vec::new();
                self.phase = Phase::ProbeLoop { iteration, max };
                return Action::Probe(q);
            }
            if proceed {
                self.frames.push(Frame { pc: 0, branch: Branch::LoopBody, iteration, max });
                self.phase = Phase::Next;
            } else {
                self.phase = Phase::Complete;
            }
            Action::Continue
        } else {
            self.phase = Phase::Complete;
            Action::Continue
        }
    }


    fn exec_dispatch(&mut self) -> (r: Action)
        requires
            old(self).wf(),
            old(self)@.phase is Dispatch,
        ensures
            final(self).ctx.vars == old(self).ctx.vars,
            final(self).ctx.retry_config == old(self).ctx.retry_config,
            final(self)@.calls.len() <= old(self)@.calls.len(),
            final(self)@.calls.len() == old(self)@.calls.len() ==> final(self).ctx.call_stack
                == old(self).ctx.call_stack,
            final(self)@.calls.len() < old(self)@.calls.len() ==> final(self).ctx.call_stack@
                == old(self).ctx.call_stack@.drop_last(),
            final(self)@ == transition(old(self).program@, old(self)@, Event::Ack, false).0,
            r@ == transition(old(self).program@, old(self)@, Event::Ack, false).1,
    {
        let instr = self.cur_instr();
        let op: FrameOp = match instr {
            Instruction::Loop { max, .. } => {
                let m = match max {
                    Some(m) => *m,
                    None => u32::MAX,
                };
                self.phase = Phase::LoopHead { iteration: 0, max: m };
                return Action::Continue;
            },
            Instruction::If { condition, else_body, .. } => {
                let qs = condition_probes(condition);
                if qs.len() > 0 {
                    let q = qs[0].clone();
                    self.answers = Vec::new();
                    self.phase = Phase::ProbeIf;
                    return Action::Probe(q);
                }
                if evaluate_condition(condition, &self.ctx, &Vec::new()) {
                    FrameOp::Enter(Branch::Then)
                } else if else_body.is_some() {
                    FrameOp::Enter(Branch::Else)
                } else {
                    self.phase = Phase::Complete;
                    return Action::Continue;
                }
            },
            Instruction::Break => FrameOp::LeaveLoop,
            Instruction::Call { workflow, .. } => {
                let name = workflow.clone();
                self.phase = Phase::AwaitWorkflow;
                return Action::LoadWorkflow(name);
            },
            Instruction::Return(v) => {
                let value = v.clone();
                if self.calls.len() > 0 {
                    return self.return_from_call(Some(value));
                } else {
                    return self.finish_with(Ok(Some(value)));
                }
            },
            _ => {
                let (phase, action) = simple_step(instr);
                self.phase = phase;
                return action;
            },
        };
        match op {
            FrameOp::Enter(b) => {
                self.frames.push(Frame { pc: 0, branch: b, iteration: 0, max: 0 });
                self.phase = Phase::Next;
            },
            _ => {
                proof {
                    lemma_unwind_break(self.frames@);
                }
                match self.break_target() {
                    Some(k) => {
                        self.frames.truncate(k);
                        self.phase = Phase::Complete;
                    },
                    None => {
                        if self.frames.len() > 1 {
                            self.frames.pop();
                            self.phase = Phase::Complete;
                        } else if self.calls.len() > 0 {
                            return self.return_from_call(None);
                        } else {
                            return self.finish_with(Ok(None));
                        }
                    },
                }
            },
        }
        Action::Continue
    }

    fn exec_target(&mut self, ev: Event) -> (r: Action)
        requires
            old(self).wf(),
            old(self)@.phase is AwaitTarget,
            ev is Element || ev is Failed,
        ensures
            final(self).program == old(self).program,
            final(self).ctx.call_stack == old(self).ctx.call_stack,
            final(self).ctx.retry_config == old(self).ctx.retry_config,
            final(self)@ == transition(old(self).program@, old(self)@, ev, false).0,
            r@ == transition(old(self).program@, old(self)@, ev, false).1,
    {
        match ev {
            Event::Failed(err) => self.finish_with(Err(err)),
            Event::Element(e) => {
                let use_: TargetUse = match self.cur_instr() {
                    Instruction::Click { button, .. } => TargetUse::Click(*button),
                    Instruction::DoubleClick { .. } => TargetUse::DoubleClick,
                    Instruction::Input { text, clear_first, .. } => TargetUse::Input(
                        text.clone(),
                        *clear_first,
                    ),
                    Instruction::Scroll { direction, amount, .. } => TargetUse::Scroll(
                        *direction,
                        *amount,
                    ),
                    Instruction::SetForeground { .. } => TargetUse::SetForeground,
                    Instruction::Extract { into_var, .. } => TargetUse::Extract(into_var.clone()),
                    _ => TargetUse::DoubleClick,
                };
                match use_ {
                    TargetUse::Click(button) => {
                        self.phase = Phase::AwaitAct;
                        Action::Act(ActorCall::Click { element: e, button })
                    },
                    TargetUse::DoubleClick => {
                        self.phase = Phase::AwaitAct;
                        Action::Act(ActorCall::DoubleClick { element: e })
                    },
                    TargetUse::Input(text, clear_first) => {
                        self.phase = Phase::AwaitAct;
                        Action::Act(ActorCall::InputText { element: e, text, clear_first })
                    },
                    TargetUse::Scroll(direction, amount) => {
                        self.phase = Phase::AwaitAct;
                        Action::Act(ActorCall::Scroll { element: e, direction, amount })
                    },
                    TargetUse::SetForeground => {
                        self.phase = Phase::AwaitAct;
                        Action::Act(ActorCall::SetForeground { element: e })
                    },
                    TargetUse::Extract(name) => {
                        let value = match e.text {
                            Some(t) => Value::String(t),
                            None => Value::Null,
                        };
                        let reported = value.clone();
                        let reported_name = name.clone();
                        self.ctx.set_var(name, value);
                        self.phase = Phase::Complete;
                        Action::Notify(Notice::VariableSet { name: reported_name, value: reported })
                    },
                }
            },
            _ => Action::Continue,
        }
    }

    fn exec_await_act(&mut self, ev: Event) -> (r: Action)
        requires
            old(self).wf(),
            old(self)@.phase is AwaitAct,
        ensures
            final(self).program == old(self).program,
            final(self).ctx == old(self).ctx,
            final(self)@ == transition(old(self).program@, old(self)@, ev, false).0,
            r@ == transition(old(self).program@, old(self)@, ev, false).1,
    {
        match ev {
            Event::Failed(err) => self.finish_with(Err(err)),
            _ => {
                self.phase = Phase::Complete;
                Action::Continue
            },
        }
    }

    fn exec_poll(&mut self, ev: Event) -> (r: Action)
        requires
            old(self).wf(),
            old(self)@.phase is AwaitPoll || old(self)@.phase is AwaitPollSleep,
            old(self)@.phase is AwaitPoll ==> ev is Element || ev is NotFound,
        ensures
            final(self).program == old(self).program,
            final(self).ctx == old(self).ctx,
            final(self)@ == transition(old(self).program@, old(self)@, ev, false).0,
            r@ == transition(old(self).program@, old(self)@, ev, false).1,
    {
        let (target, timeout_ms, interval_ms) = match self.cur_instr() {
            Instruction::WaitFor { target, timeout_ms, interval_ms } => (
                target.clone(),
                *timeout_ms,
                *interval_ms,
            ),
            _ => (Target::Position { x: 0, y: 0 }, 0, 0),
        };
        let sleeping = match self.phase {
            Phase::AwaitPollSleep => true,
            _ => false,
        };
        if sleeping {
            match ev {
                Event::Failed(err) => self.finish_with(Err(err)),
                _ => {
                    self.phase = Phase::AwaitPoll;
                    Action::Poll { target, first: false }
                },
            }
        } else {
            match ev {
                Event::Element(_) => {
                    self.phase = Phase::Complete;
                    Action::Continue
                },
                Event::NotFound { elapsed_ms, target_debug } => {
                    if elapsed_ms >= timeout_ms {
                        self.finish_with(Err(RpaError::Timeout(timeout_ms, target_debug)))
                    } else {
                        self.phase = Phase::AwaitPollSleep;
                        Action::Sleep(interval_ms)
                    }
                },
                _ => Action::Continue,
            }
        }
    }

    fn exec_drag(&mut self, ev: Event) -> (r: Action)
        requires
            old(self).wf(),
            old(self)@.phase is AwaitDragFrom || old(self)@.phase is AwaitDragTo
                || old(self)@.phase is Drag,
            event_expected(old(self)@.phase, ev),
            step_computable(old(self)@, ev),
        ensures
            final(self).program == old(self).program,
            final(self).ctx == old(self).ctx,
            final(self)@ == transition(old(self).program@, old(self)@, ev, false).0,
            r@ == transition(old(self).program@, old(self)@, ev, false).1,
    {
        let (to_target, button) = match self.cur_instr() {
            Instruction::Drag { to, button, .. } => (to.clone(), *button),
            _ => (Target::Position { x: 0, y: 0 }, MouseButton::Left),
        };
        match ev {
            Event::Failed(err) => self.finish_with(Err(err)),
            Event::Element(e) => {
                let from_center: Option<(i32, i32)> = match &self.phase {
                    Phase::AwaitDragTo { from } => Some(from.center()),
                    _ => None,
                };
                match from_center {
                    None => {
                        self.phase = Phase::AwaitDragTo { from: e };
                        Action::Find(to_target)
                    },
                    Some(fc) => {
                        let tc = e.center();
                        self.phase = Phase::Drag { stage: 1, from: fc, to: tc };
                        Action::Act(ActorCall::MouseMove { x: fc.0, y: fc.1 })
                    },
                }
            },
            _ => {
                let (stage, fc, tc) = match self.phase {
                    Phase::Drag { stage, from, to } => (stage, from, to),
                    _ => (4, (0, 0), (0, 0)),
                };
                if stage == 1 {
                    self.phase = Phase::Drag { stage: 2, from: fc, to: tc };
                    Action::Act(ActorCall::MouseDown { button, x: fc.0, y: fc.1 })
                } else if stage == 2 {
                    self.phase = Phase::Drag { stage: 3, from: fc, to: tc };
                    Action::Sleep(50)
                } else if stage == 3 {
                    self.phase = Phase::Drag { stage: 4, from: fc, to: tc };
                    Action::Act(ActorCall::MouseMove { x: tc.0, y: tc.1 })
                } else {
                    self.phase = Phase::AwaitAct;
                    Action::Act(ActorCall::MouseUp { button, x: tc.0, y: tc.1 })
                }
            },
        }
    }

    /// Whether `step` may be called with `ev`: the run has not ended, the
    /// event answers the work requested last, and the step's arithmetic
    /// fits.
    pub fn can_step(&self, ev: &Event) -> (r: bool)
        ensures
            r == (!(self@.phase is Finished) && event_expected(self@.phase, *ev) && step_computable(
                self@,
                *ev,
            )),
    {
        match (&self.phase, ev) {
            (Phase::Finished, _) => false,
            (Phase::AwaitTarget, Event::Element(_)) => true,
            (Phase::AwaitTarget, Event::Failed(_)) => true,
            (Phase::AwaitTarget, _) => false,
            (Phase::AwaitDragFrom, Event::Element(_)) => true,
            (Phase::AwaitDragFrom, Event::Failed(_)) => true,
            (Phase::AwaitDragFrom, _) => false,
            (Phase::AwaitDragTo { from }, Event::Element(e)) => from.bounds.center_fits()
                && e.bounds.center_fits(),
            (Phase::AwaitDragTo { .. }, Event::Failed(_)) => true,
            (Phase::AwaitDragTo { .. }, _) => false,
            (Phase::AwaitAct, Event::Ack) => true,
            (Phase::AwaitAct, Event::Failed(_)) => true,
            (Phase::AwaitAct, _) => false,
            (Phase::AwaitPollSleep, Event::Ack) => true,
            (Phase::AwaitPollSleep, Event::Failed(_)) => true,
            (Phase::AwaitPollSleep, _) => false,
            (Phase::Drag { .. }, Event::Ack) => true,
            (Phase::Drag { .. }, Event::Failed(_)) => true,
            (Phase::Drag { .. }, _) => false,
            (Phase::AwaitPoll, Event::Element(_)) => true,
            (Phase::AwaitPoll, Event::NotFound { .. }) => true,
            (Phase::AwaitPoll, _) => false,
            (Phase::AwaitWorkflow, Event::Workflow(_)) => true,
            (Phase::AwaitWorkflow, Event::Failed(_)) => true,
            (Phase::AwaitWorkflow, _) => false,
            (Phase::ProbeIf, Event::Ack) => false,
            (Phase::ProbeIf, Event::Workflow(_)) => false,
            (Phase::ProbeIf, _) => true,
            (Phase::ProbeLoop { .. }, Event::Ack) => false,
            (Phase::ProbeLoop { .. }, Event::Workflow(_)) => false,
            (Phase::ProbeLoop { .. }, _) => true,
            (Phase::Complete, _) => self.steps_executed < u32::MAX,
            _ => true,
        }
    }

    /// Takes one step: reports the outcome of the last requested work and
    /// whether cancellation was requested, and returns the next work to do.
    pub fn step(&mut self, ev: Event, cancelled: bool) -> (r: Action)
        requires
            old(self).wf(),
            !(old(self)@.phase is Finished),
            event_expected(old(self)@.phase, ev),
            step_computable(old(self)@, ev),
        ensures
            final(self).wf(),
            final(self).program() == final(self)@.program,
            final(self).ctx().retry_config == old(self).ctx().retry_config,
            final(self)@ == transition(old(self)@.program, old(self)@, ev, cancelled).0,
            r@ == transition(old(self)@.program, old(self)@, ev, cancelled).1,
            final(self)@.calls.len() == old(self)@.calls.len() ==> final(self).ctx().call_stack
                == old(self).ctx().call_stack,
            final(self)@.calls.len() < old(self)@.calls.len() ==> final(self).ctx().call_stack@
                == old(self).ctx().call_stack@.drop_last(),
            final(self)@.calls.len() > old(self)@.calls.len() ==> {
                &&& final(self).ctx().call_stack@.drop_last() == old(self).ctx().call_stack@
                &&& final(self).ctx().call_stack@.len() == old(self).ctx().call_stack@.len() + 1
                &&& final(self).ctx().call_stack@.last()@ == final(self)@.calls.last().name
            },
    {
        proof {
            law_step_keeps_wf(self.program@, self@, ev, cancelled);
        }
        let kind: u8 = match &self.phase {
            Phase::Next => 0,
            Phase::Dispatch => 1,
            Phase::AwaitTarget => 2,
            Phase::AwaitAct => 3,
            Phase::AwaitPoll => 4,
            Phase::AwaitPollSleep => 4,
            Phase::AwaitDragFrom => 5,
            Phase::AwaitDragTo { .. } => 5,
            Phase::Drag { .. } => 5,
            Phase::Complete => 6,
            Phase::LoopHead { .. } => 7,
            Phase::AwaitWorkflow => 9,
            Phase::ProbeIf => 10,
            Phase::ProbeLoop { .. } => 10,
            Phase::Finished => 8,
        };
        if kind == 0 {
            self.exec_next(cancelled)
        } else if kind == 1 {
            self.exec_dispatch()
        } else if kind == 2 {
            self.exec_target(ev)
        } else if kind == 3 {
            self.exec_await_act(ev)
        } else if kind == 4 {
            self.exec_poll(ev)
        } else if kind == 5 {
            self.exec_drag(ev)
        } else if kind == 6 {
            self.exec_complete()
        } else if kind == 9 {
            self.exec_await_workflow(ev)
        } else if kind == 10 {
            self.exec_probe(ev)
        } else {
            self.exec_loop_head(cancelled)
        }
    }
}

} // verus!
