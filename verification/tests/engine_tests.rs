use rpa_vm::actor::{Actor, MockActor};
use rpa_vm::context::{BackoffStrategy, Context, RetryConfig};
use rpa_vm::error::RpaError;
use rpa_vm::eval::ProbeQuery;
use rpa_vm::executor::{Action, ActorCall, Event, Executor, Notice};
use rpa_vm::finder::{applicable_strategies, find_all_failed_error, position_element, FindSession, StrategyType};
use rpa_vm::instruction::{Condition, Instruction, LogLevel, MouseButton};
use rpa_vm::perception::{MockPerceptor, Perceptor};
use rpa_vm::retry::{after_failure, RetryDecision};
use rpa_vm::target::Target;
use rpa_vm::task::{task_result, TaskResult};
use rpa_vm::value::Value;
use rpa_vm::vm::{run_context, workflow_context, VmConfig};

use std::time::{Duration, Instant};

fn num(x: f64) -> Value {
    Value::Number(x.to_bits())
}

/// Waits for `ms` milliseconds.
fn pause(ms: u64) {
    let start = Instant::now();
    while start.elapsed() < Duration::from_millis(ms) {
        std::hint::spin_loop();
    }
}

fn quick_retry() -> RetryConfig {
    RetryConfig { max_retries: 1, delay_ms: 1, backoff: BackoffStrategy::Fixed }
}

/// One search along the fallback chain.
fn find_once(perceptors: &[(StrategyType, &MockPerceptor)], target: &Target, ctx: &Context) -> Result<rpa_vm::element::Element, RpaError> {
    if let Target::Position { x, y } = target {
        return Ok(position_element(*x, *y));
    }
    let kinds: Vec<StrategyType> = perceptors.iter().map(|(k, _)| *k).collect();
    let mut session = FindSession::start(&kinds, target);
    while let Some(i) = session.next_entry() {
        match perceptors[i].1.find(target, ctx) {
            Ok(el) => return Ok(el),
            Err(e) => session.record_failure(&e),
        }
    }
    Err(session.exhausted_error(&format!("{:?}", target)))
}

/// A search, retried as the configuration says.
fn find_with_retry(perceptors: &[(StrategyType, &MockPerceptor)], target: &Target, ctx: &Context) -> Result<rpa_vm::element::Element, RpaError> {
    let config = ctx.retry_config;
    let mut attempt = 0u32;
    loop {
        match find_once(perceptors, target, ctx) {
            Ok(el) => return Ok(el),
            Err(e) => match after_failure(&config, attempt) {
                RetryDecision::RetryAfter { delay_ms } => {
                    pause(delay_ms.unwrap_or(1));
                    attempt += 1;
                }
                RetryDecision::GiveUp => return Err(e),
            },
        }
    }
}

fn perform(actor: &mut MockActor, call: ActorCall) -> Result<(), RpaError> {
    match call {
        ActorCall::Click { element, button } => actor.click(&element, button),
        ActorCall::DoubleClick { element } => actor.double_click(&element),
        ActorCall::InputText { element, text, clear_first } => actor.input_text(&element, &text, clear_first),
        ActorCall::KeyPress { key, modifiers } => actor.key_press(&key, modifiers),
        ActorCall::Scroll { element, direction, amount } => actor.scroll(&element, direction, amount),
        ActorCall::MouseMove { x, y } => actor.mouse_move(x, y),
        ActorCall::MouseDown { button, x, y } => actor.mouse_down(button, x, y),
        ActorCall::MouseUp { button, x, y } => actor.mouse_up(button, x, y),
        ActorCall::SetForeground { element } => actor.set_foreground(&element),
        ActorCall::Screenshot { region, .. } => actor.screenshot(region).map(|_| ()),
    }
}

struct Run {
    outcome: Result<Option<Value>, RpaError>,
    steps: u32,
    notices: Vec<Notice>,
    logs: Vec<(LogLevel, String)>,
    ctx_vars: usize,
}

/// Runs a program to its end, cancelling once `cancel_after` steps were taken.
fn drive(program: Vec<Instruction>, ctx: Context, perceptors: &[(StrategyType, &MockPerceptor)], actor: &mut MockActor, cancel_after: Option<usize>) -> Run {
    drive_with(program, ctx, perceptors, actor, cancel_after, &|_: &str| None)
}

/// A script evaluator for the tests: the literals `true` and `false`, and
/// an error for anything else.
fn eval_script(js: &str) -> Result<Value, RpaError> {
    match js.trim() {
        "true" => Ok(Value::Bool(true)),
        "false" => Ok(Value::Bool(false)),
        other => Err(RpaError::JsRuntime(format!("cannot evaluate {}", other))),
    }
}

/// Runs a program to its end, with the named workflows that `Call` may load.
fn drive_with(program: Vec<Instruction>, ctx: Context, perceptors: &[(StrategyType, &MockPerceptor)], actor: &mut MockActor, cancel_after: Option<usize>, workflows: &dyn Fn(&str) -> Option<Vec<Instruction>>) -> Run {
    let mut ex = Executor::new(program, ctx);
    let mut ev = Event::Ack;
    let mut notices = Vec::new();
    let mut logs = Vec::new();
    let mut taken = 0usize;
    let started = Instant::now();
    let mut poll_start = Instant::now();
    loop {
        assert!(ex.can_step(&ev));
        let cancelled = cancel_after.map_or(false, |n| taken >= n);
        taken += 1;
        let action = ex.step(ev, cancelled);
        ev = match action {
            Action::Continue => Event::Ack,
            Action::Notify(n) => {
                notices.push(n);
                Event::Ack
            }
            Action::Log { level, message } => {
                logs.push((level, message));
                Event::Ack
            }
            Action::Find(target) => match find_with_retry(perceptors, &target, ex.context()) {
                Ok(el) => Event::Element(el),
                Err(e) => Event::Failed(e),
            },
            Action::Poll { target, first } => {
                if first {
                    poll_start = Instant::now();
                }
                match find_once(perceptors, &target, ex.context()) {
                    Ok(el) => Event::Element(el),
                    Err(_) => Event::NotFound {
                        elapsed_ms: poll_start.elapsed().as_millis() as u64,
                        target_debug: format!("{:?}", target),
                    },
                }
            }
            Action::Act(call) => match perform(actor, call) {
                Ok(()) => Event::Ack,
                Err(e) => Event::Failed(e),
            },
            Action::Sleep(ms) => {
                pause(ms);
                Event::Ack
            }
            Action::LoadWorkflow(name) => match workflows(&name) {
                Some(body) => Event::Workflow(body),
                None => Event::Failed(RpaError::WorkflowNotFound(name)),
            },
            Action::Probe(ProbeQuery::Exists(target)) | Action::Probe(ProbeQuery::Visible(target)) => {
                match find_once(perceptors, &target, ex.context()) {
                    Ok(el) => Event::Element(el),
                    Err(_) => Event::NotFound { elapsed_ms: 0, target_debug: format!("{:?}", target) },
                }
            }
            Action::Probe(ProbeQuery::Expression(js)) => match eval_script(&js) {
                Ok(v) => Event::Value(v),
                Err(e) => Event::Failed(e),
            },
            Action::Done(outcome) => {
                let _ = started;
                return Run {
                    outcome,
                    steps: ex.steps_executed(),
                    notices,
                    logs,
                    ctx_vars: ex.context().vars.len(),
                };
            }
        };
    }
}

fn uia(p: &MockPerceptor) -> Vec<(StrategyType, &MockPerceptor)> {
    vec![(StrategyType::UIA, p)]
}

#[test]
fn executor_click() {
    let p = MockPerceptor::new("按钮");
    let mut actor = MockActor::new();
    let program = vec![Instruction::Click { target: Target::by_name("按钮".into()), button: MouseButton::Left }];
    let run = drive(program, Context::new(), &uia(&p), &mut actor, None);
    assert!(run.outcome.is_ok());
    assert_eq!(actor.actions().len(), 1);
    assert_eq!(actor.actions()[0], "click:按钮:Left");
}

#[test]
fn executor_wait() {
    let p = MockPerceptor::new("x");
    let mut actor = MockActor::new();
    let start = Instant::now();
    let run = drive(vec![Instruction::Wait { duration_ms: 10 }], Context::new(), &uia(&p), &mut actor, None);
    assert!(run.outcome.is_ok());
    assert!(start.elapsed() >= Duration::from_millis(10));
}

#[test]
fn find_position_directly() {
    let el = position_element(100, 200);
    assert_eq!(el.id, "pos_100_200");
    assert_eq!(el.bounds, rpa_vm::element::Rect::new(100, 200, 1, 1));
    assert_eq!(el.element_type.as_deref(), Some("position"));
}

#[test]
fn find_fallback_chain() {
    let failing = MockPerceptor::failing();
    let working = MockPerceptor::new("mock");
    let perceptors = vec![(StrategyType::UIA, &failing), (StrategyType::Text, &working)];
    let ctx = Context::new();
    let target = Target::by_name("按钮".into());
    let el = find_once(&perceptors, &target, &ctx).unwrap();
    assert_eq!(el.id, "mock");
}

#[test]
fn find_all_fail() {
    let failing = MockPerceptor::failing();
    let perceptors = vec![(StrategyType::UIA, &failing)];
    let ctx = Context::new();
    let target = Target::by_name("按钮".into());
    let result = find_once(&perceptors, &target, &ctx);
    assert!(result.is_err());
    let msg = result.unwrap_err().message();
    assert!(msg.starts_with("Element not found: All strategies failed for target UIA"));
    assert!(msg.ends_with(". Last error: UIA: Element not found: mock fail"));
}

#[test]
fn find_with_no_applicable_perceptor_has_empty_last_error() {
    let working = MockPerceptor::new("w");
    let perceptors = vec![(StrategyType::Image, &working)];
    let ctx = Context::new();
    let target = Target::window(rpa_vm::target::WindowSelector::by_title("t".into()));
    let result = find_once(&perceptors, &target, &ctx);
    let msg = result.unwrap_err().message();
    assert!(msg.ends_with(". Last error: "));
    assert_eq!(find_all_failed_error("T").message(), "Element not found: All strategies failed for find_all on target T");
}

#[test]
fn strategy_orders_per_target() {
    assert_eq!(applicable_strategies(&Target::by_name("a".into())), vec![StrategyType::UIA, StrategyType::Text, StrategyType::Image]);
    assert_eq!(
        applicable_strategies(&Target::Text { pattern: "a".into(), region: None }),
        vec![StrategyType::Text, StrategyType::UIA, StrategyType::Image]
    );
    assert_eq!(
        applicable_strategies(&Target::Image { path: "a.png".into(), threshold: None }),
        vec![StrategyType::Image, StrategyType::UIA, StrategyType::Text]
    );
    assert_eq!(applicable_strategies(&Target::at(1, 2)), vec![]);
    assert_eq!(applicable_strategies(&Target::window(Default::default())), vec![StrategyType::Window]);
}

fn retry_sync<T>(config: &RetryConfig, mut operation: impl FnMut() -> Result<T, RpaError>) -> Result<T, RpaError> {
    let mut attempt = 0u32;
    loop {
        match operation() {
            Ok(v) => return Ok(v),
            Err(e) => match after_failure(config, attempt) {
                RetryDecision::RetryAfter { delay_ms } => {
                    pause(delay_ms.unwrap_or(0));
                    attempt += 1;
                }
                RetryDecision::GiveUp => return Err(e),
            },
        }
    }
}

#[test]
fn retry_succeeds_first_try() {
    let config = RetryConfig { max_retries: 3, delay_ms: 10, backoff: BackoffStrategy::Fixed };
    let result: Result<String, RpaError> = retry_sync(&config, || Ok("success".into()));
    assert_eq!(result.unwrap(), "success");
}

#[test]
fn retry_succeeds_after_failures() {
    let config = RetryConfig { max_retries: 3, delay_ms: 1, backoff: BackoffStrategy::Fixed };
    let mut attempts = 0u32;
    let result = retry_sync(&config, || {
        let n = attempts;
        attempts += 1;
        if n < 2 {
            Err(RpaError::ElementNotFound("not yet".into()))
        } else {
            Ok("success")
        }
    });
    assert_eq!(result.unwrap(), "success");
    assert_eq!(attempts, 3);
}

#[test]
fn retry_exhausts_retries() {
    let config = RetryConfig { max_retries: 2, delay_ms: 1, backoff: BackoffStrategy::Fixed };
    let mut attempts = 0u32;
    let result: Result<String, RpaError> = retry_sync(&config, || {
        attempts += 1;
        Err(RpaError::ElementNotFound("always fail".into()))
    });
    assert!(result.is_err());
    assert_eq!(attempts, 3);
}

fn vm_run(program: Vec<Instruction>, p: &MockPerceptor, actor: &mut MockActor) -> Result<TaskResult, RpaError> {
    let ctx = run_context(&VmConfig::default());
    let start = Instant::now();
    let run = drive(program, ctx, &uia(p), actor, None);
    task_result(run.outcome, start.elapsed().as_millis() as u64, run.steps)
}

#[test]
fn vm_run_click_instruction() {
    let p = MockPerceptor::new("mock");
    let mut actor = MockActor::new();
    let instructions = vec![Instruction::Click { target: Target::by_name("按钮".into()), button: MouseButton::Left }];
    let result = vm_run(instructions, &p, &mut actor).unwrap();
    assert!(result.duration_ms > 0 || result.steps_executed >= 1);
    assert!(!actor.actions().is_empty());
}

#[test]
fn vm_run_wait_instruction() {
    let p = MockPerceptor::new("mock");
    let mut actor = MockActor::new();
    let result = vm_run(vec![Instruction::Wait { duration_ms: 10 }], &p, &mut actor).unwrap();
    assert!(result.duration_ms >= 10);
}

#[test]
fn vm_run_loop_instruction() {
    let p = MockPerceptor::new("mock");
    let mut actor = MockActor::new();
    let instructions = vec![Instruction::Loop { max: Some(3), condition: None, body: vec![Instruction::Wait { duration_ms: 1 }] }];
    let result = vm_run(instructions, &p, &mut actor).unwrap();
    assert!(result.steps_executed >= 3);
}

#[test]
fn loop_counts_body_and_loop_instructions() {
    let p = MockPerceptor::new("mock");
    let mut actor = MockActor::new();
    let instructions = vec![Instruction::Loop { max: Some(3), condition: None, body: vec![Instruction::Wait { duration_ms: 1 }] }];
    let run = drive(instructions, Context::new(), &uia(&p), &mut actor, None);
    assert!(matches!(run.outcome, Ok(None)));
    // three body instructions and the loop itself
    assert_eq!(run.steps, 4);
}

#[test]
fn break_leaves_only_the_innermost_loop() {
    let p = MockPerceptor::new("mock");
    let mut actor = MockActor::new();
    let inner = Instruction::Loop {
        max: Some(5),
        condition: None,
        body: vec![Instruction::MouseMove { x: 1, y: 1 }, Instruction::Break, Instruction::MouseMove { x: 9, y: 9 }],
    };
    let outer = Instruction::Loop { max: Some(2), condition: None, body: vec![inner, Instruction::MouseMove { x: 2, y: 2 }] };
    let run = drive(vec![outer, Instruction::MouseMove { x: 3, y: 3 }], Context::new(), &uia(&p), &mut actor, None);
    assert!(matches!(run.outcome, Ok(None)));
    assert_eq!(
        actor.actions(),
        vec!["mousemove:1:1", "mousemove:2:2", "mousemove:1:1", "mousemove:2:2", "mousemove:3:3"]
    );
}

#[test]
fn break_outside_a_loop_ends_the_run() {
    let p = MockPerceptor::new("mock");
    let mut actor = MockActor::new();
    let run = drive(vec![Instruction::Break, Instruction::MouseMove { x: 1, y: 1 }], Context::new(), &uia(&p), &mut actor, None);
    assert!(matches!(run.outcome, Ok(None)));
    assert!(actor.actions().is_empty());
}

#[test]
fn return_ends_the_run_with_its_value() {
    let p = MockPerceptor::new("mock");
    let mut actor = MockActor::new();
    let program = vec![
        Instruction::Loop { max: None, condition: None, body: vec![Instruction::Return(num(7.0))] },
        Instruction::MouseMove { x: 1, y: 1 },
    ];
    let run = drive(program, Context::new(), &uia(&p), &mut actor, None);
    match run.outcome {
        Ok(Some(v)) => assert_eq!(v, num(7.0)),
        other => panic!("unexpected outcome {:?}", other),
    }
    assert!(actor.actions().is_empty());
}

#[test]
fn if_runs_the_branch_its_condition_picks() {
    let p = MockPerceptor::new("mock");
    let mut actor = MockActor::new();
    let mut ctx = Context::new();
    ctx.set_var("mode".into(), Value::String("fast".into()));
    let program = vec![Instruction::If {
        condition: Condition::VarEquals { var: "mode".into(), value: Value::String("fast".into()) },
        then_body: vec![Instruction::MouseMove { x: 1, y: 0 }],
        else_body: Some(vec![Instruction::MouseMove { x: 2, y: 0 }]),
    }];
    let run = drive(program, ctx, &uia(&p), &mut actor, None);
    assert!(run.outcome.is_ok());
    assert_eq!(actor.actions(), vec!["mousemove:1:0"]);
    assert_eq!(run.ctx_vars, 1);
}

#[test]
fn loop_condition_stops_the_loop() {
    let p = MockPerceptor::new("mock");
    let mut actor = MockActor::new();
    let program = vec![Instruction::Loop {
        max: Some(10),
        condition: Some(Condition::VarNotEmpty { var: "never".into() }),
        body: vec![Instruction::MouseMove { x: 1, y: 1 }],
    }];
    let run = drive(program, Context::new(), &uia(&p), &mut actor, None);
    assert!(run.outcome.is_ok());
    assert!(actor.actions().is_empty());
}

#[test]
fn cancellation_stops_before_the_next_instruction() {
    let p = MockPerceptor::new("mock");
    let mut actor = MockActor::new();
    let program = vec![
        Instruction::MouseMove { x: 1, y: 1 },
        Instruction::MouseMove { x: 2, y: 2 },
        Instruction::MouseMove { x: 3, y: 3 },
    ];
    let run = drive(program, Context::new(), &uia(&p), &mut actor, Some(0));
    assert_eq!(run.outcome.unwrap_err(), RpaError::Cancelled);
    assert!(actor.actions().is_empty());
    assert_eq!(run.steps, 0);
}

#[test]
fn failed_find_ends_the_run_with_the_error() {
    let p = MockPerceptor::failing();
    let mut actor = MockActor::new();
    let mut ctx = Context::new();
    ctx.retry_config = quick_retry();
    let program = vec![Instruction::Click { target: Target::by_name("x".into()), button: MouseButton::Right }];
    let run = drive(program, ctx, &uia(&p), &mut actor, None);
    match run.outcome {
        Err(RpaError::ElementNotFound(m)) => assert!(m.contains("Last error: UIA: Element not found: mock fail")),
        other => panic!("unexpected outcome {:?}", other),
    }
    assert!(actor.actions().is_empty());
}

#[test]
fn wait_for_times_out() {
    let p = MockPerceptor::failing();
    let mut actor = MockActor::new();
    let target = Target::by_name("gone".into());
    let debug = format!("{:?}", target);
    let program = vec![Instruction::WaitFor { target, timeout_ms: 20, interval_ms: 5 }];
    let run = drive(program, Context::new(), &uia(&p), &mut actor, None);
    assert_eq!(run.outcome.unwrap_err(), RpaError::Timeout(20, debug));
}

#[test]
fn wait_for_finds_the_element() {
    let p = MockPerceptor::new("here");
    let mut actor = MockActor::new();
    let program = vec![Instruction::WaitFor { target: Target::by_name("here".into()), timeout_ms: 1000, interval_ms: 5 }];
    let run = drive(program, Context::new(), &uia(&p), &mut actor, None);
    assert!(run.outcome.is_ok());
    assert_eq!(run.steps, 1);
}

#[test]
fn drag_moves_presses_and_releases() {
    let p = MockPerceptor::new("el");
    let mut actor = MockActor::new();
    let program = vec![Instruction::Drag { from: Target::at(10, 20), to: Target::at(30, 40), button: MouseButton::Left }];
    let run = drive(program, Context::new(), &uia(&p), &mut actor, None);
    assert!(run.outcome.is_ok());
    assert_eq!(actor.actions(), vec!["mousemove:10:20", "mousedown:Left:10:20", "mousemove:30:40", "mouseup:Left:30:40"]);
}

#[test]
fn input_and_keys_reach_the_actor() {
    let p = MockPerceptor::new("field");
    let mut actor = MockActor::new();
    let program = vec![
        Instruction::Input { target: Target::by_name("field".into()), text: "hi".into(), clear_first: true },
        Instruction::KeyPress { key: "c".into(), modifiers: vec![rpa_vm::instruction::ModifierKey::Ctrl, rpa_vm::instruction::ModifierKey::Shift] },
        Instruction::DoubleClick { target: Target::by_name("field".into()) },
    ];
    let run = drive(program, Context::new(), &uia(&p), &mut actor, None);
    assert!(run.outcome.is_ok());
    assert_eq!(actor.actions(), vec!["input:field:hi:clear=true", "key_press:c:[Ctrl, Shift]", "double_click:field"]);
}

#[test]
fn log_and_call_report_without_acting() {
    let p = MockPerceptor::new("x");
    let mut actor = MockActor::new();
    let program = vec![
        Instruction::Log { message: "hello".into(), level: LogLevel::Info },
        Instruction::Call { workflow: "sub".into(), args: vec![] },
    ];
    let run = drive_with(program, Context::new(), &uia(&p), &mut actor, None, &|n: &str| if n == "sub" { Some(vec![]) } else { None });
    assert!(matches!(run.outcome, Ok(None)));
    assert_eq!(run.logs, vec![(LogLevel::Info, "hello".to_string())]);
    assert!(run.notices.iter().any(|n| matches!(n, Notice::WorkflowCall { name } if name == "sub")));
    assert!(run.notices.iter().any(|n| matches!(n, Notice::WorkflowReturn { name, result: None } if name == "sub")));
    assert!(actor.actions().is_empty());
    assert_eq!(run.steps, 2);
}

#[test]
fn unsupported_instructions_fail() {
    let p = MockPerceptor::new("x");
    let mut actor = MockActor::new();
    let program = vec![Instruction::MoveWindow { target: Target::at(0, 0), x: 1, y: 2 }];
    let run = drive(program, Context::new(), &uia(&p), &mut actor, None);
    assert!(run.outcome.is_err());
}

#[test]
fn workflow_context_holds_arguments() {
    let ctx = workflow_context("flow".into(), vec![("a".into(), num(1.0)), ("a".into(), num(2.0))], &VmConfig::default());
    assert_eq!(ctx.get_var("a"), Some(&num(2.0)));
    assert_eq!(ctx.call_stack, vec!["flow".to_string()]);
}

#[test]
fn extract_writes_the_element_text() {
    let p = MockPerceptor::new("消息内容");
    let mut actor = MockActor::new();
    let spec = rpa_vm::instruction::DataSpec { fields: vec![] };
    let program = vec![
        Instruction::Extract { target: Target::by_name("消息内容".into()), spec, into_var: "message".into() },
        Instruction::If {
            condition: Condition::VarNotEmpty { var: "message".into() },
            then_body: vec![Instruction::Return(Value::Bool(true))],
            else_body: None,
        },
    ];
    let run = drive(program, Context::new(), &uia(&p), &mut actor, None);
    match run.outcome {
        Ok(Some(v)) => assert_eq!(v, Value::Bool(true)),
        other => panic!("unexpected outcome {:?}", other),
    }
    assert_eq!(run.ctx_vars, 1);
    assert!(run.notices.iter().any(|n| matches!(n, Notice::VariableSet { name, value } if name == "message" && *value == Value::String("消息内容".into()))));
}

#[test]
fn call_runs_the_workflow_with_its_arguments() {
    let p = MockPerceptor::new("x");
    let mut actor = MockActor::new();
    let sub = || {
        vec![
            Instruction::If {
                condition: Condition::VarEquals { var: "a".into(), value: num(1.0) },
                then_body: vec![Instruction::MouseMove { x: 1, y: 1 }],
                else_body: Some(vec![Instruction::MouseMove { x: 8, y: 8 }]),
            },
            Instruction::Return(num(5.0)),
            Instruction::MouseMove { x: 9, y: 9 },
        ]
    };
    let program = vec![
        Instruction::Call { workflow: "sub".into(), args: vec![("a".into(), num(1.0))] },
        Instruction::MouseMove { x: 2, y: 2 },
    ];
    let run = drive_with(program, Context::new(), &uia(&p), &mut actor, None, &|n: &str| if n == "sub" { Some(sub()) } else { None });
    assert!(matches!(run.outcome, Ok(None)));
    assert_eq!(actor.actions(), vec!["mousemove:1:1", "mousemove:2:2"]);
    assert!(run.notices.iter().any(|n| matches!(n, Notice::WorkflowReturn { name, result: Some(v) } if name == "sub" && *v == num(5.0))));
    assert_eq!(run.ctx_vars, 1);
}

#[test]
fn call_of_a_missing_workflow_fails() {
    let p = MockPerceptor::new("x");
    let mut actor = MockActor::new();
    let program = vec![
        Instruction::Call { workflow: "nowhere".into(), args: vec![] },
        Instruction::MouseMove { x: 2, y: 2 },
    ];
    let run = drive(program, Context::new(), &uia(&p), &mut actor, None);
    assert_eq!(run.outcome.unwrap_err(), RpaError::WorkflowNotFound("nowhere".into()));
    assert!(actor.actions().is_empty());
}

#[test]
fn break_at_the_top_of_a_called_workflow_returns_to_the_caller() {
    let p = MockPerceptor::new("x");
    let mut actor = MockActor::new();
    let sub = || vec![Instruction::Break, Instruction::MouseMove { x: 9, y: 9 }];
    let program = vec![
        Instruction::Call { workflow: "sub".into(), args: vec![] },
        Instruction::MouseMove { x: 2, y: 2 },
    ];
    let run = drive_with(program, Context::new(), &uia(&p), &mut actor, None, &|n: &str| if n == "sub" { Some(sub()) } else { None });
    assert!(matches!(run.outcome, Ok(None)));
    assert_eq!(actor.actions(), vec!["mousemove:2:2"]);
}

#[test]
fn break_in_an_if_outside_a_loop_leaves_the_if() {
    let p = MockPerceptor::new("x");
    let mut actor = MockActor::new();
    let program = vec![
        Instruction::If {
            condition: Condition::And(vec![]),
            then_body: vec![Instruction::Break, Instruction::MouseMove { x: 9, y: 9 }],
            else_body: None,
        },
        Instruction::MouseMove { x: 1, y: 1 },
    ];
    let run = drive(program, Context::new(), &uia(&p), &mut actor, None);
    assert!(matches!(run.outcome, Ok(None)));
    assert_eq!(actor.actions(), vec!["mousemove:1:1"]);
}

fn exists_program() -> Vec<Instruction> {
    vec![Instruction::If {
        condition: Condition::ElementExists { target: Target::by_name("OK".into()) },
        then_body: vec![Instruction::MouseMove { x: 1, y: 1 }],
        else_body: Some(vec![Instruction::MouseMove { x: 2, y: 2 }]),
    }]
}

#[test]
fn element_exists_asks_the_perceptor() {
    let found = MockPerceptor::new("OK");
    let mut actor = MockActor::new();
    let run = drive(exists_program(), Context::new(), &uia(&found), &mut actor, None);
    assert!(run.outcome.is_ok());
    assert_eq!(actor.actions(), vec!["mousemove:1:1"]);

    let missing = MockPerceptor::failing();
    let mut actor = MockActor::new();
    let run = drive(exists_program(), Context::new(), &uia(&missing), &mut actor, None);
    assert!(run.outcome.is_ok());
    assert_eq!(actor.actions(), vec!["mousemove:2:2"]);
}

#[test]
fn element_visible_and_expressions_decide_conditions() {
    let found = MockPerceptor::new("OK");
    let mut actor = MockActor::new();
    let program = vec![
        Instruction::If {
            condition: Condition::And(vec![
                Condition::ElementVisible { target: Target::by_name("OK".into()) },
                Condition::Expression { js: "true".into() },
            ]),
            then_body: vec![Instruction::MouseMove { x: 1, y: 1 }],
            else_body: None,
        },
        Instruction::If {
            condition: Condition::Expression { js: "false".into() },
            then_body: vec![Instruction::MouseMove { x: 3, y: 3 }],
            else_body: None,
        },
    ];
    let run = drive(program, Context::new(), &uia(&found), &mut actor, None);
    assert!(run.outcome.is_ok());
    assert_eq!(actor.actions(), vec!["mousemove:1:1"]);

    let missing = MockPerceptor::failing();
    let mut actor = MockActor::new();
    let program = vec![Instruction::If {
        condition: Condition::ElementVisible { target: Target::by_name("OK".into()) },
        then_body: vec![Instruction::MouseMove { x: 1, y: 1 }],
        else_body: None,
    }];
    let run = drive(program, Context::new(), &uia(&missing), &mut actor, None);
    assert!(run.outcome.is_ok());
    assert!(actor.actions().is_empty());
}

#[test]
fn a_failing_expression_ends_the_run() {
    let p = MockPerceptor::new("x");
    let mut actor = MockActor::new();
    let program = vec![Instruction::If {
        condition: Condition::Expression { js: "1 +".into() },
        then_body: vec![Instruction::MouseMove { x: 1, y: 1 }],
        else_body: None,
    }];
    let run = drive(program, Context::new(), &uia(&p), &mut actor, None);
    assert!(matches!(run.outcome, Err(RpaError::JsRuntime(_))));
    assert!(actor.actions().is_empty());
}

#[test]
fn loop_on_an_element_runs_while_it_is_found() {
    let found = MockPerceptor::new("row");
    let mut actor = MockActor::new();
    let program = || {
        vec![Instruction::Loop {
            max: Some(3),
            condition: Some(Condition::ElementExists { target: Target::by_name("row".into()) }),
            body: vec![Instruction::MouseMove { x: 1, y: 1 }],
        }]
    };
    let run = drive(program(), Context::new(), &uia(&found), &mut actor, None);
    assert!(run.outcome.is_ok());
    assert_eq!(actor.actions().len(), 3);

    let missing = MockPerceptor::failing();
    let mut actor = MockActor::new();
    let run = drive(program(), Context::new(), &uia(&missing), &mut actor, None);
    assert!(run.outcome.is_ok());
    assert!(actor.actions().is_empty());
}
