use rpa_vm::context::{BackoffStrategy, Context, RetryConfig};
use rpa_vm::element::{Element, Rect};
use rpa_vm::error::RpaError;
use rpa_vm::eval::{condition_probes, evaluate_condition, value_truthy, ProbeQuery};
use rpa_vm::instruction::Condition;
use rpa_vm::number::i32_f64_bits;
use rpa_vm::retry::{after_failure, RetryDecision};
use rpa_vm::target::{Target, WindowSelector};
use rpa_vm::value::Value;

fn num(x: f64) -> Value {
    Value::Number(x.to_bits())
}

#[test]
fn rect_center() {
    let rect = Rect::new(100, 200, 60, 40);
    assert_eq!(rect.center(), (130, 220));
}

#[test]
fn rect_contains() {
    let rect = Rect::new(100, 200, 60, 40);
    assert!(rect.contains(130, 220));
    assert!(!rect.contains(50, 50));
}

#[test]
fn error_display() {
    let err = RpaError::ElementNotFound("按钮".into());
    assert_eq!(err.message(), "Element not found: 按钮");

    let err = RpaError::Timeout(5000, "对话框".into());
    assert_eq!(err.message(), "Timeout after 5000ms waiting for 对话框");
}

#[test]
fn context_vars() {
    let mut ctx = Context::new();
    ctx.set_var("count".to_string(), num(5.0));
    assert_eq!(ctx.get_var("count"), Some(&num(5.0)));
    assert_eq!(ctx.get_var("missing"), None);
}

#[test]
fn context_call_stack() {
    let mut ctx = Context::new();
    ctx.push_call("workflow_a".into());
    ctx.push_call("workflow_b".into());
    assert_eq!(ctx.pop_call(), Some("workflow_b".into()));
    assert_eq!(ctx.pop_call(), Some("workflow_a".into()));
}

#[test]
fn value_convenience_conversions() {
    assert_eq!(Value::from(true), Value::Bool(true));
    assert_eq!(Value::from(42), num(42.0));
    assert_eq!(Value::from("hello".to_string()), Value::String("hello".into()));
}

#[test]
fn value_accessors() {
    let val = num(3.14);
    assert!(val.as_number().is_some());
    assert!(val.as_str().is_none());

    let val = Value::String("hello".into());
    assert_eq!(val.as_str(), Some("hello"));
}

#[test]
fn retry_config_delay_fixed_and_linear() {
    let fixed = RetryConfig { max_retries: 3, delay_ms: 1000, backoff: BackoffStrategy::Fixed };
    assert_eq!(fixed.delay_for_attempt(0), Some(1000));
    assert_eq!(fixed.delay_for_attempt(5), Some(1000));
    let linear = RetryConfig { max_retries: 3, delay_ms: 1000, backoff: BackoffStrategy::Linear };
    assert_eq!(linear.delay_for_attempt(0), Some(0));
    assert_eq!(linear.delay_for_attempt(1), Some(1000));
    assert_eq!(linear.delay_for_attempt(2), Some(2000));
    let exp = RetryConfig {
        max_retries: 3,
        delay_ms: 1000,
        backoff: BackoffStrategy::Exponential { base: 2.0f64.to_bits() },
    };
    assert_eq!(exp.delay_for_attempt(1), None);
}

#[test]
fn context_set_var_twice_keeps_last() {
    let mut ctx = Context::new();
    ctx.set_var("x".to_string(), num(1.0));
    ctx.set_var("y".to_string(), Value::Bool(false));
    ctx.set_var("x".to_string(), num(2.0));
    assert_eq!(ctx.get_var("x"), Some(&num(2.0)));
    assert_eq!(ctx.get_var("y"), Some(&Value::Bool(false)));
    assert_eq!(ctx.vars.len(), 2);
}

#[test]
fn pop_call_on_empty_stack() {
    let mut ctx = Context::new();
    assert_eq!(ctx.pop_call(), None);
}

#[test]
fn default_retry_config() {
    let c = RetryConfig::default();
    assert_eq!(c.max_retries, 3);
    assert_eq!(c.delay_ms, 1000);
    assert_eq!(c.backoff, BackoffStrategy::Exponential { base: 2.0f64.to_bits() });
}

#[test]
fn retry_decisions_count_attempts() {
    let c = RetryConfig { max_retries: 2, delay_ms: 7, backoff: BackoffStrategy::Fixed };
    assert_eq!(after_failure(&c, 0), RetryDecision::RetryAfter { delay_ms: Some(7) });
    assert_eq!(after_failure(&c, 1), RetryDecision::RetryAfter { delay_ms: Some(7) });
    assert_eq!(after_failure(&c, 2), RetryDecision::GiveUp);
}

#[test]
fn int_to_double_bits() {
    for v in [0i32, 1, -1, 2, 3, 42, -42, 1000, 123456789, i32::MAX, i32::MIN, -7, 1 << 30] {
        assert_eq!(i32_f64_bits(v), (v as f64).to_bits(), "value {}", v);
    }
}

#[test]
fn number_equality_follows_ieee() {
    assert_eq!(num(0.0), num(-0.0));
    assert_ne!(num(f64::NAN), num(f64::NAN));
    assert_ne!(num(1.0), num(2.0));
}

#[test]
fn object_equality_ignores_order_and_reads_last_entry() {
    let a = Value::Object(vec![("a".into(), num(1.0)), ("b".into(), Value::Bool(true))]);
    let b = Value::Object(vec![("b".into(), Value::Bool(true)), ("a".into(), num(1.0))]);
    assert_eq!(a, b);
    let c = Value::Object(vec![("a".into(), num(9.0)), ("a".into(), num(1.0)), ("b".into(), Value::Bool(true))]);
    assert_eq!(a, c);
    let d = Value::Object(vec![("a".into(), num(1.0))]);
    assert_ne!(a, d);
    assert_ne!(d, a);
    assert_eq!(c, a);
}

#[test]
fn value_get_reads_object_entries() {
    let v = Value::Object(vec![("k".into(), Value::String("v".into())), ("k".into(), Value::Null)]);
    assert_eq!(v.get("k"), Some(&Value::Null));
    assert_eq!(v.get("z"), None);
    assert_eq!(Value::Null.get("k"), None);
    assert!(Value::Null.is_null());
    assert_eq!(Value::Bool(true).as_bool(), Some(true));
    assert_eq!(Value::Array(vec![Value::Null]).as_array().map(|a| a.len()), Some(1));
}

#[test]
fn conditions_on_variables() {
    let mut ctx = Context::new();
    ctx.set_var("count".to_string(), num(3.0));
    ctx.set_var("name".to_string(), Value::Null);
    let eq = Condition::VarEquals { var: "count".into(), value: num(3.0) };
    let not_empty_name = Condition::VarNotEmpty { var: "name".into() };
    let not_empty_count = Condition::VarNotEmpty { var: "count".into() };
    let none: Vec<bool> = Vec::new();
    assert!(evaluate_condition(&eq, &ctx, &none));
    assert!(!evaluate_condition(&not_empty_name, &ctx, &none));
    assert!(evaluate_condition(&not_empty_count, &ctx, &none));
    let both = Condition::And(vec![
        Condition::VarEquals { var: "count".into(), value: num(3.0) },
        Condition::VarNotEmpty { var: "name".into() },
    ]);
    assert!(!evaluate_condition(&both, &ctx, &none));
    let either = Condition::Or(vec![
        Condition::VarEquals { var: "count".into(), value: num(3.0) },
        Condition::VarNotEmpty { var: "name".into() },
    ]);
    assert!(evaluate_condition(&either, &ctx, &none));
    let neg = Condition::Not(Box::new(Condition::VarNotEmpty { var: "missing".into() }));
    assert!(evaluate_condition(&neg, &ctx, &none));
    assert!(evaluate_condition(&Condition::And(vec![]), &ctx, &none));
    assert!(!evaluate_condition(&Condition::Or(vec![]), &ctx, &none));
}

#[test]
fn conditions_on_the_screen_use_their_answers() {
    let ctx = Context::new();
    let exists = Condition::ElementExists { target: Target::by_name("OK".into()) };
    assert!(evaluate_condition(&exists, &ctx, &vec![true]));
    assert!(!evaluate_condition(&exists, &ctx, &vec![false]));
    let expr = Condition::Expression { js: "1 + 1 == 3".into() };
    assert!(!evaluate_condition(&expr, &ctx, &vec![false]));
    assert!(evaluate_condition(&expr, &ctx, &vec![true]));
    // each part of a conjunction reads its own answer, in order
    let both = Condition::And(vec![
        Condition::ElementVisible { target: Target::by_name("A".into()) },
        Condition::Not(Box::new(Condition::ElementExists { target: Target::by_name("B".into()) })),
    ]);
    assert!(evaluate_condition(&both, &ctx, &vec![true, false]));
    assert!(!evaluate_condition(&both, &ctx, &vec![true, true]));
    assert!(!evaluate_condition(&both, &ctx, &vec![false, false]));
    let qs = condition_probes(&both);
    assert_eq!(qs.len(), 2);
    assert!(matches!(&qs[0], ProbeQuery::Visible(Target::UIA { selector }) if selector.name.as_deref() == Some("A")));
    assert!(matches!(&qs[1], ProbeQuery::Exists(Target::UIA { selector }) if selector.name.as_deref() == Some("B")));
    assert!(condition_probes(&Condition::VarNotEmpty { var: "x".into() }).is_empty());
}

#[test]
fn truthiness_of_values() {
    assert!(!value_truthy(&Value::Null));
    assert!(!value_truthy(&Value::Bool(false)));
    assert!(value_truthy(&Value::Bool(true)));
    assert!(!value_truthy(&num(0.0)));
    assert!(!value_truthy(&num(-0.0)));
    assert!(!value_truthy(&num(f64::NAN)));
    assert!(value_truthy(&num(2.5)));
    assert!(!value_truthy(&Value::String(String::new())));
    assert!(value_truthy(&Value::String("0".into())));
    assert!(value_truthy(&Value::Array(vec![])));
}

#[test]
fn element_center_and_clone() {
    let el = Element {
        id: "e".into(),
        bounds: Rect::new(10, 20, 101, 51),
        text: None,
        element_type: None,
        platform_handle: Some(7),
        process_id: None,
        process_name: None,
        window_title: None,
    };
    assert_eq!(el.center(), (60, 45));
    let c = el.clone();
    assert_eq!(c.id, "e");
    assert_eq!(c.platform_handle, Some(7));
    assert!(Rect::new(0, 0, 10, 10).center_fits());
    assert!(!Rect::new(i32::MAX, 0, 10, 10).center_fits());
}

#[test]
fn rect_edges_are_half_open() {
    let r = Rect::new(0, 0, 10, 10);
    assert!(r.contains(0, 0));
    assert!(r.contains(9, 9));
    assert!(!r.contains(10, 5));
    assert!(!r.contains(5, 10));
    assert!(!r.contains(-1, 5));
}

#[test]
fn error_messages_of_each_kind() {
    let cases: Vec<(RpaError, &str)> = vec![
        (RpaError::WorkflowNotFound("w".into()), "Workflow not found: w"),
        (RpaError::Plugin("p".into()), "Plugin error: p"),
        (RpaError::JsRuntime("j".into()), "JS runtime error: j"),
        (RpaError::Perception("x".into()), "Perception failed: x"),
        (RpaError::Action("a".into()), "Action failed: a"),
        (RpaError::VarNotFound("v".into()), "Context variable not found: v"),
        (RpaError::InvalidInstruction("i".into()), "Invalid instruction: i"),
        (RpaError::Cancelled, "Execution cancelled"),
        (RpaError::Compilation("c".into()), "Workflow compilation error: c"),
        (RpaError::Validation("v".into()), "Validation error: v"),
        (RpaError::Sandbox("s".into()), "Sandbox violation: s"),
        (RpaError::WindowNotFound("w".into()), "Window not found: w"),
        (RpaError::ProcessNotFound("p".into()), "Process not found: p"),
        (RpaError::OcrFailed("o".into()), "OCR failed: o"),
        (RpaError::ScreenshotFailed("s".into()), "Screenshot failed: s"),
        (RpaError::Other("anything".into()), "anything"),
    ];
    for (e, text) in cases {
        assert_eq!(e.message(), text);
    }
}

#[test]
fn window_selector_builders() {
    let s = WindowSelector::by_process_name("notepad.exe".into()).index(2);
    assert_eq!(s.process_name.as_deref(), Some("notepad.exe"));
    assert_eq!(s.window_title, None);
    assert_eq!(s.index, Some(2));
    let t = WindowSelector::by_title("Untitled".into());
    assert_eq!(t.window_title.as_deref(), Some("Untitled"));
    let c = WindowSelector::by_class("Notepad".into());
    assert_eq!(c.class_name.as_deref(), Some("Notepad"));
    let d = WindowSelector::default();
    assert_eq!(d.process_name, None);
    assert_eq!(d.index, None);
}

#[test]
fn target_builders() {
    match Target::by_name("ok".into()) {
        Target::UIA { selector } => {
            assert_eq!(selector.name.as_deref(), Some("ok"));
            assert_eq!(selector.automation_id, None);
        }
        _ => panic!("expected a UI Automation target"),
    }
    match Target::by_automation_id("btn1".into()) {
        Target::UIA { selector } => assert_eq!(selector.automation_id.as_deref(), Some("btn1")),
        _ => panic!("expected a UI Automation target"),
    }
    assert_eq!(Target::at(3, -4), Target::Position { x: 3, y: -4 });
    let w = Target::window(WindowSelector::by_title("t".into()));
    let r = Target::region(w.clone(), Rect::new(1, 2, 3, 4));
    assert_eq!(r, Target::Region { window: Box::new(w), region: Rect::new(1, 2, 3, 4) });
}

#[test]
fn center_lies_inside() {
    for r in [Rect::new(0, 0, 1, 1), Rect::new(-50, 20, 7, 3), Rect::new(100, 200, 60, 40), Rect::new(i32::MAX - 10, 0, 10, 10)] {
        let (x, y) = r.center();
        assert!(r.contains(x, y), "{:?}", r);
    }
}
