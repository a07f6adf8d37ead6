use rpa_vm::actor::{Actor, KeyLookup, MockActor, NoopActor, WindowsActor};
use rpa_vm::config::{Config, EngineConfig};
use rpa_vm::context::{BackoffStrategy, Context};
use rpa_vm::desktop::{after_ready_poll, base64_encode, engine_url, png_data_url, ReadyDecision, Settings};
use rpa_vm::element::{Element, Rect};
use rpa_vm::error::RpaError;
use rpa_vm::fmt::{chars_of, contains_str};
use rpa_vm::instruction::{ModifierKey, MouseButton, ScrollDirection};
use rpa_vm::perception::{
    DebugCapturer, MockDebugCapturer, MockOcrEngine, MockPerceptor, MockScreenCapturer, OcrEngine, Perceptor,
    ScreenCapturer, MOCK_OCR_CONFIDENCE,
};
use rpa_vm::plugin::{default_scripts_dir, default_workflows_dir};
use rpa_vm::storage::{dropped_tables, init_tables, migration_name};
use rpa_vm::target::{Target, WindowSelector};
use rpa_vm::vm::{FindStrategy, VmConfig};
use rpa_vm::window::{describe_selector, MockWindowPerceptor, WindowCandidate, WindowPerceptor, WindowsWindowPerceptor};

fn element(id: &str) -> Element {
    Element {
        id: id.into(),
        bounds: Rect::new(0, 0, 10, 10),
        text: None,
        element_type: None,
        platform_handle: None,
        process_id: None,
        process_name: None,
        window_title: None,
    }
}

#[test]
fn mock_actor_records_every_operation() {
    let mut a = MockActor::new();
    let e = element("btn");
    a.click(&e, MouseButton::Right).unwrap();
    a.double_click(&e).unwrap();
    a.input_text(&e, "abc", false).unwrap();
    a.key_press("Enter", vec![]).unwrap();
    a.key_press("v", vec![ModifierKey::Ctrl]).unwrap();
    a.scroll(&e, ScrollDirection::Down, 3).unwrap();
    a.mouse_move(-5, 7).unwrap();
    a.mouse_down(MouseButton::Middle, 1, 2).unwrap();
    a.mouse_up(MouseButton::Left, 3, 4).unwrap();
    a.set_foreground(&e).unwrap();
    assert_eq!(a.screenshot(None).unwrap(), vec![0x89, 0x50, 0x4E, 0x47]);
    assert_eq!(
        a.actions(),
        vec![
            "click:btn:Right",
            "double_click:btn",
            "input:btn:abc:clear=false",
            "key_press:Enter:[]",
            "key_press:v:[Ctrl]",
            "scroll:btn:Down:3",
            "mousemove:-5:7",
            "mousedown:Middle:1:2",
            "mouseup:Left:3:4",
            "setforeground:btn",
            "screenshot",
        ]
    );
    assert!(MockActor::default().actions().is_empty());
}

#[test]
fn noop_actor_refuses() {
    let mut a = NoopActor;
    let e = element("x");
    assert_eq!(a.click(&e, MouseButton::Left), Err(RpaError::Action("No actor registered".into())));
    assert_eq!(a.screenshot(None).unwrap_err().message(), "Action failed: No actor registered");
}

#[test]
fn windows_actor_input_codes() {
    type W = WindowsActor<MockScreenCapturer>;
    assert_eq!(W::modifier_key_code(ModifierKey::Ctrl), 0x11);
    assert_eq!(W::modifier_key_code(ModifierKey::Alt), 0x12);
    assert_eq!(W::modifier_key_code(ModifierKey::Shift), 0x10);
    assert_eq!(W::modifier_key_code(ModifierKey::Super), 0x5B);
    assert_eq!(W::click_flags(MouseButton::Left), 0x0006);
    assert_eq!(W::click_flags(MouseButton::Right), 0x0018);
    assert_eq!(W::click_flags(MouseButton::Middle), 0x0060);
    assert_eq!(W::down_flag(MouseButton::Right), 0x0008);
    assert_eq!(W::up_flag(MouseButton::Middle), 0x0040);
    assert_eq!(W::scroll_wheel(ScrollDirection::Up, 3), (-360, 0x0800));
    assert_eq!(W::scroll_wheel(ScrollDirection::Down, 2), (240, 0x0800));
    assert_eq!(W::scroll_wheel(ScrollDirection::Left, 1), (-120, 0x1000));
    assert_eq!(W::scroll_wheel(ScrollDirection::Right, 1), (120, 0x1000));
}

#[test]
fn windows_actor_key_lookup() {
    type W = WindowsActor<MockScreenCapturer>;
    assert_eq!(W::lookup_key("enter"), Ok(KeyLookup::Named(0x0D)));
    assert_eq!(W::lookup_key("Return"), Ok(KeyLookup::Named(0x0D)));
    assert_eq!(W::lookup_key("esc"), Ok(KeyLookup::Named(0x1B)));
    assert_eq!(W::lookup_key("BackSpace"), Ok(KeyLookup::Named(0x08)));
    assert_eq!(W::lookup_key("f12"), Ok(KeyLookup::Named(0x7B)));
    assert_eq!(W::lookup_key("PageDown"), Ok(KeyLookup::Named(0x22)));
    assert_eq!(W::lookup_key("a"), Ok(KeyLookup::Char('a')));
    assert_eq!(W::lookup_key("xyz"), Ok(KeyLookup::Char('x')));
    assert_eq!(W::lookup_key(""), Err(RpaError::Action("Invalid key: ".into())));
    assert_eq!(W::named_key("F13"), None);
}

#[test]
fn windows_actor_screenshots_through_its_capturer() {
    let without: WindowsActor<MockScreenCapturer> = WindowsActor::new();
    assert_eq!(without.screenshot(None), Err(RpaError::Action("No screen capturer registered".into())));
    let with = WindowsActor::with_screen_capturer(MockScreenCapturer::new());
    let png = with.screenshot(Some(Rect::new(0, 0, 5, 5))).unwrap();
    assert_eq!(png.len(), 67);
    assert_eq!(&png[..8], &[0x89, 0x50, 0x4E, 0x47, 0x0D, 0x0A, 0x1A, 0x0A]);
}

#[test]
fn mock_perceptor_finds_its_button() {
    let p = MockPerceptor::new("ok");
    let ctx = Context::new();
    let el = p.find(&Target::at(0, 0), &ctx).unwrap();
    assert_eq!(el.id, "ok");
    assert_eq!(el.text.as_deref(), Some("ok"));
    assert_eq!(el.element_type.as_deref(), Some("Button"));
    assert_eq!(el.bounds, Rect::new(0, 0, 100, 50));
    assert_eq!(p.find_all(&Target::at(0, 0), &ctx).unwrap().len(), 1);
    let f = MockPerceptor::failing();
    assert_eq!(f.find(&Target::at(0, 0), &ctx).unwrap_err(), RpaError::ElementNotFound("mock fail".into()));
    assert!(f.find_all(&Target::at(0, 0), &ctx).is_err());
}

#[test]
fn mock_capturers() {
    let c = MockScreenCapturer::default();
    let a = c.capture_screen().unwrap();
    assert_eq!(a, c.capture_region(Rect::new(1, 1, 1, 1)).unwrap());
    assert_eq!(a, c.capture_window(&element("w")).unwrap());
    assert_eq!(a[a.len() - 4..], [0xAE, 0x42, 0x60, 0x82]);
    let d = MockDebugCapturer::new();
    assert_eq!(d.capture_with_highlight(None, vec![], "/tmp/shot.png").unwrap(), "/tmp/shot.png");
    assert!(d.show_overlay(vec![]).is_ok());
}

#[test]
fn mock_ocr_engine() {
    let e = MockOcrEngine::new("hello".into());
    assert_eq!(e.recognize(&[], None).unwrap(), "hello");
    assert_eq!(
        e.recognize(&[1, 2], Some(Rect::new(-1, 2, 3, 4))).unwrap(),
        "hello (region: Rect { x: -1, y: 2, width: 3, height: 4 }"
    );
    let rs = e.recognize_with_confidence(&[], None).unwrap();
    assert_eq!(rs.len(), 1);
    assert_eq!(rs[0].text, "hello");
    assert_eq!(f64::from_bits(rs[0].confidence), 0.95);
    assert_eq!(rs[0].confidence, MOCK_OCR_CONFIDENCE);
    assert_eq!(rs[0].bounds, Rect::new(0, 0, 100, 50));
    let f = MockOcrEngine::failing();
    assert_eq!(f.recognize(&[], None), Err(RpaError::OcrFailed("Mock: OCR failed".into())));
    assert!(f.recognize_with_confidence(&[], None).is_err());
}

#[test]
fn mock_window_perceptor() {
    let p = MockWindowPerceptor::new(vec![element("w1"), element("w2")]);
    let sel = WindowSelector::by_title("x".into());
    assert_eq!(p.find_window(&sel).unwrap().id, "w1");
    assert_eq!(p.find_all_windows(&sel).unwrap().len(), 2);
    assert_eq!(p.get_foreground_window().unwrap().id, "w1");
    assert!(p.set_foreground(&element("w1")).is_ok());
    let empty = MockWindowPerceptor::new(vec![]);
    assert_eq!(empty.find_window(&sel).unwrap_err(), (RpaError::WindowNotFound("Mock: no windows registered".into())));
    assert_eq!(empty.get_foreground_window().unwrap_err(), (RpaError::WindowNotFound("Mock: no foreground window".into())));
    let failing = MockWindowPerceptor::failing();
    let sel = WindowSelector::by_process_name("note\"pad".into());
    assert_eq!(
        failing.find_window(&sel).unwrap_err(),
        (RpaError::WindowNotFound(
            "Mock: Window not found for selector: process=Some(\"note\\\"pad\"), title=None, class=None".into()
        ))
    );
    assert_eq!(
        failing.find_all_windows(&sel).unwrap_err(),
        (RpaError::WindowNotFound(
            "Mock: Windows not found for selector: process=Some(\"note\\\"pad\"), title=None, class=None".into()
        ))
    );
    assert_eq!(describe_selector(&WindowSelector::default()), "process=None, title=None, class=None");
}

fn candidate(handle: u64, title: &str, class: &str, pid: u32, exe: &str) -> WindowCandidate {
    WindowCandidate {
        handle,
        title: title.into(),
        class_name: class.into(),
        bounds: Rect::new(0, 0, 800, 600),
        process_id: pid,
        process_name: exe.into(),
    }
}

#[test]
fn window_selection_filters_and_indexes() {
    let windows = vec![
        candidate(0x10, "Untitled - Notepad", "Notepad", 1, "notepad.exe"),
        candidate(0x20, "Calculator", "ApplicationFrameWindow", 2, "CalculatorApp.exe"),
        candidate(0x3a, "notes.txt - Notepad", "Notepad", 3, "NOTEPAD.EXE"),
    ];
    let by_class = WindowSelector::by_class("Notepad".into());
    let found = WindowsWindowPerceptor::find_all_windows_among(&by_class, &windows, None);
    assert_eq!(found.iter().map(|e| e.id.clone()).collect::<Vec<_>>(), vec!["window_0x10", "window_0x3a"]);
    let second = WindowsWindowPerceptor::find_window_among(&by_class.clone().index(1), &windows, None).unwrap();
    assert_eq!(second.id, "window_0x3a");
    assert_eq!(second.window_title.as_deref(), Some("notes.txt - Notepad"));
    assert_eq!(second.text.as_deref(), Some("notes.txt - Notepad"));
    assert_eq!(second.element_type.as_deref(), Some("Window"));
    assert_eq!(second.platform_handle, Some(0x3a));
    assert_eq!(second.process_id, Some(3));
    assert_eq!(second.process_name.as_deref(), Some("NOTEPAD.EXE"));

    let by_process = WindowSelector::by_process_name("Notepad.exe".into());
    let found = WindowsWindowPerceptor::find_all_windows_among(&by_process, &windows, None);
    assert_eq!(found.len(), 2);
    let found = WindowsWindowPerceptor::find_all_windows_among(&by_process, &windows, Some(3));
    assert_eq!(found.len(), 1);

    let err = WindowsWindowPerceptor::find_window_among(&by_class.clone().index(5), &windows, None).unwrap_err();
    assert_eq!(err, RpaError::WindowNotFound("Window index 5 out of range (found 2 windows)".into()));
    let none = WindowSelector::by_title("Paint".into());
    let err = WindowsWindowPerceptor::find_window_among(&none, &windows, None).unwrap_err();
    assert_eq!(
        err,
        RpaError::WindowNotFound("No window found for selector: process=None, title=Some(\"Paint\"), class=None".into())
    );
}

#[test]
fn wide_strings() {
    let wide = WindowsWindowPerceptor::to_wide_string("Aé😀");
    assert_eq!(wide, vec![0x41, 0xE9, 0xD83D, 0xDE00, 0]);
    assert_eq!(WindowsWindowPerceptor::from_wide_string(&wide), "Aé😀");
    assert_eq!(WindowsWindowPerceptor::from_wide_string(&[0x48, 0x69, 0, 0x41]), "Hi");
    assert_eq!(WindowsWindowPerceptor::from_wide_string(&[0x48, 0xD800, 0x41]), "H\u{FFFD}A");
    assert_eq!(WindowsWindowPerceptor::from_wide_string(&[]), "");
}

#[test]
fn substring_search() {
    assert!(contains_str("hello world", "o w"));
    assert!(contains_str("hello", ""));
    assert!(!contains_str("hello", "world"));
    assert!(!contains_str("", "a"));
    assert!(contains_str("按钮一", "钮"));
    assert_eq!(chars_of("héllo").len(), 5);
}

#[test]
fn base64_of_known_inputs() {
    assert_eq!(base64_encode(b""), "");
    assert_eq!(base64_encode(b"f"), "Zg==");
    assert_eq!(base64_encode(b"fo"), "Zm8=");
    assert_eq!(base64_encode(b"foo"), "Zm9v");
    assert_eq!(base64_encode(b"foobar"), "Zm9vYmFy");
    assert_eq!(base64_encode(&[0xFF, 0xFE, 0xFD]), "//79");
    assert_eq!(png_data_url(&[0x89, 0x50]), "data:image/png;base64,iVA=");
}

#[test]
fn engine_readiness_polls() {
    assert_eq!(engine_url(50051), "http://localhost:50051");
    assert_eq!(after_ready_poll(0, true), ReadyDecision::Ready);
    assert_eq!(after_ready_poll(0, false), ReadyDecision::PollAgain { report: true });
    assert_eq!(after_ready_poll(1, false), ReadyDecision::PollAgain { report: false });
    assert_eq!(after_ready_poll(10, false), ReadyDecision::PollAgain { report: true });
    assert_eq!(after_ready_poll(29, false), ReadyDecision::GiveUp);
}

#[test]
fn settings_defaults() {
    let s = Settings::defaults_for("sqlite://rpa.db".into());
    assert_eq!(s.database_url, "sqlite://rpa.db");
    assert_eq!(s.engine_port, 50051);
    assert_eq!(s.engine_timeout_ms, 30000);
    assert!(!s.debug_enabled);
    assert!(s.debug_highlight);
    assert_eq!(s.debug_highlight_duration_ms, 500);
    assert_eq!(s.debug_screenshot_dir, "./debug_screenshots");
}

#[test]
fn server_config_defaults_and_vm_config() {
    let c = Config::default();
    assert_eq!(c.server.http_addr, "0.0.0.0:8080");
    assert_eq!(c.server.grpc_addr, "0.0.0.0:50051");
    assert_eq!(c.plugins.load_paths, vec!["./plugins".to_string()]);
    let e = EngineConfig { default_timeout_ms: 5, find_strategy: "[uia]".into(), retry_max: 7, retry_delay_ms: 9 };
    let v = VmConfig::from(&e);
    assert_eq!(v.default_timeout_ms, 5);
    assert_eq!(v.retry.max_retries, 7);
    assert_eq!(v.retry.delay_ms, 9);
    assert_eq!(v.retry.backoff, BackoffStrategy::Fixed);
    assert!(matches!(v.find_strategy, FindStrategy::Sequential));
}

#[test]
fn migration_schema() {
    assert_eq!(migration_name(), "m20240415_000001_init_tables");
    let tables = init_tables();
    let names: Vec<&str> = tables.iter().map(|t| t.name.as_str()).collect();
    assert_eq!(names, vec!["plugins", "workflows", "task_history", "settings"]);
    assert_eq!(tables[1].foreign_keys[0].references_table, "plugins");
    assert_eq!(tables[2].foreign_keys[0].column, "workflow_id");
    assert_eq!(dropped_tables(), vec!["task_history", "workflows", "plugins", "settings"]);
}

#[test]
fn plugin_default_dirs() {
    assert_eq!(default_workflows_dir(), "workflows/");
    assert_eq!(default_scripts_dir(), "scripts/");
}

/// Decodes padded base64 text (standard alphabet).
fn decode_base64(text: &str) -> Vec<u8> {
    let value = |c: u8| -> u32 {
        match c {
            b'A'..=b'Z' => (c - b'A') as u32,
            b'a'..=b'z' => (c - b'a') as u32 + 26,
            b'0'..=b'9' => (c - b'0') as u32 + 52,
            b'+' => 62,
            _ => 63,
        }
    };
    let mut out = Vec::new();
    for quad in text.as_bytes().chunks(4) {
        let n = (value(quad[0]) << 18) | (value(quad[1]) << 12) | (value(quad[2]) << 6) | value(quad[3]);
        out.push((n >> 16) as u8);
        if quad[2] != b'=' {
            out.push((n >> 8) as u8);
        }
        if quad[3] != b'=' {
            out.push(n as u8);
        }
    }
    out
}

#[test]
fn base64_pads_only_the_end_and_decodes_back() {
    let data: Vec<u8> = (0u8..=255).rev().collect();
    for len in 0..40usize {
        let bytes = &data[..len];
        let text = base64_encode(bytes);
        let pad = (3 - len % 3) % 3;
        assert_eq!(text.len(), 4 * ((len + 2) / 3));
        assert!(text[..text.len() - pad].bytes().all(|c| c != b'='));
        assert!(text[text.len() - pad..].bytes().all(|c| c == b'='));
        assert_eq!(decode_base64(&text), bytes);
    }
}

#[test]
fn windows_actor_key_sequences() {
    type W = WindowsActor<MockScreenCapturer>;
    // Ctrl+Shift+C: modifiers pressed in order, the key pressed and released,
    // modifiers released in reverse order
    assert_eq!(
        W::key_press_sequence(0x43, &vec![ModifierKey::Ctrl, ModifierKey::Shift]),
        vec![(0x11, false), (0x10, false), (0x43, false), (0x43, true), (0x10, true), (0x11, true)]
    );
    assert_eq!(W::key_press_sequence(0x0D, &vec![]), vec![(0x0D, false), (0x0D, true)]);
    // 'A' is typed with Shift on the 'A' key; 'a' without
    assert_eq!(
        W::char_key_sequence(0x0141, 'A' as u16),
        vec![(0x10, false), (0x41, false), (0x41, true), (0x10, true)]
    );
    assert_eq!(W::char_key_sequence(0x0041, 'a' as u16), vec![(0x41, false), (0x41, true)]);
    assert_eq!(W::char_key_sequence(0xFFFF, 0x4E2D), vec![(0x4E2D, false), (0x4E2D, true)]);
}

#[test]
fn windows_actor_key_code_from_scan() {
    type W = WindowsActor<MockScreenCapturer>;
    assert_eq!(W::key_code_from_scan("a", 0x0041), Ok(0x41));
    assert_eq!(W::key_code_from_scan("A", 0x0141), Ok(0x41));
    assert_eq!(W::key_code_from_scan("中", 0xFFFF), Err(RpaError::Action("Unknown key: 中".into())));
    assert_eq!(W::lookup_key(""), Err(RpaError::Action("Invalid key: ".into())));
}

#[test]
fn windows_actor_send_input_results() {
    type W = WindowsActor<MockScreenCapturer>;
    assert_eq!(W::mouse_input_result(1), Ok(()));
    assert_eq!(W::mouse_input_result(0), Err(RpaError::Action("SendInput failed to send 0 events".into())));
    assert_eq!(W::key_input_result(1), Ok(()));
    assert_eq!(W::key_input_result(0), Err(RpaError::Action("SendInput failed to send keyboard event".into())));
}

#[test]
fn process_search_ignores_ascii_case_and_takes_the_first() {
    let procs = vec![
        ("System".to_string(), 4u32),
        ("Notepad.EXE".to_string(), 100),
        ("notepad.exe".to_string(), 200),
    ];
    assert_eq!(WindowsWindowPerceptor::find_process_id(&procs, "notepad.exe"), Some(100));
    assert_eq!(WindowsWindowPerceptor::find_process_id(&procs, "SYSTEM"), Some(4));
    assert_eq!(WindowsWindowPerceptor::find_process_id(&procs, "notepad"), None);
    assert_eq!(WindowsWindowPerceptor::find_process_id(&vec![], "x"), None);
}

#[test]
fn window_rect_from_edges() {
    assert_eq!(WindowsWindowPerceptor::window_rect(10, 20, 110, 70), Rect::new(10, 20, 100, 50));
    assert_eq!(WindowsWindowPerceptor::window_rect(-5, -5, 5, 0), Rect::new(-5, -5, 10, 5));
    assert_eq!(WindowsWindowPerceptor::window_rect(10, 0, 9, 0), Rect::new(10, 0, u32::MAX, 0));
}
