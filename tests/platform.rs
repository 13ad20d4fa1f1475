use loopautoma::{
    classify_key, hash_pixels, normalize_rect, run_soak, Automation, FakeAutomation, FakeCapture,
    KeySpec, MouseButton, NamedKey, PickPoint, Rect, Region, ScreenCapture, SoakConfig,
};

#[test]
fn macos_hash_pixels_changes_with_content() {
    let data = vec![0u8, 1, 2, 3, 4, 5, 6, 7];
    let other = vec![0u8, 1, 9, 3, 4, 5, 6, 7];
    let h1 = hash_pixels(&data, 2, 1, 1);
    let h2 = hash_pixels(&other, 2, 1, 1);
    assert_ne!(h1, h2);
}

#[test]
fn macos_hash_pixels_respects_downscale() {
    let data = vec![10u8; 64];
    let h1 = hash_pixels(&data, 4, 4, 1);
    let h2 = hash_pixels(&data, 4, 4, 4);
    assert_ne!(h1, h2);
}

#[test]
fn macos_hash_pixels_returns_zero_for_empty_buffer() {
    assert_eq!(hash_pixels(&[], 4, 4, 1), 0);
    let buf = vec![1u8; 16];
    assert_eq!(hash_pixels(&buf, 0, 4, 1), 0);
}

#[test]
fn windows_hash_pixels_changes_with_content() {
    let data = vec![0u8, 1, 2, 3, 4, 5, 6, 7];
    let other = vec![0u8, 1, 9, 3, 4, 5, 6, 7];
    let h1 = hash_pixels(&data, 2, 1, 1);
    let h2 = hash_pixels(&other, 2, 1, 1);
    assert_ne!(h1, h2);
}

#[test]
fn windows_hash_pixels_respects_downscale() {
    let data = vec![10u8; 64];
    let h1 = hash_pixels(&data, 4, 4, 1);
    let h2 = hash_pixels(&data, 4, 4, 4);
    assert_ne!(h1, h2);
}

#[test]
fn windows_hash_pixels_returns_zero_for_empty_buffer() {
    assert_eq!(hash_pixels(&[], 4, 4, 1), 0);
    let buf = vec![1u8; 16];
    assert_eq!(hash_pixels(&buf, 0, 4, 1), 0);
}

/// The same FNV-1a fold written out by hand for one 1x1 pixel.
#[test]
fn hash_pixels_exact_value_for_one_pixel() {
    let prime: u64 = 0x100000001b3;
    let mut h: u64 = 0xcbf29ce484222325;
    for v in [1u64, 1, 4, 1, 2, 3, 4] {
        h = (h ^ v).wrapping_mul(prime);
    }
    assert_eq!(hash_pixels(&[1, 2, 3, 4], 1, 1, 1), h);
}

#[test]
fn classify_named_keys() {
    assert!(matches!(classify_key("Enter").unwrap(), KeySpec::Named(NamedKey::Enter)));
    assert!(matches!(classify_key("escape").unwrap(), KeySpec::Named(NamedKey::Escape)));
    assert!(matches!(classify_key("TAB").unwrap(), KeySpec::Named(NamedKey::Tab)));
}

#[test]
fn classify_single_char_keys() {
    assert!(matches!(classify_key("a").unwrap(), KeySpec::Char('a')));
    assert!(matches!(classify_key("✅").unwrap(), KeySpec::Char('✅')));
}

#[test]
fn classify_rejects_invalid_inputs() {
    assert!(classify_key("").is_err());
    assert!(classify_key("ShiftLeft").is_err());
}

#[test]
fn classify_reports_messages() {
    assert_eq!(classify_key("").unwrap_err(), "key cannot be empty");
    assert_eq!(
        classify_key("F13").unwrap_err(),
        "unsupported key 'F13': use Enter, Escape, Tab, Space, Backspace, or a single Unicode character"
    );
    assert!(matches!(classify_key("Esc").unwrap(), KeySpec::Named(NamedKey::Escape)));
    assert!(matches!(classify_key("BackSpace").unwrap(), KeySpec::Named(NamedKey::Backspace)));
}

#[test]
fn normalize_rect_basic() {
    let start = PickPoint { x: 10, y: 20 };
    let end = PickPoint { x: 50, y: 60 };
    let rect = normalize_rect(&start, &end).unwrap();
    assert_eq!(rect.x, 10);
    assert_eq!(rect.y, 20);
    assert_eq!(rect.width, 40);
    assert_eq!(rect.height, 40);
}

#[test]
fn normalize_rect_reversed_coordinates() {
    let start = PickPoint { x: 50, y: 60 };
    let end = PickPoint { x: 10, y: 20 };
    let rect = normalize_rect(&start, &end).unwrap();
    assert_eq!(rect.x, 10);
    assert_eq!(rect.y, 20);
    assert_eq!(rect.width, 40);
    assert_eq!(rect.height, 40);
}

#[test]
fn normalize_rect_negative_coordinates_clamped() {
    let start = PickPoint { x: -10, y: -5 };
    let end = PickPoint { x: 30, y: 40 };
    let rect = normalize_rect(&start, &end).unwrap();
    assert_eq!(rect.x, 0);
    assert_eq!(rect.y, 0);
    assert_eq!(rect.width, 30);
    assert_eq!(rect.height, 40);
}

#[test]
fn normalize_rect_zero_size_rejected() {
    let start = PickPoint { x: 10, y: 20 };
    let end = PickPoint { x: 10, y: 20 };
    let rect = normalize_rect(&start, &end);
    assert!(rect.is_none());
}

#[test]
fn normalize_rect_minimum_size() {
    let start = PickPoint { x: 10, y: 20 };
    let end = PickPoint { x: 11, y: 21 };
    let rect = normalize_rect(&start, &end).unwrap();
    assert_eq!(rect.width, 1);
    assert_eq!(rect.height, 1);
}

#[test]
fn normalize_rect_all_negative_coordinates() {
    let start = PickPoint { x: -100, y: -200 };
    let end = PickPoint { x: -50, y: -150 };
    let rect = normalize_rect(&start, &end);
    assert!(rect.is_none());
}

#[test]
fn normalize_rect_extreme_span() {
    let rect = normalize_rect(&PickPoint { x: i32::MIN, y: 0 }, &PickPoint { x: i32::MAX, y: 1 }).unwrap();
    assert_eq!(rect, Rect { x: 0, y: 0, width: i32::MAX as u32, height: 1 });
}

#[test]
fn fakes_provide_deterministic_data() {
    let cap = FakeCapture;
    let r = Region { id: "test".into(), rect: Rect { x: 0, y: 0, width: 100, height: 100 }, name: None };
    let h1 = cap.hash_region(&r, 4);
    let h2 = cap.hash_region(&r, 4);
    assert_eq!(h1, h2);
    let frame = cap.capture_region(&r).unwrap();
    assert_eq!(frame.width, 100);
    assert_eq!(frame.height, 100);
    assert_eq!(frame.bytes.len(), 100 * 100 * 4);
    let displays = cap.displays().unwrap();
    assert_eq!(displays.len(), 1);
    let auto = FakeAutomation;
    assert!(auto.move_cursor(10, 20).is_ok());
    assert!(auto.click(MouseButton::Left).is_ok());
    assert!(auto.type_text("test").is_ok());
    assert!(auto.key("Enter").is_ok());
}

#[test]
fn soak_runner_reports_guardrail_trip() {
    let mut cfg = SoakConfig::default();
    cfg.ticks = 5_000;
    cfg.check_interval_ms = 250;
    cfg.max_runtime_ms = 200;
    let report = run_soak(&cfg);
    assert!(report.ticks_executed <= cfg.ticks);
    assert!(report.guardrail_trips.iter().any(|reason| reason == "max_runtime"));
    assert_eq!(report.action_failures, 0);
}

#[test]
fn soak_default_runs_until_runtime_cap() {
    let cfg = SoakConfig::default();
    let report = run_soak(&cfg);
    assert_eq!(report.tick_budget, 25_000);
    assert_eq!(report.ticks_executed, 22);
    assert_eq!(report.runtime_ms_simulated, 2_200);
    assert_eq!(report.guardrail_trips, vec!["max_runtime".to_string()]);
    assert!(report.activations > 0);
}

#[test]
fn parse_numbers_from_arguments() {
    assert_eq!(loopautoma::parse_u64("42", "--ticks"), Ok(42));
    assert_eq!(loopautoma::parse_u64("+7", "--ticks"), Ok(7));
    assert_eq!(loopautoma::parse_u64("-1", "--ticks"), Err("Invalid numeric value for --ticks: -1".to_string()));
    assert_eq!(loopautoma::parse_u32("4294967295", "--n"), Ok(u32::MAX));
    assert_eq!(loopautoma::parse_u32("4294967296", "--n"), Err("Invalid numeric value for --n: 4294967296".to_string()));
    assert!(loopautoma::parse_u64("", "--x").is_err());
    assert!(loopautoma::parse_u64("+", "--x").is_err());
}

#[test]
fn soak_config_reads_flag_pairs() {
    let args: Vec<String> = ["--ticks", "10", "--max-runtime-ms", "300"].iter().map(|s| s.to_string()).collect();
    let cfg = loopautoma::soak_config_from_args(&args).unwrap();
    assert_eq!(cfg.ticks, 10);
    assert_eq!(cfg.max_runtime_ms, 300);
    assert_eq!(cfg.interval_ms, 100);
    let missing: Vec<String> = vec!["--ticks".to_string()];
    assert_eq!(loopautoma::soak_config_from_args(&missing).unwrap_err(), "Missing value for --ticks");
    let unknown: Vec<String> = vec!["--speed".to_string(), "1".to_string()];
    assert_eq!(loopautoma::soak_config_from_args(&unknown).unwrap_err(), "Unknown flag --speed");
}

#[test]
fn relative_coordinates_are_clamped() {
    assert_eq!(loopautoma::relative_coord(100, 40), 60);
    assert_eq!(loopautoma::relative_coord(0, 1920), -1920);
    assert_eq!(loopautoma::relative_coord(u32::MAX, 0), i32::MAX);
    assert_eq!(loopautoma::relative_coord(0, i32::MAX), -i32::MAX);
}

#[test]
fn display_contains_region() {
    let display = loopautoma::DisplayInfo {
        id: 1,
        name: None,
        x: 1920,
        y: 0,
        width: 1920,
        height: 1080,
        scale_permille: 1000,
        is_primary: false,
    };
    let inside = Region { id: "a".into(), rect: Rect { x: 2000, y: 10, width: 100, height: 100 }, name: None };
    let across = Region { id: "b".into(), rect: Rect { x: 1900, y: 10, width: 100, height: 100 }, name: None };
    assert!(loopautoma::contains_region(&display, &inside));
    assert!(!loopautoma::contains_region(&display, &across));
}

#[test]
fn openai_client_settings_and_message() {
    assert_eq!(
        loopautoma::OpenAIClient::new(None, None, None).unwrap_err(),
        "OPENAI_API_KEY environment variable not set"
    );
    let client = loopautoma::OpenAIClient::new(Some("k".into()), None, Some("m".into())).unwrap();
    assert_eq!(client.api_endpoint, "https://api.openai.com/v1/chat/completions");
    assert_eq!(client.model, "m");
    let msg = client.build_system_message(Some("Be brief."), "GUIDE");
    assert!(msg.starts_with("Be brief.\n\nGUIDE\n\nReturn ONLY a JSON object"));
    let default = client.build_system_message(None, "G");
    assert!(default.starts_with(
        "You are an AI assistant helping with desktop automation. Generate a safe, concise prompt based on the screen content provided.\n\nG"
    ));
}
