use daylit_tray::auth::Header;
use daylit_tray::daemon::{
    is_notification_surface, surface_action, Admission, AppState, HandOff, Reply, SaveStep,
    SurfaceAction,
};
use daylit_tray::document::{Document, Field, JsonValue};
use daylit_tray::payload::WebhookPayload;
use daylit_tray::rendezvous::{lockfile_dir, RendezvousRecord, LOCKFILE_NAME};
use daylit_tray::settings::Settings;

fn body(text: Option<&str>, duration: Option<JsonValue>) -> Document {
    let mut fields = Vec::new();
    if let Some(t) = text {
        fields.push(Field { key: "text".to_string(), value: JsonValue::Text(t.to_string()) });
    }
    if let Some(d) = duration {
        fields.push(Field { key: "duration_ms".to_string(), value: d });
    }
    Document { fields }
}

fn started() -> (AppState, String) {
    let mut state = AppState::new();
    let secret = state.install_secret().expect("the OS supplies randomness");
    (state, secret)
}

fn auth(secret: &str) -> Vec<Header> {
    vec![Header::new("Content-Type", "application/json"), Header::new("X-Daylit-Secret", secret)]
}

fn slot(state: &AppState) -> Option<(String, u32)> {
    state.notification_payload().map(|p| (p.text, p.duration_ms))
}

#[test]
fn cold_start_and_one_notification() {
    let (mut state, secret) = started();
    state.record_lockfile("/tmp/daylit");
    let line = RendezvousRecord::new(41234, 777, &secret).to_bytes();
    let line = String::from_utf8(line).unwrap();
    let parts: Vec<&str> = line.split('|').collect();
    assert_eq!(parts.len(), 3);
    assert_eq!(parts[0], "41234");
    assert_eq!(parts[1], "777");
    let read_secret = parts[2];
    assert_eq!(read_secret, secret);

    assert_eq!(state.screen("POST", &auth(read_secret)), Admission::ReadBody);
    let served = state.accept_body(
        Some(&body(Some("Stand up"), Some(JsonValue::Int(5000)))),
        &Settings::default(),
    );
    assert_eq!(served.reply.status(), 200);
    assert_eq!(served.reply.body(), "Notification triggered");
    assert_eq!(slot(&state), Some(("Stand up".to_string(), 5000)));
    match served.handoff {
        Some(HandOff::Surface(p)) => {
            assert_eq!(p.text, "Stand up");
            assert_eq!(p.duration_ms, 5000);
            assert!(matches!(surface_action(false, &p), SurfaceAction::Create));
        }
        _ => panic!("expected one hand-off to the custom surface"),
    }
}

#[test]
fn second_post_reuses_the_surface() {
    let (mut state, secret) = started();
    let _ = state.accept_body(
        Some(&body(Some("Stand up"), Some(JsonValue::Int(5000)))),
        &Settings::default(),
    );
    assert_eq!(state.screen("POST", &auth(&secret)), Admission::ReadBody);
    let served = state.accept_body(
        Some(&body(Some("Stretch"), Some(JsonValue::Int(3000)))),
        &Settings::default(),
    );
    assert_eq!(served.reply, Reply::Triggered);
    assert_eq!(slot(&state), Some(("Stretch".to_string(), 3000)));
    match served.handoff {
        Some(HandOff::Surface(p)) => match surface_action(true, &p) {
            SurfaceAction::Update(u) => {
                assert_eq!(u.text, "Stretch");
                assert_eq!(u.duration_ms, 3000);
            }
            SurfaceAction::Create => panic!("an open surface must be updated, not duplicated"),
        },
        _ => panic!("expected one hand-off to the custom surface"),
    }
}

#[test]
fn missing_secret_header_is_unauthorized() {
    let (mut state, _secret) = started();
    let _ = state.accept_body(Some(&body(Some("Keep"), Some(JsonValue::Int(1)))), &Settings::default());
    let headers = vec![Header::new("Content-Type", "application/json")];
    assert_eq!(state.screen("POST", &headers), Admission::Unauthorized);
    assert_eq!(Reply::Unauthorized.status(), 401);
    assert_eq!(Reply::Unauthorized.body(), "Unauthorized");
    assert_eq!(slot(&state), Some(("Keep".to_string(), 1)));
}

#[test]
fn missing_duration_is_an_invalid_payload() {
    let (mut state, secret) = started();
    assert_eq!(state.screen("POST", &auth(&secret)), Admission::ReadBody);
    let served = state.accept_body(Some(&body(Some("x"), None)), &Settings::default());
    assert_eq!(served.reply.status(), 400);
    assert_eq!(served.reply.body(), "Invalid payload");
    assert!(served.handoff.is_none());
    assert_eq!(slot(&state), None);
}

#[test]
fn zero_duration_is_rejected() {
    let (mut state, _) = started();
    let served = state.accept_body(Some(&body(Some("x"), Some(JsonValue::Int(0)))), &Settings::default());
    assert_eq!(served.reply, Reply::InvalidPayload);
    assert_eq!(slot(&state), None);
}

#[test]
fn empty_text_is_rejected() {
    let (mut state, _) = started();
    let served = state.accept_body(Some(&body(Some(""), Some(JsonValue::Int(10)))), &Settings::default());
    assert_eq!(served.reply, Reply::InvalidPayload);
    assert!(served.handoff.is_none());
}

#[test]
fn payload_bounds() {
    let ok = |t: &str, d: JsonValue| WebhookPayload::from_document(&body(Some(t), Some(d))).is_some();
    assert!(ok(&"a".repeat(4096), JsonValue::Int(1)));
    assert!(!ok(&"a".repeat(4097), JsonValue::Int(1)));
    assert!(ok(&"é".repeat(2048), JsonValue::Int(1)));
    assert!(!ok(&"é".repeat(2049), JsonValue::Int(1)));
    assert!(ok("x", JsonValue::Int(u32::MAX as u64)));
    assert!(!ok("x", JsonValue::Int(u32::MAX as u64 + 1)));
    assert!(!ok("x", JsonValue::Other));
    assert!(!ok("x", JsonValue::Text("5".to_string())));
    let mut extra = body(Some("x"), Some(JsonValue::Int(7)));
    extra.fields.push(Field { key: "urgent".to_string(), value: JsonValue::Bool(true) });
    let p = WebhookPayload::from_document(&extra).unwrap();
    assert_eq!((p.text.as_str(), p.duration_ms), ("x", 7));
}

#[test]
fn body_that_is_not_an_object_is_invalid() {
    let (mut state, _) = started();
    let served = state.accept_body(None, &Settings::default());
    assert_eq!(served.reply, Reply::InvalidPayload);
}

#[test]
fn non_post_is_ignored() {
    let (state, secret) = started();
    assert_eq!(state.screen("GET", &auth(&secret)), Admission::Ignore);
    assert_eq!(state.screen("post", &auth(&secret)), Admission::Ignore);
}

#[test]
fn no_secret_in_place_rejects_everything() {
    let state = AppState::new();
    assert_eq!(state.screen("POST", &auth("")), Admission::Unauthorized);
}

#[test]
fn lower_case_header_authenticates_like_canonical() {
    let (state, secret) = started();
    let lower = vec![Header::new("x-daylit-secret", &secret)];
    assert_eq!(state.screen("POST", &lower), Admission::ReadBody);
    assert_eq!(state.screen("POST", &auth(&secret)), Admission::ReadBody);
}

#[test]
fn native_mode_hands_off_the_text() {
    let (mut state, _) = started();
    let settings = Settings { use_native_notifications: true, ..Settings::default() };
    let served = state.accept_body(Some(&body(Some("Drink water"), Some(JsonValue::Int(9)))), &settings);
    match served.handoff {
        Some(HandOff::Native(t)) => assert_eq!(t, "Drink water"),
        _ => panic!("expected a native notification"),
    }
    assert_eq!(slot(&state), Some(("Drink water".to_string(), 9)));
}

#[test]
fn serial_requests_keep_the_latest_payload() {
    let (mut state, secret) = started();
    let mut handoffs = Vec::new();
    let requests = vec![
        ("POST", auth(&secret), body(Some("one"), Some(JsonValue::Int(1)))),
        ("POST", auth("nope"), body(Some("two"), Some(JsonValue::Int(2)))),
        ("POST", auth(&secret), body(Some("three"), Some(JsonValue::Int(0)))),
        ("GET", auth(&secret), body(Some("four"), Some(JsonValue::Int(4)))),
        ("POST", auth(&secret), body(Some("five"), Some(JsonValue::Int(5)))),
    ];
    for (method, headers, b) in &requests {
        if state.screen(method, headers) == Admission::ReadBody {
            if let Some(HandOff::Surface(p)) = state.accept_body(Some(b), &Settings::default()).handoff {
                handoffs.push(p.text);
            }
        }
    }
    assert_eq!(handoffs, vec!["one".to_string(), "five".to_string()]);
    assert_eq!(slot(&state), Some(("five".to_string(), 5)));
}

#[test]
fn lockfile_line_is_exact() {
    let r = RendezvousRecord::new(8080, 1234, "abcXYZ019");
    assert_eq!(r.to_bytes(), b"8080|1234|abcXYZ019".to_vec());
    let r = RendezvousRecord::new(65535, u32::MAX, "s");
    assert_eq!(r.to_bytes(), b"65535|4294967295|s".to_vec());
    let r = RendezvousRecord::new(0, 0, "");
    assert_eq!(r.to_bytes(), b"0|0|".to_vec());
    let r = RendezvousRecord::new(10, 100, "x");
    assert_eq!(r.to_bytes(), b"10|100|x".to_vec());
    assert_eq!(LOCKFILE_NAME, "daylit-tray.lock");
}

#[test]
fn lockfile_directory_prefers_settings() {
    let mut s = Settings::default();
    assert_eq!(lockfile_dir(&s, Some("/home/u/.config/daylit")).as_deref(), Some("/home/u/.config/daylit"));
    assert_eq!(lockfile_dir(&s, None), None);
    s.lockfile_dir = Some("/custom".to_string());
    assert_eq!(lockfile_dir(&s, Some("/home/u/.config/daylit")).as_deref(), Some("/custom"));
    assert_eq!(lockfile_dir(&s, None).as_deref(), Some("/custom"));
}

fn step_names(steps: &[SaveStep]) -> Vec<String> {
    steps
        .iter()
        .map(|s| match s {
            SaveStep::SetAutostart(b) => format!("autostart:{}", b),
            SaveStep::MoveLockfile { from, to } => format!("move:{}->{}", from, to),
            SaveStep::Persist(_) => "persist".to_string(),
            SaveStep::Broadcast => "broadcast".to_string(),
        })
        .collect()
}

#[test]
fn save_moves_the_lockfile_when_its_directory_changes() {
    let (mut state, _) = started();
    state.record_lockfile("/old");
    let settings = Settings {
        lockfile_dir: Some("/new".to_string()),
        launch_at_login: true,
        ..Settings::default()
    };
    let steps = state.plan_save(&settings, Some("/cfg")).unwrap();
    assert_eq!(step_names(&steps), vec!["autostart:true", "move:/old->/new", "persist", "broadcast"]);
    if let SaveStep::Persist(d) = &steps[2] {
        assert!(Settings::load(Some(d)).launch_at_login);
    }
    state.record_lockfile("/new");
    assert_eq!(state.lockfile_to_remove().as_deref(), Some("/new"));
}

#[test]
fn save_without_directory_change_does_not_move() {
    let (mut state, _) = started();
    state.record_lockfile("/cfg");
    let steps = state.plan_save(&Settings::default(), Some("/cfg")).unwrap();
    assert_eq!(step_names(&steps), vec!["autostart:false", "persist", "broadcast"]);
    let moved_back = state.plan_save(&Settings { lockfile_dir: Some("/elsewhere".to_string()), ..Settings::default() }, Some("/cfg")).unwrap();
    assert_eq!(step_names(&moved_back), vec!["autostart:false", "move:/cfg->/elsewhere", "persist", "broadcast"]);
}

#[test]
fn save_before_any_lockfile_does_not_move() {
    let state = AppState::new();
    let steps = state.plan_save(&Settings { lockfile_dir: Some("/x".to_string()), ..Settings::default() }, Some("/cfg")).unwrap();
    assert_eq!(step_names(&steps), vec!["autostart:false", "persist", "broadcast"]);
    assert_eq!(state.lockfile_to_remove(), None);
}

#[test]
fn only_the_notification_surface_closes() {
    assert!(is_notification_surface("notification_dialog"));
    assert!(!is_notification_surface("main"));
    assert!(!is_notification_surface("settings"));
}

#[test]
fn save_needs_the_config_directory_only_without_a_lockfile_dir() {
    let mut state = AppState::new();
    state.record_lockfile("/old");
    let custom = Settings { lockfile_dir: Some("/new".to_string()), ..Settings::default() };
    let steps = state.plan_save(&custom, None).unwrap();
    assert_eq!(step_names(&steps), vec!["autostart:false", "move:/old->/new", "persist", "broadcast"]);
    assert!(state.plan_save(&Settings::default(), None).is_none());
}

#[test]
fn installed_secret_is_the_one_checked() {
    let mut state = AppState::new();
    let secret = state.install_secret().unwrap();
    assert_eq!(secret.len(), 32);
    assert_eq!(state.screen("POST", &auth(&secret)), Admission::ReadBody);
    assert_eq!(state.screen("POST", &auth("x")), Admission::Unauthorized);
}
