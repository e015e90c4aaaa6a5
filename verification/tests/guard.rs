use polish_language::guard::InvocationGuard;
use polish_language::pipeline::{Action, Event, Pipeline};
use polish_language::provider::{
    ChatMessage, OpenAiChoice, OpenAiResponse, Operation, ProviderResponse,
};
use polish_language::settings::Settings;

#[test]
fn new_guard_is_idle() {
    let g = InvocationGuard::new();
    assert!(!g.is_busy(Operation::Polish));
    assert!(!g.is_busy(Operation::Translate));
    assert!(!g.any_busy());
    assert_eq!(g.in_flight(Operation::Polish), 0);
    assert_eq!(g.in_flight(Operation::Translate), 0);
}

#[test]
fn enter_marks_busy_and_exit_marks_idle() {
    let mut g = InvocationGuard::new();
    assert!(g.enter(Operation::Polish));
    assert!(g.is_busy(Operation::Polish));
    assert!(g.any_busy());
    assert_eq!(g.in_flight(Operation::Polish), 1);
    g.exit(Operation::Polish);
    assert!(!g.is_busy(Operation::Polish));
    assert!(!g.any_busy());
    assert_eq!(g, InvocationGuard::new());
}

#[test]
fn operations_are_counted_apart() {
    let mut g = InvocationGuard::new();
    g.enter(Operation::Translate);
    assert!(!g.is_busy(Operation::Polish));
    assert!(g.is_busy(Operation::Translate));
    g.exit(Operation::Polish);
    assert!(g.is_busy(Operation::Translate));
    assert_eq!(g.in_flight(Operation::Translate), 1);
}

#[test]
fn overlapping_runs_keep_the_operation_busy() {
    let mut g = InvocationGuard::new();
    g.enter(Operation::Polish);
    g.enter(Operation::Polish);
    assert_eq!(g.in_flight(Operation::Polish), 2);
    g.exit(Operation::Polish);
    assert!(g.is_busy(Operation::Polish));
    g.exit(Operation::Polish);
    assert!(!g.is_busy(Operation::Polish));
}

#[test]
fn exit_without_a_run_changes_nothing() {
    let mut g = InvocationGuard::new();
    g.exit(Operation::Polish);
    assert_eq!(g, InvocationGuard::new());
    assert_eq!(g.in_flight(Operation::Polish), 0);
}

#[test]
fn apply_follows_the_marks_of_a_run() {
    let mut g = InvocationGuard::new();
    g.apply(Operation::Translate, &Action::CaptureSelection);
    g.apply(Operation::Translate, &Action::LoadSettings);
    assert!(!g.any_busy());
    g.apply(Operation::Translate, &Action::MarkBusy);
    assert!(g.is_busy(Operation::Translate));
    assert!(!g.is_busy(Operation::Polish));
    g.apply(Operation::Translate, &Action::PlaySound);
    g.apply(Operation::Translate, &Action::Report { message: "m".to_string() });
    assert_eq!(g.in_flight(Operation::Translate), 1);
    g.apply(Operation::Translate, &Action::MarkIdle);
    assert!(!g.any_busy());
}

#[test]
fn guard_counts_a_run_exactly_while_it_is_in_flight() {
    let mut settings = Settings::default();
    settings.set_api_key("openai", "sk-test");
    let events = vec![
        Event::Triggered,
        Event::Captured { text: "x".to_string() },
        Event::SettingsLoaded { settings },
        Event::Responded { status: 200 },
        Event::Parsed {
            response: ProviderResponse::OpenAi(OpenAiResponse {
                choices: vec![OpenAiChoice {
                    message: ChatMessage {
                        role: "assistant".to_string(),
                        content: "y".to_string(),
                    },
                }],
            }),
        },
        Event::ClipboardWritten { ok: true },
    ];
    let mut guard = InvocationGuard::new();
    assert!(guard.enter(Operation::Polish));
    let mut pipeline = Pipeline::new(Operation::Polish);
    for event in events {
        let (next, actions) = pipeline.step(event);
        pipeline = next;
        for action in &actions {
            guard.apply(Operation::Polish, action);
        }
        let expected = if pipeline.is_in_flight() { 2 } else { 1 };
        assert_eq!(guard.in_flight(Operation::Polish), expected);
        assert_eq!(guard.in_flight(Operation::Translate), 0);
    }
    assert!(pipeline.is_finished());
    assert!(guard.is_busy(Operation::Polish));
    guard.exit(Operation::Polish);
    assert!(!guard.any_busy());
}

#[test]
fn guard_is_restored_after_a_failed_run() {
    let mut settings = Settings::default();
    settings.set_api_key("openai", "sk-test");
    let events = vec![
        Event::Triggered,
        Event::Captured { text: "x".to_string() },
        Event::SettingsLoaded { settings },
        Event::SendFailed { reason: "offline".to_string() },
    ];
    let mut guard = InvocationGuard::new();
    let mut pipeline = Pipeline::new(Operation::Translate);
    let mut seen_busy = false;
    for event in events {
        let (next, actions) = pipeline.step(event);
        pipeline = next;
        for action in &actions {
            guard.apply(Operation::Translate, action);
        }
        seen_busy = seen_busy || guard.is_busy(Operation::Translate);
    }
    assert!(seen_busy);
    assert!(pipeline.is_finished());
    assert_eq!(guard, InvocationGuard::new());
}
