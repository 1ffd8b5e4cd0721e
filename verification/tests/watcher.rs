use hot_reload::config::{child_args, WatchConfig, DEFAULT_DEBOUNCE_MS};
use hot_reload::control::reload_command;
use hot_reload::debounce::{should_trigger, DebounceState};
use hot_reload::event::{event_is_relevant, path_has_watched_extension, ChangeEvent, EventKind};
use hot_reload::orchestrator::{Action, Orchestrator, Phase, StreamItem};

fn path(s: &str) -> Vec<u8> {
    s.as_bytes().to_vec()
}

fn event(kind: EventKind, paths: &[&str]) -> ChangeEvent {
    ChangeEvent { kind, paths: paths.iter().map(|p| path(p)).collect() }
}

fn running_orchestrator(debounce_ms: u64) -> Orchestrator {
    let mut orch = Orchestrator::new(debounce_ms);
    orch.on_watch_result(true);
    orch.on_spawn_result(true);
    assert_eq!(orch.phase, Phase::Running);
    orch
}

#[test]
fn extension_is_recognized() {
    assert!(path_has_watched_extension(&path("lib.dart")));
    assert!(path_has_watched_extension(&path("a/b/main.dart")));
    assert!(path_has_watched_extension(&path("a..dart")));
    assert!(!path_has_watched_extension(&path("notes.txt")));
    assert!(!path_has_watched_extension(&path("dart")));
    assert!(!path_has_watched_extension(&path(".dart")));
    assert!(!path_has_watched_extension(&path("a/.dart")));
    assert!(!path_has_watched_extension(&path("main.dartx")));
    assert!(!path_has_watched_extension(&path("main.Dart")));
    assert!(!path_has_watched_extension(&path("")));
}

#[test]
fn only_modifications_are_relevant() {
    let paths = ["lib/main.dart"];
    assert!(event_is_relevant(&event(EventKind::Modified, &paths)));
    assert!(!event_is_relevant(&event(EventKind::Created, &paths)));
    assert!(!event_is_relevant(&event(EventKind::Removed, &paths)));
    assert!(!event_is_relevant(&event(EventKind::Other, &paths)));
}

#[test]
fn one_watched_path_among_others_is_enough() {
    assert!(event_is_relevant(&event(EventKind::Modified, &["a.txt", "b.dart"])));
    assert!(!event_is_relevant(&event(EventKind::Modified, &["a.txt", "b.md"])));
    assert!(!event_is_relevant(&event(EventKind::Modified, &[])));
}

#[test]
fn non_modified_kind_never_triggers() {
    let st = DebounceState::new(500);
    let e = event(EventKind::Created, &["lib/main.dart"]);
    assert!(!should_trigger(&e, &st, 10_000));
}

#[test]
fn non_matching_path_never_triggers() {
    let st = DebounceState::new(500);
    let e = event(EventKind::Modified, &["notes.txt"]);
    assert!(!should_trigger(&e, &st, 10_000));
}

#[test]
fn boundary_is_strict() {
    let mut st = DebounceState::new(500);
    st.record_trigger(1000);
    let e = event(EventKind::Modified, &["lib/main.dart"]);
    assert!(!should_trigger(&e, &st, 1500));
    assert!(should_trigger(&e, &st, 1501));
}

#[test]
fn burst_within_interval_triggers_once() {
    let mut orch = running_orchestrator(500);
    let e = event(EventKind::Modified, &["lib/main.dart"]);
    let first = orch.on_stream_item(&StreamItem::Change { event: e }, 1000);
    assert_eq!(first, Action::SendReload);
    let e = event(EventKind::Modified, &["lib/main.dart"]);
    let second = orch.on_stream_item(&StreamItem::Change { event: e }, 1100);
    assert_eq!(second, Action::Continue);
}

#[test]
fn spaced_events_trigger_twice() {
    let mut orch = running_orchestrator(500);
    let e = event(EventKind::Modified, &["lib/main.dart"]);
    let first = orch.on_stream_item(&StreamItem::Change { event: e }, 1000);
    assert_eq!(first, Action::SendReload);
    let e = event(EventKind::Modified, &["lib/main.dart"]);
    let second = orch.on_stream_item(&StreamItem::Change { event: e }, 1600);
    assert_eq!(second, Action::SendReload);
}

#[test]
fn unwatched_file_never_triggers() {
    let mut orch = running_orchestrator(500);
    for now in [1000u64, 5000, 50_000] {
        let e = event(EventKind::Modified, &["notes.txt"]);
        let a = orch.on_stream_item(&StreamItem::Change { event: e }, now);
        assert_eq!(a, Action::Continue);
    }
}

#[test]
fn spawn_failure_ends_run_with_error() {
    let mut orch = Orchestrator::new(500);
    orch.on_watch_result(true);
    orch.on_spawn_result(false);
    assert_eq!(orch.phase, Phase::DoneError);
    assert_ne!(orch.exit_code(), 0);
}

#[test]
fn watch_failure_ends_run_with_error() {
    let mut orch = Orchestrator::new(500);
    orch.on_watch_result(false);
    assert_eq!(orch.phase, Phase::DoneError);
    assert_eq!(orch.exit_code(), 1);
}

#[test]
fn failed_write_keeps_running_and_keeps_window() {
    let mut orch = running_orchestrator(500);
    let e = event(EventKind::Modified, &["lib/main.dart"]);
    let a = orch.on_stream_item(&StreamItem::Change { event: e }, 1000);
    assert_eq!(a, Action::SendReload);
    orch.on_reload_result(false);
    assert_eq!(orch.phase, Phase::Running);
    // Still inside the window the failed write opened: no new trigger.
    let e = event(EventKind::Modified, &["lib/main.dart"]);
    let a = orch.on_stream_item(&StreamItem::Change { event: e }, 1200);
    assert_eq!(a, Action::Continue);
    // Past the window the next matching event attempts a write again.
    let e = event(EventKind::Modified, &["lib/main.dart"]);
    let a = orch.on_stream_item(&StreamItem::Change { event: e }, 1600);
    assert_eq!(a, Action::SendReload);
    orch.on_reload_result(false);
    assert_eq!(orch.phase, Phase::Running);
}

#[test]
fn stream_error_is_non_fatal() {
    let mut orch = running_orchestrator(500);
    let a = orch.on_stream_item(&StreamItem::StreamError, 1000);
    assert_eq!(a, Action::Continue);
    assert_eq!(orch.phase, Phase::Running);
}

#[test]
fn closed_channel_ends_run_normally() {
    let mut orch = running_orchestrator(500);
    let a = orch.on_stream_item(&StreamItem::Closed, 1000);
    assert_eq!(a, Action::Stop);
    assert_eq!(orch.phase, Phase::DoneNormal);
    assert_eq!(orch.exit_code(), 0);
}

#[test]
fn two_reloads_write_two_tokens_in_order() {
    let mut stream: Vec<u8> = Vec::new();
    stream.extend(reload_command());
    stream.extend(reload_command());
    assert_eq!(stream, b"r\nr\n".to_vec());
}

#[test]
fn reload_command_is_the_fixed_token() {
    assert_eq!(reload_command(), b"r\n".to_vec());
}

#[test]
fn child_args_prepend_the_subcommand() {
    let extra = vec!["--flavor".to_string(), "dev".to_string()];
    let args = child_args(&extra);
    assert_eq!(args, vec!["run".to_string(), "--flavor".to_string(), "dev".to_string()]);
    assert_eq!(child_args(&Vec::new()), vec!["run".to_string()]);
}

#[test]
fn config_is_recursive_with_defaults() {
    assert_eq!(DEFAULT_DEBOUNCE_MS, 500);
    let c = WatchConfig::new(".".to_string(), DEFAULT_DEBOUNCE_MS, Vec::new());
    assert!(c.recursive);
    assert_eq!(c.root_path, ".".to_string());
    assert_eq!(c.debounce_ms, 500);
    assert!(c.passthrough_args.is_empty());
}

#[test]
fn fresh_state_debounces_from_startup() {
    // The start of the run counts as the last accepted trigger at time zero.
    let st = DebounceState::new(500);
    let e = event(EventKind::Modified, &["lib/main.dart"]);
    assert!(!should_trigger(&e, &st, 300));
    assert!(should_trigger(&e, &st, 501));
}
