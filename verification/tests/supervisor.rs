use sidecar_rpc::events::SidecarStatusEvent;
use sidecar_rpc::ipc::{encode_request, IdCounter, JsonRpcError};
use sidecar_rpc::json::JsonText;
use sidecar_rpc::pending::PendingCalls;
use sidecar_rpc::sidecar::{
    end_of_stream, settle, shut_down, CallEvent, LaunchOutcome, LaunchSpec, Phase, SidecarError,
    SidecarProcess, Stream, CALL_TIMEOUT_SECS,
};
use sidecar_rpc::transport::{dispatch, handle_line, is_blank, translate, LineAction};

fn json(text: &str) -> JsonText {
    JsonText::parse(text).expect("valid JSON")
}

fn running() -> SidecarProcess {
    let mut s = SidecarProcess::new();
    assert!(s.start().is_ok());
    assert!(s.started(LaunchOutcome::Spawned).is_ok());
    s
}

#[test]
fn round_trip_resolves_the_registered_call() {
    let mut counter = IdCounter::new();
    let mut table: PendingCalls<&str> = PendingCalls::new();
    let (id, _line) = encode_request(&mut counter, "echo", Some(json("{\"x\":1}")));
    assert!(table.register(id, "caller").is_none());
    let response = format!("{{\"jsonrpc\":\"2.0\",\"id\":{},\"result\":{{\"echo\":{{\"x\":1}}}}}}", id);
    match handle_line(&mut table, &response) {
        LineAction::Complete { handle, outcome } => {
            assert_eq!(handle, "caller");
            assert_eq!(outcome.unwrap().as_str(), "{\"echo\":{\"x\":1}}");
        }
        _ => panic!("expected a completion"),
    }
    assert_eq!(table.len(), 0);
}

#[test]
fn scenario_echo_worker() {
    let mut s = running();
    let mut table: PendingCalls<u8> = PendingCalls::new();
    let (id, line) = s.call("echo", Some(json("{\"x\":1}"))).ok().unwrap();
    assert_eq!(line, "{\"jsonrpc\":\"2.0\",\"method\":\"echo\",\"params\":{\"x\":1},\"id\":1}\n");
    table.register(id, 0);
    let request = json(line.trim_end());
    let echoed = format!(
        "{{\"id\":{},\"result\":{{\"echo\":{}}}}}",
        request.get("id").unwrap().as_str(),
        request.get("params").unwrap().as_str()
    );
    let outcome = match handle_line(&mut table, &echoed) {
        LineAction::Complete { outcome, .. } => outcome,
        _ => panic!("expected a completion"),
    };
    let result = settle(&mut table, id, CallEvent::Delivered(outcome));
    assert_eq!(result.ok().unwrap().as_str(), "{\"echo\":{\"x\":1}}");
}

#[test]
fn scenario_silent_worker_times_out_and_late_answer_is_ignored() {
    let mut s = running();
    let mut table: PendingCalls<u8> = PendingCalls::new();
    let (id, _) = s.call("noop", None).ok().unwrap();
    table.register(id, 9);
    assert!(table.is_pending(id));
    let result = settle(&mut table, id, CallEvent::TimedOut);
    assert!(matches!(result, Err(SidecarError::Timeout)));
    assert!(!table.is_pending(id));
    assert_eq!(table.len(), 0);
    let late = format!("{{\"jsonrpc\":\"2.0\",\"id\":{},\"result\":1}}", id);
    assert!(matches!(handle_line(&mut table, &late), LineAction::Skip));
    assert_eq!(table.len(), 0);
}

#[test]
fn scenario_notification_is_republished_under_translated_name() {
    let mut table: PendingCalls<u8> = PendingCalls::new();
    table.register(1, 1);
    match handle_line(&mut table, "{\"method\":\"progress.update\",\"params\":{\"pct\":50}}") {
        LineAction::Emit { event, payload } => {
            assert_eq!(event, "progress:update");
            assert_eq!(payload.as_str(), "{\"pct\":50}");
        }
        _ => panic!("expected an event"),
    }
    assert!(table.is_pending(1));
}

#[test]
fn scenario_worker_exits_after_start() {
    let mut s = running();
    let mut table: PendingCalls<u8> = PendingCalls::new();
    assert!(s.is_connected());
    let (id, _) = s.call("noop", None).ok().unwrap();
    table.register(id, 1);
    let event = s.stream_ended();
    assert!(!event.connected);
    assert!(event.error.is_none());
    assert!(!s.is_connected());
    table.close();
    assert_eq!(table.len(), 0);
    let result = settle(&mut table, id, CallEvent::Closed);
    assert!(matches!(result, Err(SidecarError::ChannelClosed)));
}

#[test]
fn every_dot_of_the_method_becomes_a_colon() {
    let mut table: PendingCalls<u8> = PendingCalls::new();
    match handle_line(&mut table, "{\"method\":\"a.b.c\",\"params\":[]}") {
        LineAction::Emit { event, payload } => {
            assert_eq!(event, "a:b:c");
            assert_eq!(payload.as_str(), "[]");
        }
        _ => panic!("expected an event"),
    }
    match handle_line(&mut table, "{\"method\":\"plain\",\"params\":0}") {
        LineAction::Emit { event, .. } => assert_eq!(event, "plain"),
        _ => panic!("expected an event"),
    }
}

#[test]
fn notification_without_params_is_published_with_null() {
    let mut table: PendingCalls<u8> = PendingCalls::new();
    table.register(1, 1);
    match handle_line(&mut table, "{\"method\":\"job.done\"}") {
        LineAction::Emit { event, payload } => {
            assert_eq!(event, "job:done");
            assert_eq!(payload.as_str(), "null");
        }
        _ => panic!("expected an event"),
    }
    match handle_line(&mut table, "{\"method\":\"a.b\",\"params\":null}") {
        LineAction::Emit { event, payload } => {
            assert_eq!(event, "a:b");
            assert!(payload.is_null());
        }
        _ => panic!("expected an event"),
    }
    assert_eq!(table.len(), 1);
}

#[test]
fn method_names_are_translated_dot_by_dot() {
    assert_eq!(translate("progress.update"), "progress:update");
    assert_eq!(translate("..a..b."), "::a::b:");
    assert_eq!(translate(""), "");
    assert_eq!(translate("no dots: here"), "no dots: here");
    assert_eq!(translate("caf\u{e9}.\u{1f600}.x"), "caf\u{e9}:\u{1f600}:x");
}

#[test]
fn blank_and_malformed_lines_are_skipped() {
    let mut table: PendingCalls<u8> = PendingCalls::new();
    table.register(1, 1);
    assert!(matches!(handle_line(&mut table, ""), LineAction::Skip));
    assert!(matches!(handle_line(&mut table, "   \t"), LineAction::Skip));
    assert!(matches!(handle_line(&mut table, "garbage"), LineAction::Skip));
    assert!(matches!(handle_line(&mut table, "{\"id\":\"1\"}"), LineAction::Skip));
    assert_eq!(table.len(), 1);
}

#[test]
fn line_in_white_space_is_still_read() {
    let mut table: PendingCalls<u8> = PendingCalls::new();
    table.register(2, 5);
    match handle_line(&mut table, "  {\"id\":2,\"result\":true}  ") {
        LineAction::Complete { handle, outcome } => {
            assert_eq!(handle, 5);
            assert_eq!(outcome.unwrap().as_str(), "true");
        }
        _ => panic!("expected a completion"),
    }
}

#[test]
fn duplicate_response_is_a_no_op() {
    let mut table: PendingCalls<u8> = PendingCalls::new();
    table.register(1, 10);
    table.register(2, 20);
    let line = "{\"jsonrpc\":\"2.0\",\"id\":1,\"result\":\"done\"}";
    assert!(matches!(handle_line(&mut table, line), LineAction::Complete { handle: 10, .. }));
    assert!(matches!(handle_line(&mut table, line), LineAction::Skip));
    assert_eq!(table.len(), 1);
    assert!(table.is_pending(2));
}

#[test]
fn line_without_id_never_resolves() {
    let mut table: PendingCalls<u8> = PendingCalls::new();
    table.register(1, 10);
    assert!(matches!(
        handle_line(&mut table, "{\"jsonrpc\":\"2.0\",\"result\":{\"id\":1}}"),
        LineAction::Skip
    ));
    assert!(matches!(
        handle_line(&mut table, "{\"method\":\"x\",\"params\":{\"id\":1},\"result\":1}"),
        LineAction::Emit { .. }
    ));
    assert!(table.is_pending(1));
    assert_eq!(table.len(), 1);
}

#[test]
fn response_with_error_delivers_code_message_and_data() {
    let mut table: PendingCalls<u8> = PendingCalls::new();
    table.register(3, 1);
    let line = "{\"jsonrpc\":\"2.0\",\"id\":3,\"error\":{\"code\":-32000,\"message\":\"boom\",\"data\":{\"at\":7}}}";
    let outcome = match handle_line(&mut table, line) {
        LineAction::Complete { outcome, .. } => outcome,
        _ => panic!("expected a completion"),
    };
    {
        let e = outcome.as_ref().err().unwrap();
        assert_eq!(e.code, -32000);
        assert_eq!(e.message, "boom");
        assert_eq!(e.data.as_ref().unwrap().as_str(), "{\"at\":7}");
    }
    match settle(&mut table, 3, CallEvent::Delivered(outcome)) {
        Err(SidecarError::WorkerReported(e)) => {
            assert_eq!(e.code, -32000);
            assert_eq!(e.message, "boom");
            assert_eq!(e.data.as_ref().unwrap().as_str(), "{\"at\":7}");
            assert_eq!(SidecarError::WorkerReported(e).message(), "RPC Error -32000: boom");
        }
        _ => panic!("expected the worker's error"),
    }
}

#[test]
fn response_with_neither_result_nor_error_delivers_null() {
    let mut table: PendingCalls<u8> = PendingCalls::new();
    table.register(3, 1);
    match handle_line(&mut table, "{\"jsonrpc\":\"2.0\",\"id\":3}") {
        LineAction::Complete { outcome, .. } => assert_eq!(outcome.unwrap().as_str(), "null"),
        _ => panic!("expected a completion"),
    }
}

#[test]
fn error_wins_over_result() {
    let mut table: PendingCalls<u8> = PendingCalls::new();
    table.register(3, 1);
    let line = "{\"id\":3,\"result\":1,\"error\":{\"code\":1,\"message\":\"m\"}}";
    match handle_line(&mut table, line) {
        LineAction::Complete { outcome, .. } => {
            assert_eq!(outcome.err().unwrap().to_text(), "RPC Error 1: m")
        }
        _ => panic!("expected a completion"),
    }
}

#[test]
fn dispatch_of_unknown_identifier_is_skipped() {
    let mut table: PendingCalls<u8> = PendingCalls::new();
    table.register(1, 1);
    let kind = sidecar_rpc::ipc::classify_line("{\"id\":2,\"result\":1}");
    assert!(matches!(dispatch(&mut table, kind), LineAction::Skip));
    assert_eq!(table.len(), 1);
}

#[test]
fn table_register_resolve_expire() {
    let mut table: PendingCalls<String> = PendingCalls::new();
    assert_eq!(table.len(), 0);
    assert!(table.register(1, "a".to_string()).is_none());
    assert_eq!(table.register(1, "b".to_string()), Some("a".to_string()));
    assert!(table.register(2, "c".to_string()).is_none());
    assert_eq!(table.len(), 2);
    assert_eq!(table.resolve(1), Some("b".to_string()));
    assert_eq!(table.resolve(1), None);
    table.expire(2);
    table.expire(2);
    assert_eq!(table.resolve(2), None);
    assert_eq!(table.len(), 0);
}

#[test]
fn supervisor_starts_stopped() {
    let s = SidecarProcess::new();
    assert_eq!(s.current_phase(), Phase::Stopped);
    assert!(!s.is_connected());
}

#[test]
fn call_before_start_is_not_connected() {
    let mut s = SidecarProcess::new();
    assert!(matches!(s.call("m", None), Err(SidecarError::NotConnected)));
    assert!(s.start().is_ok());
    assert!(matches!(s.call("m", None), Err(SidecarError::NotConnected)));
    assert!(s.started(LaunchOutcome::Spawned).is_ok());
    let (id, _) = s.call("m", None).ok().unwrap();
    assert_eq!(id, 1);
}

#[test]
fn start_runs_through_the_phases() {
    let mut s = SidecarProcess::new();
    assert!(s.start().is_ok());
    assert_eq!(s.current_phase(), Phase::Starting);
    assert!(!s.is_connected());
    let event: SidecarStatusEvent = s.started(LaunchOutcome::Spawned).ok().unwrap();
    assert!(event.connected);
    assert!(event.error.is_none());
    assert_eq!(s.current_phase(), Phase::Running);
    assert!(s.is_connected());
}

#[test]
fn second_start_is_refused() {
    let mut s = running();
    assert!(matches!(s.start(), Err(SidecarError::AlreadyRunning)));
    assert_eq!(s.current_phase(), Phase::Running);
    assert!(s.is_connected());
}

#[test]
fn failed_launch_returns_to_stopped() {
    let mut s = SidecarProcess::new();
    assert!(s.start().is_ok());
    match s.started(LaunchOutcome::SpawnFailed("no such file".to_string())) {
        Err(SidecarError::Spawn(reason)) => assert_eq!(reason, "no such file"),
        _ => panic!("expected a spawn error"),
    }
    assert_eq!(s.current_phase(), Phase::Stopped);
    assert!(s.start().is_ok());
    assert!(matches!(
        s.started(LaunchOutcome::StreamMissing(Stream::Stdout)),
        Err(SidecarError::StreamCapture(Stream::Stdout))
    ));
    assert_eq!(s.current_phase(), Phase::Stopped);
    assert!(!s.is_connected());
}

#[test]
fn stop_is_idempotent() {
    let mut s = running();
    assert!(s.stop());
    assert_eq!(s.current_phase(), Phase::Stopping);
    assert!(!s.is_connected());
    assert!(!s.stop());
    s.stopped();
    assert_eq!(s.current_phase(), Phase::Stopped);
    assert!(!s.stop());
    s.stopped();
    assert_eq!(s.current_phase(), Phase::Stopped);
    assert!(matches!(s.call("m", None), Err(SidecarError::NotConnected)));
}

#[test]
fn identifiers_go_on_after_a_restart() {
    let mut s = running();
    assert_eq!(s.call("a", None).ok().unwrap().0, 1);
    assert_eq!(s.call("b", None).ok().unwrap().0, 2);
    assert!(s.stop());
    s.stopped();
    assert!(s.start().is_ok());
    assert!(s.started(LaunchOutcome::Spawned).is_ok());
    assert_eq!(s.call("c", None).ok().unwrap().0, 3);
}

#[test]
fn write_failure_ends_the_call_and_clears_its_entry() {
    let mut table: PendingCalls<u8> = PendingCalls::new();
    table.register(1, 1);
    table.register(2, 2);
    match settle(&mut table, 1, CallEvent::WriteFailed("broken pipe".to_string())) {
        Err(e) => assert_eq!(e.message(), "Failed to write to sidecar: broken pipe"),
        Ok(_) => panic!("expected an error"),
    }
    match settle(&mut table, 2, CallEvent::FlushFailed("gone".to_string())) {
        Err(e) => assert_eq!(e.message(), "Failed to flush sidecar stdin: gone"),
        Ok(_) => panic!("expected an error"),
    }
    assert_eq!(table.len(), 0);
}

#[test]
fn delivered_value_is_returned_and_table_untouched() {
    let mut table: PendingCalls<u8> = PendingCalls::new();
    table.register(8, 1);
    let r = settle(&mut table, 7, CallEvent::Delivered(Ok(json("[1]"))));
    assert_eq!(r.ok().unwrap().as_str(), "[1]");
    assert_eq!(table.len(), 1);
}

#[test]
fn error_messages() {
    assert_eq!(SidecarError::Spawn("x".to_string()).message(), "Failed to spawn sidecar: x");
    assert_eq!(SidecarError::StreamCapture(Stream::Stdin).message(), "Failed to capture stdin");
    assert_eq!(SidecarError::StreamCapture(Stream::Stdout).message(), "Failed to capture stdout");
    assert_eq!(SidecarError::StreamCapture(Stream::Stderr).message(), "Failed to capture stderr");
    assert_eq!(SidecarError::AlreadyRunning.message(), "Sidecar already running");
    assert_eq!(SidecarError::NotConnected.message(), "Sidecar not started");
    assert_eq!(SidecarError::Timeout.message(), "Sidecar call timed out after 120s");
    assert_eq!(SidecarError::ChannelClosed.message(), "Response channel closed");
    let reported = JsonRpcError { code: 1, message: "m".to_string(), data: None };
    assert_eq!(SidecarError::WorkerReported(reported).message(), "RPC Error 1: m");
    assert_eq!(CALL_TIMEOUT_SECS, 120);
}

#[test]
fn status_events() {
    let up = SidecarStatusEvent::up();
    assert!(up.connected && up.error.is_none());
    let down = SidecarStatusEvent::down();
    assert!(!down.connected && down.error.is_none());
    let failed = SidecarStatusEvent::failed("why".to_string());
    assert!(!failed.connected);
    assert_eq!(failed.error, Some("why".to_string()));
    assert_eq!(SidecarStatusEvent::topic(), "sidecar:status");
}

#[test]
fn launch_specifications() {
    let dev = LaunchSpec::development("/work/sidecar".to_string());
    assert_eq!(dev.program, "python3.11");
    assert_eq!(dev.args, vec!["-m".to_string(), "fiction_translator".to_string()]);
    assert_eq!(dev.working_dir, Some("/work/sidecar".to_string()));
    let packaged = LaunchSpec::packaged("/res/binaries/fiction-translator-sidecar".to_string());
    assert_eq!(packaged.program, "/res/binaries/fiction-translator-sidecar");
    assert!(packaged.args.is_empty());
    assert!(packaged.working_dir.is_none());
    assert_eq!(LaunchSpec::bundled_name(true), "fiction-translator-sidecar.exe");
    assert_eq!(LaunchSpec::bundled_name(false), "fiction-translator-sidecar");
}

#[test]
fn blank_means_only_white_space() {
    assert!(is_blank(""));
    assert!(is_blank("  \t \r"));
    assert!(!is_blank("  x  "));
    assert!(!is_blank("{}"));
}

#[test]
fn failed_start_is_remembered_until_the_next_good_one() {
    let mut s = SidecarProcess::new();
    assert_eq!(s.start_error(), None);
    assert!(s.start().is_ok());
    assert!(s.started(LaunchOutcome::SpawnFailed("denied".to_string())).is_err());
    assert_eq!(s.start_error(), Some("Failed to spawn sidecar: denied".to_string()));
    assert!(s.start().is_ok());
    assert!(s.started(LaunchOutcome::StreamMissing(Stream::Stderr)).is_err());
    assert_eq!(s.start_error(), Some("Failed to capture stderr".to_string()));
    assert!(s.start().is_ok());
    assert!(s.started(LaunchOutcome::Spawned).is_ok());
    assert_eq!(s.start_error(), None);
}

#[test]
fn end_of_stream_disconnects_and_releases_every_call() {
    let mut s = running();
    let mut table: PendingCalls<u8> = PendingCalls::new();
    table.register(1, 1);
    table.register(2, 2);
    let event = end_of_stream(&mut table, &mut s);
    assert!(!event.connected);
    assert!(event.error.is_none());
    assert!(!s.is_connected());
    assert_eq!(s.current_phase(), Phase::Running);
    assert_eq!(table.len(), 0);
    assert!(!table.is_pending(1));
}

#[test]
fn shut_down_stops_and_releases_every_call() {
    let mut s = running();
    let mut table: PendingCalls<u8> = PendingCalls::new();
    table.register(1, 1);
    table.register(2, 2);
    assert!(shut_down(&mut table, &mut s));
    assert_eq!(table.len(), 0);
    assert_eq!(s.current_phase(), Phase::Stopping);
    assert!(!s.is_connected());
    s.stopped();
    table.register(3, 3);
    assert!(!shut_down(&mut table, &mut s));
    assert_eq!(table.len(), 0);
    assert_eq!(s.current_phase(), Phase::Stopped);
    let result = settle(&mut table, 1, CallEvent::Closed);
    assert!(matches!(result, Err(SidecarError::ChannelClosed)));
}

#[test]
fn stream_that_ends_before_the_launch_is_taken_in_leaves_it_disconnected() {
    let mut s = SidecarProcess::new();
    assert!(s.start().is_ok());
    let down = s.stream_ended();
    assert!(!down.connected);
    let event = s.started(LaunchOutcome::Spawned).ok().unwrap();
    assert!(!event.connected);
    assert!(event.error.is_none());
    assert_eq!(s.current_phase(), Phase::Running);
    assert!(!s.is_connected());
    assert!(s.stop());
    s.stopped();
    assert!(s.start().is_ok());
    assert!(s.started(LaunchOutcome::Spawned).ok().unwrap().connected);
    assert!(s.is_connected());
}

#[test]
fn call_after_the_stream_has_ended_is_still_issued() {
    let mut s = running();
    let _ = s.stream_ended();
    assert!(!s.is_connected());
    let (id, line) = s.call("late", None).ok().unwrap();
    assert_eq!(id, 1);
    assert_eq!(line, "{\"jsonrpc\":\"2.0\",\"method\":\"late\",\"id\":1}\n");
}
