use async_log::appender::AsyncAppender;
use async_log::event::AsyncEvent;
use async_log::sink::{frame_payload, SinkKind, SinkModel, MSG_TERMINATOR};
use async_log::utf8::is_valid_utf8;
use async_log::worker::{process_payload, run_worker, worker_step, WorkerAction, WorkerState};
use async_log::rewrite::rewrite_path_markers;

#[test]
fn terminator_bytes() {
    assert_eq!(MSG_TERMINATOR, [254, 253, 255]);
}

#[test]
fn server_writes_are_framed() {
    let framed = frame_payload(SinkKind::Server, &b"payload".to_vec());
    assert_eq!(framed, b"payload\xfe\xfd\xff".to_vec());
}

#[test]
fn console_and_file_writes_are_bare() {
    assert_eq!(frame_payload(SinkKind::Console, &b"x".to_vec()), b"x".to_vec());
    assert_eq!(frame_payload(SinkKind::File, &b"x".to_vec()), b"x".to_vec());
    assert_eq!(frame_payload(SinkKind::WebSock, &b"x".to_vec()), b"x".to_vec());
}

#[test]
fn back_to_back_server_writes() {
    let mut sink = SinkModel::new(SinkKind::Server);
    sink.write(&b"one".to_vec());
    sink.write(&b"two".to_vec());
    assert_eq!(sink.data, b"one\xfe\xfd\xfftwo\xfe\xfd\xff".to_vec());
}

#[test]
fn rewrite_reduces_full_path_to_leaf() {
    let input = b"before #FS#/a/b/c.log#FE# after".to_vec();
    let out = rewrite_path_markers(&input);
    assert_eq!(out, b"before c.log after".to_vec());
}

#[test]
fn rewrite_without_marker_is_identity() {
    let input = b"plain text, no markers at all".to_vec();
    let out = rewrite_path_markers(&input);
    assert_eq!(out, input);
}

#[test]
fn rewrite_hash_separator() {
    let input = b"#FS#name.rs#FE#".to_vec();
    let out = rewrite_path_markers(&input);
    assert_eq!(out, b"name.rs".to_vec());
}

#[test]
fn rewrite_backslash_separator() {
    let input = b"x #FS#C:\\dir\\file.rs#FE# y".to_vec();
    let out = rewrite_path_markers(&input);
    assert_eq!(out, b"x file.rs y".to_vec());
}

#[test]
fn rewrite_is_greedy_across_two_markers() {
    // the longest-stretch match spans both markers and keeps the last leaf
    let input = b"A #FS#/a/b.rs#FE# B #FS#/c/d.rs#FE# C".to_vec();
    let out = rewrite_path_markers(&input);
    assert_eq!(out, b"A d.rs C".to_vec());
}

#[test]
fn rewrite_incomplete_marker_is_identity() {
    let input = b"#FS#/a/b/c.log with no end marker".to_vec();
    let out = rewrite_path_markers(&input);
    assert_eq!(out, input);
}

#[test]
fn utf8_checks() {
    assert!(is_valid_utf8(&b"plain ascii".to_vec()));
    assert!(is_valid_utf8(&"snowman \u{2603} and more".as_bytes().to_vec()));
    assert!(!is_valid_utf8(&vec![0xff, 0xfe]));
    assert!(!is_valid_utf8(&vec![0xC2]));
    // an overlong encoding of '/' is not valid text
    assert!(!is_valid_utf8(&vec![0xC0, 0xAF]));
}

#[test]
fn undecodable_payload_is_dropped() {
    assert!(process_payload(&vec![0xff, 0x00]).is_none());
    assert_eq!(process_payload(&b"ok".to_vec()), Some(b"ok".to_vec()));
}

#[test]
fn step_running_log_writes_processed_text() {
    let (state, action) = worker_step(
        WorkerState::Running,
        AsyncEvent::Log(b"in #FS#/tmp/x.rs#FE#!".to_vec()),
    );
    assert_eq!(state, WorkerState::Running);
    match action {
        WorkerAction::Write(w) => assert_eq!(w, b"in x.rs!".to_vec()),
        _ => panic!("expected a write"),
    }
}

#[test]
fn step_running_terminate_exits() {
    let (state, action) = worker_step(WorkerState::Running, AsyncEvent::Terminate);
    assert_eq!(state, WorkerState::Terminated);
    assert!(matches!(action, WorkerAction::Exit));
}

#[test]
fn step_terminated_is_absorbing() {
    let (state, action) = worker_step(WorkerState::Terminated, AsyncEvent::Log(b"late".to_vec()));
    assert_eq!(state, WorkerState::Terminated);
    assert!(matches!(action, WorkerAction::Discard));
}

#[test]
fn truncate_mode_file_holds_exactly_the_records() {
    // a file-backed appender in truncate mode over prior contents
    let mut appender = AsyncAppender::new();
    appender.append(b"a".to_vec()).unwrap();
    appender.append(b"b".to_vec()).unwrap();
    appender.teardown();
    let mut sink = SinkModel::open_file(b"old contents".to_vec(), false);
    let state = run_worker(appender.into_events(), &mut sink);
    assert_eq!(state, WorkerState::Terminated);
    assert_eq!(sink.data, b"ab".to_vec());
}

#[test]
fn append_mode_file_keeps_prior_contents() {
    let mut appender = AsyncAppender::new();
    appender.append(b"new".to_vec()).unwrap();
    appender.teardown();
    let mut sink = SinkModel::open_file(b"old|".to_vec(), true);
    run_worker(appender.into_events(), &mut sink);
    assert_eq!(sink.data, b"old|new".to_vec());
}

#[test]
fn undecodable_record_does_not_stop_later_records() {
    let events = vec![
        AsyncEvent::Log(vec![0xff, 0xfe]),
        AsyncEvent::Log(b"still here".to_vec()),
        AsyncEvent::Terminate,
    ];
    let mut sink = SinkModel::new(SinkKind::File);
    let state = run_worker(events, &mut sink);
    assert_eq!(state, WorkerState::Terminated);
    assert_eq!(sink.data, b"still here".to_vec());
}

#[test]
fn teardown_with_nothing_pending_completes() {
    let mut appender = AsyncAppender::new();
    appender.teardown();
    let mut sink = SinkModel::new(SinkKind::Console);
    let state = run_worker(appender.into_events(), &mut sink);
    assert_eq!(state, WorkerState::Terminated);
    assert_eq!(sink.data, Vec::<u8>::new());
}

#[test]
fn nothing_is_written_after_terminate() {
    let events = vec![
        AsyncEvent::Log(b"before".to_vec()),
        AsyncEvent::Terminate,
        AsyncEvent::Log(b"after".to_vec()),
    ];
    let mut sink = SinkModel::new(SinkKind::Server);
    let state = run_worker(events, &mut sink);
    assert_eq!(state, WorkerState::Terminated);
    assert_eq!(sink.data, b"before\xfe\xfd\xff".to_vec());
}

#[test]
fn append_after_teardown_is_rejected() {
    let mut appender = AsyncAppender::new();
    appender.teardown();
    assert!(appender.append(b"too late".to_vec()).is_err());
}

#[test]
fn records_stay_in_submission_order() {
    let mut appender = AsyncAppender::new();
    for text in ["first ", "second ", "third"] {
        appender.append(text.as_bytes().to_vec()).unwrap();
    }
    appender.teardown();
    let mut sink = SinkModel::new(SinkKind::File);
    run_worker(appender.into_events(), &mut sink);
    assert_eq!(sink.data, b"first second third".to_vec());
}

#[test]
fn worker_without_terminate_stays_running() {
    let events = vec![AsyncEvent::Log(b"x".to_vec())];
    let mut sink = SinkModel::new(SinkKind::File);
    let state = run_worker(events, &mut sink);
    assert_eq!(state, WorkerState::Running);
    assert_eq!(sink.data, b"x".to_vec());
}
