use turnsync::config::ServerConfig;
use turnsync::dispatch::{Plan, SyncOutcome};
use turnsync::server::{
    end_severity, step, Action, Event, ServerState, SessionEnd, Severity, BROKEN_CHANNEL_CODE,
};
use turnsync::sync::{fetch_call, fetch_start, fetch_step, FetchCall, FetchEvent, FetchState};

fn cfg() -> ServerConfig {
    ServerConfig::new(b"C:\\saves".to_vec(), b'\\', 1024, 50)
}

#[test]
fn happy_turn_upload_cycle() {
    let c = cfg();
    let (s, a) = step(ServerState::Idle, Event::Start, &c);
    assert_eq!(a, Action::Create);
    let (s, a) = step(s, Event::Created, &c);
    assert_eq!(a, Action::Poll);
    let (s, a) = step(s, Event::PeerConnected, &c);
    assert_eq!(a, Action::Read);
    let (s, a) = step(s, Event::ReadDone { data: b"UPLOAD:7".to_vec() }, &c);
    match a {
        Action::Run { plan: Plan::PushTurn { quicksave, renamed, remote, overwrite } } => {
            assert_eq!(quicksave, b"C:\\saves\\quicksave.sav".to_vec());
            assert_eq!(renamed, b"C:\\saves\\turn_7.sav".to_vec());
            assert_eq!(remote, b"/highest_numbered_files/turn_7.sav".to_vec());
            assert!(overwrite);
        },
        other => panic!("expected a turn push, got {:?}", other),
    }
    let (s, a) = step(s, Event::SyncDone { outcome: SyncOutcome::Done }, &c);
    assert_eq!(a, Action::Write { data: b"UPLOAD_OK".to_vec(), log: Vec::new() });
    let (s, a) = step(s, Event::WriteDone, &c);
    assert_eq!(a, Action::Teardown);
    assert_eq!(s, ServerState::Closed { end: SessionEnd::Completed });
}

#[test]
fn happy_turn_download_cycle() {
    let c = cfg();
    let (s, a) = step(
        ServerState::Connected,
        Event::ReadDone { data: b"DOWNLOAD:7".to_vec() },
        &c,
    );
    assert!(matches!(a, Action::Run { .. }));
    let (s, a) = step(s, Event::SyncDone { outcome: SyncOutcome::Done }, &c);
    assert_eq!(
        a,
        Action::Write { data: b"LOAD:C:\\saves\\turn_7.sav".to_vec(), log: Vec::new() }
    );
    let (s, a) = step(s, Event::WriteDone, &c);
    assert_eq!(a, Action::Teardown);
    assert_eq!(s, ServerState::Closed { end: SessionEnd::Completed });
}

#[test]
fn missing_quicksave_still_answers_and_closes_cleanly() {
    let c = cfg();
    let (s, _) = step(
        ServerState::Connected,
        Event::ReadDone { data: b"UPLOAD:7".to_vec() },
        &c,
    );
    let (s, a) = step(s, Event::SyncDone { outcome: SyncOutcome::MissingSource }, &c);
    match a {
        Action::Write { data, log } => {
            assert_eq!(data, b"UPLOAD_FAIL".to_vec());
            let text = String::from_utf8(log).unwrap();
            assert!(text.contains("C:\\saves\\quicksave.sav"));
            assert!(text.contains("C:\\saves"));
        },
        other => panic!("expected a write, got {:?}", other),
    }
    let (s, a) = step(s, Event::WriteDone, &c);
    assert_eq!(a, Action::Teardown);
    assert_eq!(s, ServerState::Closed { end: SessionEnd::Completed });
}

#[test]
fn unrecognized_verb_is_acked_not_dropped() {
    let c = cfg();
    let (s, a) = step(
        ServerState::Connected,
        Event::ReadDone { data: b"FOO:bar".to_vec() },
        &c,
    );
    assert_eq!(s, ServerState::Writing);
    assert_eq!(
        a,
        Action::Write { data: b"unrecognized: FOO:bar".to_vec(), log: Vec::new() }
    );
}

#[test]
fn immediate_peer_close_is_a_benign_disconnect() {
    let c = cfg();
    let (s, a) = step(
        ServerState::Connected,
        Event::ReadFailed { code: BROKEN_CHANNEL_CODE },
        &c,
    );
    assert_eq!(a, Action::Teardown);
    assert_eq!(s, ServerState::Closed { end: SessionEnd::BenignDisconnect });
    assert_eq!(end_severity(&SessionEnd::BenignDisconnect), Severity::Info);
}

#[test]
fn other_read_failures_are_faults_but_still_torn_down() {
    let c = cfg();
    let (s, a) = step(ServerState::Connected, Event::ReadFailed { code: 5 }, &c);
    assert_eq!(a, Action::Teardown);
    assert_eq!(s, ServerState::Closed { end: SessionEnd::ReadError { code: 5 } });
    assert_eq!(end_severity(&SessionEnd::ReadError { code: 5 }), Severity::Fault);
}

#[test]
fn accept_window_times_out_after_bounded_polls() {
    let c = ServerConfig::new(b"d".to_vec(), b'/', 1024, 3);
    let mut s = ServerState::Accepting { attempts: 0 };
    let mut polls = 0;
    loop {
        let (next, a) = step(s, Event::PollIdle, &c);
        s = next;
        match a {
            Action::Poll => polls += 1,
            Action::Teardown => break,
            other => panic!("unexpected action {:?}", other),
        }
        assert!(polls <= 3);
    }
    assert_eq!(polls, 2);
    assert_eq!(s, ServerState::Closed { end: SessionEnd::AcceptTimeout });
    assert_eq!(end_severity(&SessionEnd::AcceptTimeout), Severity::Info);
}

#[test]
fn peer_abort_during_accept_closes_benignly() {
    let c = cfg();
    let (s, a) = step(
        ServerState::Accepting { attempts: 4 },
        Event::PollFailed { code: BROKEN_CHANNEL_CODE },
        &c,
    );
    assert_eq!(a, Action::Teardown);
    assert_eq!(
        s,
        ServerState::Closed { end: SessionEnd::PeerAborted { code: BROKEN_CHANNEL_CODE } }
    );
    assert_eq!(
        end_severity(&SessionEnd::PeerAborted { code: BROKEN_CHANNEL_CODE }),
        Severity::Info
    );
}

#[test]
fn failed_creation_never_tears_down() {
    let c = cfg();
    let (s, a) = step(ServerState::Listening, Event::CreateFailed { code: 2 }, &c);
    assert_eq!(a, Action::Hold);
    assert_eq!(s, ServerState::Closed { end: SessionEnd::CreateError { code: 2 } });
}

#[test]
fn closed_cycle_ignores_late_events() {
    let c = cfg();
    let closed = ServerState::Closed { end: SessionEnd::Completed };
    let (s, a) = step(closed, Event::WriteDone, &c);
    assert_eq!(a, Action::Hold);
    assert_eq!(s, ServerState::Closed { end: SessionEnd::Completed });
}

#[test]
fn status_command_answers_without_outside_work() {
    let c = cfg();
    let (s, a) = step(
        ServerState::Connected,
        Event::ReadDone { data: b"GET_STATUS".to_vec() },
        &c,
    );
    assert_eq!(s, ServerState::Writing);
    assert_eq!(a, Action::Write { data: b"operational".to_vec(), log: Vec::new() });
}

#[test]
fn resolve_prefers_the_direct_fetch() {
    let s = fetch_start(b"/highest_numbered_files/turn_7.sav".to_vec());
    assert_eq!(
        fetch_call(&s),
        FetchCall::Direct { path: b"/highest_numbered_files/turn_7.sav".to_vec() }
    );
    let s = fetch_step(s, FetchEvent::DirectOk { content: b"bytes".to_vec() });
    assert_eq!(s, FetchState::Got { content: b"bytes".to_vec() });
    assert_eq!(fetch_call(&s), FetchCall::Settled);
}

#[test]
fn resolve_falls_back_to_the_temporary_link() {
    let s = fetch_start(b"/p".to_vec());
    let s = fetch_step(
        s,
        FetchEvent::DirectDenied { link_required: true, diag: b"use a link".to_vec() },
    );
    assert_eq!(fetch_call(&s), FetchCall::Link { path: b"/p".to_vec() });
    let s = fetch_step(s, FetchEvent::LinkOk { url: b"http://tmp/x".to_vec() });
    assert_eq!(fetch_call(&s), FetchCall::Body { url: b"http://tmp/x".to_vec() });
    let s = fetch_step(s, FetchEvent::BodyOk { content: b"bytes".to_vec() });
    assert_eq!(s, FetchState::Got { content: b"bytes".to_vec() });
}

#[test]
fn resolve_surfaces_a_plain_denial() {
    let s = fetch_start(b"/p".to_vec());
    let s = fetch_step(
        s,
        FetchEvent::DirectDenied { link_required: false, diag: b"no such path".to_vec() },
    );
    assert_eq!(s, FetchState::FetchFailed { diag: b"no such path".to_vec() });
    assert_eq!(fetch_call(&s), FetchCall::Settled);
}
