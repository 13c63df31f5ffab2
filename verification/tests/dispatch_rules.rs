use turnsync::config::ServerConfig;
use turnsync::dispatch::{plan_command, settle, Plan, SyncOutcome};
use turnsync::paths::{
    base_name, quicksave_path, turn_file_name, turn_remote_path, url_file_name,
};
use turnsync::protocol::{Command, Response};

fn cfg() -> ServerConfig {
    ServerConfig::new(b"C:\\saves".to_vec(), b'\\', 1024, 50)
}

#[test]
fn canonical_turn_names() {
    assert_eq!(turn_file_name(b"7"), b"turn_7.sav".to_vec());
    assert_eq!(turn_remote_path(b"7"), b"/highest_numbered_files/turn_7.sav".to_vec());
    assert_eq!(quicksave_path(b"d", b'/'), b"d/quicksave.sav".to_vec());
}

#[test]
fn base_and_url_names() {
    assert_eq!(base_name(b"C:\\x\\y.sav"), b"y.sav".to_vec());
    assert_eq!(base_name(b"/a/b/c.bin"), b"c.bin".to_vec());
    assert_eq!(base_name(b"plain.sav"), b"plain.sav".to_vec());
    assert_eq!(url_file_name(b"http://h/a/b.bin"), b"b.bin".to_vec());
    assert_eq!(url_file_name(b"http://h/"), b"download.bin".to_vec());
}

#[test]
fn upload_plan_names_all_three_paths() {
    let p = plan_command(Command::Upload { turn: b"7".to_vec() }, &cfg());
    assert_eq!(
        p,
        Plan::PushTurn {
            quicksave: b"C:\\saves\\quicksave.sav".to_vec(),
            renamed: b"C:\\saves\\turn_7.sav".to_vec(),
            remote: b"/highest_numbered_files/turn_7.sav".to_vec(),
            overwrite: true,
        }
    );
}

#[test]
fn download_plan_names_remote_and_dest() {
    let p = plan_command(Command::Download { turn: b"7".to_vec() }, &cfg());
    assert_eq!(
        p,
        Plan::PullTurn {
            remote: b"/highest_numbered_files/turn_7.sav".to_vec(),
            dest: b"C:\\saves\\turn_7.sav".to_vec(),
        }
    );
}

#[test]
fn upload_path_without_destination_uses_base_name() {
    let p = plan_command(
        Command::UploadPath { local: b"C:\\other\\battle.sav".to_vec(), remote: None },
        &cfg(),
    );
    assert_eq!(
        p,
        Plan::PushFile {
            local: b"C:\\other\\battle.sav".to_vec(),
            remote: b"/highest_numbered_files/battle.sav".to_vec(),
            overwrite: true,
        }
    );
}

#[test]
fn uploads_always_overwrite() {
    // Pushing the same turn twice plans the identical overwrite push both
    // times; nothing in the plan depends on what the store already holds.
    let first = plan_command(Command::Upload { turn: b"7".to_vec() }, &cfg());
    let second = plan_command(Command::Upload { turn: b"7".to_vec() }, &cfg());
    assert_eq!(first, second);
    match first {
        Plan::PushTurn { overwrite, .. } => assert!(overwrite),
        other => panic!("expected a turn push, got {:?}", other),
    }
}

#[test]
fn turn_round_trip_is_byte_identical() {
    // The upload and download plans for one turn name the same remote
    // object, so a store that keeps what was pushed hands the same bytes
    // back; a second push replaces the first.
    let up = plan_command(Command::Upload { turn: b"12".to_vec() }, &cfg());
    let down = plan_command(Command::Download { turn: b"12".to_vec() }, &cfg());
    let up_remote = match up {
        Plan::PushTurn { remote, .. } => remote,
        other => panic!("expected a turn push, got {:?}", other),
    };
    let down_remote = match down {
        Plan::PullTurn { remote, .. } => remote,
        other => panic!("expected a turn pull, got {:?}", other),
    };
    assert_eq!(up_remote, down_remote);
    let mut store = std::collections::HashMap::new();
    store.insert(up_remote, b"save bytes".to_vec());
    store.insert(down_remote.clone(), b"save bytes again".to_vec());
    assert_eq!(store.get(&down_remote), Some(&b"save bytes again".to_vec()));
}

#[test]
fn status_plan_answers_operational() {
    let p = plan_command(Command::Status, &cfg());
    assert_eq!(
        p,
        Plan::Respond { response: Response::Ack { text: b"operational".to_vec() } }
    );
}

#[test]
fn unknown_plan_acknowledges_the_literal_text() {
    let p = plan_command(Command::Unknown { raw: b"FOO:bar".to_vec() }, &cfg());
    assert_eq!(
        p,
        Plan::Respond { response: Response::Ack { text: b"unrecognized: FOO:bar".to_vec() } }
    );
}

#[test]
fn finished_turn_upload_acknowledges_ok() {
    let p = plan_command(Command::Upload { turn: b"7".to_vec() }, &cfg());
    let s = settle(p, SyncOutcome::Done, &cfg());
    assert_eq!(s.response, Response::Ack { text: b"UPLOAD_OK".to_vec() });
    assert!(s.log.is_empty());
}

#[test]
fn missing_quicksave_fails_with_diagnostic_log() {
    let p = plan_command(Command::Upload { turn: b"7".to_vec() }, &cfg());
    let s = settle(p, SyncOutcome::MissingSource, &cfg());
    assert_eq!(s.response, Response::Error { text: b"UPLOAD_FAIL".to_vec() });
    assert_eq!(
        s.log,
        b"missing save file at C:\\saves\\quicksave.sav; expected directory C:\\saves; check read permissions".to_vec()
    );
}

#[test]
fn finished_turn_download_instructs_a_load() {
    let p = plan_command(Command::Download { turn: b"7".to_vec() }, &cfg());
    let s = settle(p, SyncOutcome::Done, &cfg());
    assert_eq!(
        s.response,
        Response::LoadInstruction { path: b"C:\\saves\\turn_7.sav".to_vec() }
    );
}

#[test]
fn empty_listing_is_a_distinct_ack() {
    let p = plan_command(Command::ListSaves, &cfg());
    let s = settle(p, SyncOutcome::Names { names: Vec::new() }, &cfg());
    assert_eq!(s.response, Response::Ack { text: b"no saves".to_vec() });
}

#[test]
fn listing_joins_names() {
    let p = plan_command(Command::ListSaves, &cfg());
    let names = vec![b"turn_1.sav".to_vec(), b"turn_2.sav".to_vec(), b"turn_3.sav".to_vec()];
    let s = settle(p, SyncOutcome::Names { names }, &cfg());
    assert_eq!(
        s.response,
        Response::Ack { text: b"turn_1.sav, turn_2.sav, turn_3.sav".to_vec() }
    );
}

#[test]
fn remote_failure_surfaces_verbatim() {
    let p = plan_command(Command::Download { turn: b"7".to_vec() }, &cfg());
    let s = settle(
        p,
        SyncOutcome::Failed { diag: b"path/not_found/".to_vec() },
        &cfg(),
    );
    assert_eq!(s.response, Response::Error { text: b"path/not_found/".to_vec() });
    assert_eq!(s.log, b"path/not_found/".to_vec());
}

#[test]
fn single_name_listing_has_no_separator() {
    let p = plan_command(Command::ListSaves, &cfg());
    let s = settle(
        p,
        SyncOutcome::Names { names: vec![b"turn_9.sav".to_vec()] },
        &cfg(),
    );
    assert_eq!(s.response, Response::Ack { text: b"turn_9.sav".to_vec() });
}

#[test]
fn generic_upload_acknowledges_with_remote_path() {
    let p = plan_command(
        Command::UploadPath { local: b"a.sav".to_vec(), remote: Some(b"/d/b.sav".to_vec()) },
        &cfg(),
    );
    let s = settle(p, SyncOutcome::Done, &cfg());
    assert_eq!(s.response, Response::Ack { text: b"uploaded to /d/b.sav".to_vec() });
}

#[test]
fn url_download_plan_and_ack() {
    let p = plan_command(Command::DownloadUrl { url: b"http://h/a/map.bin".to_vec() }, &cfg());
    assert_eq!(
        p,
        Plan::FetchUrl {
            url: b"http://h/a/map.bin".to_vec(),
            dest: b"C:\\saves\\map.bin".to_vec(),
        }
    );
    let p = plan_command(Command::DownloadUrl { url: b"http://h/a/map.bin".to_vec() }, &cfg());
    let s = settle(p, SyncOutcome::Done, &cfg());
    assert_eq!(
        s.response,
        Response::Ack { text: b"downloaded to C:\\saves\\map.bin".to_vec() }
    );
}

#[test]
fn mismatched_outcome_is_answered_not_dropped() {
    let p = plan_command(Command::ListSaves, &cfg());
    let s = settle(p, SyncOutcome::Done, &cfg());
    assert_eq!(s.response, Response::Error { text: b"unexpected sync outcome".to_vec() });
}

#[test]
fn missing_generic_source_names_the_file() {
    let p = plan_command(
        Command::UploadPath { local: b"gone.sav".to_vec(), remote: None },
        &cfg(),
    );
    let s = settle(p, SyncOutcome::MissingSource, &cfg());
    assert_eq!(
        s.response,
        Response::Error { text: b"missing save file at gone.sav".to_vec() }
    );
}
