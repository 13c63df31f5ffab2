use turnsync::protocol::{decode_command, encode, Command, Response};

#[test]
fn upload_colon_form() {
    let c = decode_command(b"UPLOAD:7");
    assert_eq!(c, Command::Upload { turn: b"7".to_vec() });
}

#[test]
fn download_colon_form() {
    let c = decode_command(b"DOWNLOAD:7");
    assert_eq!(c, Command::Download { turn: b"7".to_vec() });
}

#[test]
fn turn_identifier_is_opaque() {
    let c = decode_command(b"UPLOAD:not-a-number");
    assert_eq!(c, Command::Upload { turn: b"not-a-number".to_vec() });
}

#[test]
fn status_verb_with_surrounding_whitespace() {
    let c = decode_command(b"  GET_STATUS \r\n");
    assert_eq!(c, Command::Status);
}

#[test]
fn list_verb() {
    let c = decode_command(b"LIST_DROPBOX_SAVES");
    assert_eq!(c, Command::ListSaves);
}

#[test]
fn fetch_colon_form() {
    let c = decode_command(b"DOWNLOAD_DROPBOX_SAVE:http://h/x.sav");
    assert_eq!(c, Command::DownloadUrl { url: b"http://h/x.sav".to_vec() });
}

#[test]
fn upload_space_form_single_argument() {
    let c = decode_command(b"UPLOAD C:\\saves\\b.sav");
    assert_eq!(c, Command::UploadPath { local: b"C:\\saves\\b.sav".to_vec(), remote: None });
}

#[test]
fn upload_space_form_two_arguments() {
    let c = decode_command(b"UPLOAD a.sav /elsewhere/b.sav");
    assert_eq!(
        c,
        Command::UploadPath {
            local: b"a.sav".to_vec(),
            remote: Some(b"/elsewhere/b.sav".to_vec()),
        }
    );
}

#[test]
fn download_space_form() {
    let c = decode_command(b"DOWNLOAD http://h/x");
    assert_eq!(c, Command::DownloadUrl { url: b"http://h/x".to_vec() });
}

#[test]
fn unrecognized_verb_is_kept_verbatim() {
    let c = decode_command(b"FOO:bar");
    assert_eq!(c, Command::Unknown { raw: b"FOO:bar".to_vec() });
}

#[test]
fn bare_upload_is_unknown() {
    let c = decode_command(b"UPLOAD");
    assert_eq!(c, Command::Unknown { raw: b"UPLOAD".to_vec() });
}

#[test]
fn empty_buffer_is_unknown() {
    let c = decode_command(b"   ");
    assert_eq!(c, Command::Unknown { raw: Vec::new() });
}

#[test]
fn oversized_buffer_truncated_still_parses() {
    // A command longer than the fixed read size: the channel hands over only
    // the first 1024 bytes, and the truncated text parses under the same
    // grammar rather than being rejected.
    let mut long = b"UPLOAD:".to_vec();
    long.extend(std::iter::repeat(b'9').take(2000));
    let truncated = &long[..1024];
    let c = decode_command(truncated);
    let mut expected_turn = Vec::new();
    expected_turn.extend(std::iter::repeat(b'9').take(1024 - 7));
    assert_eq!(c, Command::Upload { turn: expected_turn });
}

#[test]
fn encode_ack_and_error_pass_text_through() {
    let a = encode(&Response::Ack { text: b"UPLOAD_OK".to_vec() });
    assert_eq!(a, b"UPLOAD_OK".to_vec());
    let e = encode(&Response::Error { text: b"boom".to_vec() });
    assert_eq!(e, b"boom".to_vec());
}

#[test]
fn encode_load_instruction_carries_prefix_and_path() {
    let out = encode(&Response::LoadInstruction { path: b"C:\\saves\\turn_7.sav".to_vec() });
    assert_eq!(out, b"LOAD:C:\\saves\\turn_7.sav".to_vec());
}

#[test]
fn colon_argument_is_echoed_verbatim() {
    // No trimming inside the line: a space after the colon stays part of the
    // opaque identifier.
    let c = decode_command(b"UPLOAD: 7");
    assert_eq!(c, Command::Upload { turn: b" 7".to_vec() });
}

#[test]
fn upload_space_form_collapses_leading_spaces_between_args() {
    let c = decode_command(b"UPLOAD  a.sav   b.sav");
    assert_eq!(
        c,
        Command::UploadPath { local: b"a.sav".to_vec(), remote: Some(b"b.sav".to_vec()) }
    );
}
