use vstd::prelude::*;
use crate::bytes::{
    trimmed, trim_front, starts_with, first_index_of,
    trim, has_prefix, bytes_eq, copy_range, find_first, strip_front,
    lemma_first_index_of,
};
use crate::text::{
    verb_upload_colon, verb_download_colon, verb_fetch_colon, verb_list, verb_status,
    verb_upload_space, verb_download_space, load_prefix,
    verb_upload_colon_bytes, verb_download_colon_bytes, verb_fetch_colon_bytes,
    verb_list_bytes, verb_status_bytes, verb_upload_space_bytes, verb_download_space_bytes,
    load_prefix_bytes,
};

verus! {

/// One decoded peer command. Exactly one is produced per connection; an
/// unrecognized line still becomes a command (`Unknown`), never a failure.
#[derive(Debug, PartialEq, Eq)]
pub enum Command {
    /// Promote the quicksave to the given turn and push it to the remote store.
    Upload { turn: Vec<u8> },
    /// Pull the save of the given turn from the remote store.
    Download { turn: Vec<u8> },
    /// Fetch an arbitrary url into the save directory.
    DownloadUrl { url: Vec<u8> },
    /// Push an arbitrary local file, to an explicit remote path when one is given.
    UploadPath { local: Vec<u8>, remote: Option<Vec<u8>> },
    /// Enumerate the remote save folder.
    ListSaves,
    /// Report that the server is up.
    Status,
    /// Anything the grammar does not recognize, kept verbatim (trimmed).
    Unknown { raw: Vec<u8> },
}

/// The mathematical shadow of `Command`, over byte sequences.
pub enum CommandView {
    Upload { turn: Seq<u8> },
    Download { turn: Seq<u8> },
    DownloadUrl { url: Seq<u8> },
    UploadPath { local: Seq<u8>, remote: Option<Seq<u8>> },
    ListSaves,
    Status,
    Unknown { raw: Seq<u8> },
}

impl View for Command {
    type V = CommandView;

    open spec fn view(&self) -> CommandView {
        match self {
            Command::Upload { turn } => CommandView::Upload { turn: turn@ },
            Command::Download { turn } => CommandView::Download { turn: turn@ },
            Command::DownloadUrl { url } => CommandView::DownloadUrl { url: url@ },
            Command::UploadPath { local, remote } => CommandView::UploadPath {
                local: local@,
                remote: match remote {
                    Some(r) => Some(r@),
                    None => None,
                },
            },
            Command::ListSaves => CommandView::ListSaves,
            Command::Status => CommandView::Status,
            Command::Unknown { raw } => CommandView::Unknown { raw: raw@ },
        }
    }
}

/// The space-delimited upload form: `UPLOAD <local> [<remote>]`. `rest` is
/// what follows the verb, with leading whitespace already removed.
pub open spec fn parse_upload_args(rest: Seq<u8>) -> CommandView {
    let i = first_index_of(rest, 32);
    if i == -1 {
        CommandView::UploadPath { local: rest, remote: None }
    } else {
        let local = rest.subrange(0, i);
        let second = trim_front(rest.subrange(i + 1, rest.len() as int));
        if second.len() == 0 {
            CommandView::UploadPath { local, remote: None }
        } else {
            CommandView::UploadPath { local, remote: Some(second) }
        }
    }
}

/// The command grammar. The line is trimmed; a colon-delimited verb keeps its
/// argument verbatim, a space-delimited verb takes one or two arguments; an
/// unrecognized line maps to `Unknown`, so every buffer decodes to a command.
pub open spec fn parse_command(raw: Seq<u8>) -> CommandView {
    let t = trimmed(raw);
    if t == verb_status() {
        CommandView::Status
    } else if t == verb_list() {
        CommandView::ListSaves
    } else if starts_with(t, verb_upload_colon()) {
        CommandView::Upload { turn: t.subrange(verb_upload_colon().len() as int, t.len() as int) }
    } else if starts_with(t, verb_fetch_colon()) {
        CommandView::DownloadUrl { url: t.subrange(verb_fetch_colon().len() as int, t.len() as int) }
    } else if starts_with(t, verb_download_colon()) {
        CommandView::Download { turn: t.subrange(verb_download_colon().len() as int, t.len() as int) }
    } else if starts_with(t, verb_upload_space()) {
        parse_upload_args(trim_front(t.subrange(verb_upload_space().len() as int, t.len() as int)))
    } else if starts_with(t, verb_download_space()) {
        CommandView::DownloadUrl {
            url: trim_front(t.subrange(verb_download_space().len() as int, t.len() as int)),
        }
    } else {
        CommandView::Unknown { raw: t }
    }
}

/// Decodes one inbound buffer into a command, per `parse_command`. Total: any
/// byte sequence, a truncated one included, yields a command.
pub fn decode_command(buf: &[u8]) -> (c: Command)
    ensures
        c@ == parse_command(buf@),
{
    let t = trim(buf);
    let v_status = verb_status_bytes();
    if bytes_eq(t.as_slice(), v_status.as_slice()) {
        return Command::Status;
    }
    let v_list = verb_list_bytes();
    if bytes_eq(t.as_slice(), v_list.as_slice()) {
        return Command::ListSaves;
    }
    let v_upc = verb_upload_colon_bytes();
    if has_prefix(t.as_slice(), v_upc.as_slice()) {
        let turn = copy_range(t.as_slice(), v_upc.len(), t.len());
        return Command::Upload { turn };
    }
    let v_fetch = verb_fetch_colon_bytes();
    if has_prefix(t.as_slice(), v_fetch.as_slice()) {
        let url = copy_range(t.as_slice(), v_fetch.len(), t.len());
        return Command::DownloadUrl { url };
    }
    let v_dnc = verb_download_colon_bytes();
    if has_prefix(t.as_slice(), v_dnc.as_slice()) {
        let turn = copy_range(t.as_slice(), v_dnc.len(), t.len());
        return Command::Download { turn };
    }
    let v_ups = verb_upload_space_bytes();
    if has_prefix(t.as_slice(), v_ups.as_slice()) {
        let tail = copy_range(t.as_slice(), v_ups.len(), t.len());
        let rest = strip_front(tail.as_slice());
        match find_first(rest.as_slice(), 32) {
            None => {
                return Command::UploadPath { local: rest, remote: None };
            },
            Some(i) => {
                proof {
                    lemma_first_index_of(rest@, 32);
                    assert(i < rest@.len());
                }
                let rlen = rest.len();
                assert(i < rlen);
                let local = copy_range(rest.as_slice(), 0, i);
                let after = copy_range(rest.as_slice(), i + 1, rlen);
                let second = strip_front(after.as_slice());
                if second.len() == 0 {
                    return Command::UploadPath { local, remote: None };
                } else {
                    return Command::UploadPath { local, remote: Some(second) };
                }
            },
        }
    }
    let v_dns = verb_download_space_bytes();
    if has_prefix(t.as_slice(), v_dns.as_slice()) {
        let tail = copy_range(t.as_slice(), v_dns.len(), t.len());
        let url = strip_front(tail.as_slice());
        return Command::DownloadUrl { url };
    }
    Command::Unknown { raw: t }
}

} // verus!

verus! {

/// One reply per connection. `Ack` and `Error` reach the peer as their text;
/// `LoadInstruction` carries the local path the peer should load, behind a
/// fixed machine-parseable prefix.
#[derive(Debug, PartialEq, Eq)]
pub enum Response {
    Ack { text: Vec<u8> },
    Error { text: Vec<u8> },
    LoadInstruction { path: Vec<u8> },
}

/// The mathematical shadow of `Response`.
pub enum ResponseView {
    Ack { text: Seq<u8> },
    Error { text: Seq<u8> },
    LoadInstruction { path: Seq<u8> },
}

impl View for Response {
    type V = ResponseView;

    open spec fn view(&self) -> ResponseView {
        match self {
            Response::Ack { text } => ResponseView::Ack { text: text@ },
            Response::Error { text } => ResponseView::Error { text: text@ },
            Response::LoadInstruction { path } => ResponseView::LoadInstruction { path: path@ },
        }
    }
}

impl ResponseView {
    /// An acknowledgement, not a failure.
    pub open spec fn is_ack(self) -> bool {
        self is Ack
    }
}

/// The wire form of a response: acknowledgements and errors go out as their
/// text, a load instruction as the load prefix followed by the path, so the
/// peer can act on the line by looking for that prefix.
pub open spec fn encode_response(r: ResponseView) -> Seq<u8> {
    match r {
        ResponseView::Ack { text } => text,
        ResponseView::Error { text } => text,
        ResponseView::LoadInstruction { path } => load_prefix() + path,
    }
}

/// Encodes one response into the single outbound buffer.
pub fn encode(r: &Response) -> (out: Vec<u8>)
    ensures
        out@ == encode_response(r@),
{
    match r {
        Response::Ack { text } => {
            let mut out: Vec<u8> = Vec::new();
            crate::bytes::push_all(&mut out, text.as_slice());
            assert(out@ =~= encode_response(r@));
            out
        },
        Response::Error { text } => {
            let mut out: Vec<u8> = Vec::new();
            crate::bytes::push_all(&mut out, text.as_slice());
            assert(out@ =~= encode_response(r@));
            out
        },
        Response::LoadInstruction { path } => {
            let mut out = load_prefix_bytes();
            crate::bytes::push_all(&mut out, path.as_slice());
            out
        },
    }
}

} // verus!
