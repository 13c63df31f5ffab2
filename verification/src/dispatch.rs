use vstd::prelude::*;
use crate::config::{ServerConfig, ServerConfigView};
use crate::protocol::{Command, CommandView, Response, ResponseView};
use crate::paths::{
    quicksave_path_spec, join_spec, turn_file_name_spec, turn_remote_path_spec,
    url_file_name_spec, after_last_sep, remote_path_spec,
    quicksave_path, join_path, turn_file_name, turn_remote_path, url_file_name, base_name,
    remote_path,
};
use crate::text::{
    remote_folder, operational_text, unrecognized_prefix,
    remote_folder_bytes, operational_text_bytes, unrecognized_prefix_bytes,
};
use crate::bytes::push_all;

verus! {

/// What one decoded command asks of the outside world, with every path
/// already fixed. A command that needs no outside work carries its response.
#[derive(Debug, PartialEq, Eq)]
pub enum Plan {
    /// Answer at once; nothing to transfer.
    Respond { response: Response },
    /// Rename the quicksave to `renamed`, read it, push it to `remote`.
    PushTurn { quicksave: Vec<u8>, renamed: Vec<u8>, remote: Vec<u8>, overwrite: bool },
    /// Pull `remote` and write it to `dest`.
    PullTurn { remote: Vec<u8>, dest: Vec<u8> },
    /// Fetch `url` over plain http and write it to `dest`.
    FetchUrl { url: Vec<u8>, dest: Vec<u8> },
    /// Read `local` and push it to `remote`.
    PushFile { local: Vec<u8>, remote: Vec<u8>, overwrite: bool },
    /// Enumerate `folder`, non-recursively.
    ListFolder { folder: Vec<u8> },
}

/// The mathematical shadow of `Plan`.
pub enum PlanView {
    Respond { response: ResponseView },
    PushTurn { quicksave: Seq<u8>, renamed: Seq<u8>, remote: Seq<u8>, overwrite: bool },
    PullTurn { remote: Seq<u8>, dest: Seq<u8> },
    FetchUrl { url: Seq<u8>, dest: Seq<u8> },
    PushFile { local: Seq<u8>, remote: Seq<u8>, overwrite: bool },
    ListFolder { folder: Seq<u8> },
}

impl View for Plan {
    type V = PlanView;

    open spec fn view(&self) -> PlanView {
        match self {
            Plan::Respond { response } => PlanView::Respond { response: response@ },
            Plan::PushTurn { quicksave, renamed, remote, overwrite } => PlanView::PushTurn {
                quicksave: quicksave@,
                renamed: renamed@,
                remote: remote@,
                overwrite: *overwrite,
            },
            Plan::PullTurn { remote, dest } => PlanView::PullTurn {
                remote: remote@,
                dest: dest@,
            },
            Plan::FetchUrl { url, dest } => PlanView::FetchUrl { url: url@, dest: dest@ },
            Plan::PushFile { local, remote, overwrite } => PlanView::PushFile {
                local: local@,
                remote: remote@,
                overwrite: *overwrite,
            },
            Plan::ListFolder { folder } => PlanView::ListFolder { folder: folder@ },
        }
    }
}

/// The routing table: which outside work each command needs, and at which
/// paths. Turn identifiers go into names verbatim; pushes always overwrite; a
/// generic upload without a destination lands in the fixed save folder under
/// the source's base name; an unknown line is acknowledged with its text.
pub open spec fn plan_spec(c: CommandView, cfg: ServerConfigView) -> PlanView {
    match c {
        CommandView::Upload { turn } => PlanView::PushTurn {
            quicksave: quicksave_path_spec(cfg.save_dir, cfg.path_sep),
            renamed: join_spec(cfg.save_dir, cfg.path_sep, turn_file_name_spec(turn)),
            remote: turn_remote_path_spec(turn),
            overwrite: true,
        },
        CommandView::Download { turn } => PlanView::PullTurn {
            remote: turn_remote_path_spec(turn),
            dest: join_spec(cfg.save_dir, cfg.path_sep, turn_file_name_spec(turn)),
        },
        CommandView::DownloadUrl { url } => PlanView::FetchUrl {
            url: url,
            dest: join_spec(cfg.save_dir, cfg.path_sep, url_file_name_spec(url)),
        },
        CommandView::UploadPath { local, remote } => PlanView::PushFile {
            local: local,
            remote: match remote {
                Some(r) => r,
                None => remote_path_spec(after_last_sep(local)),
            },
            overwrite: true,
        },
        CommandView::ListSaves => PlanView::ListFolder { folder: remote_folder() },
        CommandView::Status => PlanView::Respond {
            response: ResponseView::Ack { text: operational_text() },
        },
        CommandView::Unknown { raw } => PlanView::Respond {
            response: ResponseView::Ack { text: unrecognized_prefix() + raw },
        },
    }
}

/// Routes one command to its plan, per `plan_spec`.
pub fn plan_command(c: Command, cfg: &ServerConfig) -> (p: Plan)
    ensures
        p@ == plan_spec(c@, cfg@),
{
    match c {
        Command::Upload { turn } => {
            let quicksave = quicksave_path(cfg.save_dir.as_slice(), cfg.path_sep);
            let name = turn_file_name(turn.as_slice());
            let renamed = join_path(cfg.save_dir.as_slice(), cfg.path_sep, name.as_slice());
            let remote = turn_remote_path(turn.as_slice());
            Plan::PushTurn { quicksave, renamed, remote, overwrite: true }
        },
        Command::Download { turn } => {
            let remote = turn_remote_path(turn.as_slice());
            let name = turn_file_name(turn.as_slice());
            let dest = join_path(cfg.save_dir.as_slice(), cfg.path_sep, name.as_slice());
            Plan::PullTurn { remote, dest }
        },
        Command::DownloadUrl { url } => {
            let name = url_file_name(url.as_slice());
            let dest = join_path(cfg.save_dir.as_slice(), cfg.path_sep, name.as_slice());
            Plan::FetchUrl { url, dest }
        },
        Command::UploadPath { local, remote } => {
            match remote {
                Some(r) => Plan::PushFile { local, remote: r, overwrite: true },
                None => {
                    let name = base_name(local.as_slice());
                    let remote = remote_path(name.as_slice());
                    Plan::PushFile { local, remote, overwrite: true }
                },
            }
        },
        Command::ListSaves => {
            let folder = remote_folder_bytes();
            Plan::ListFolder { folder }
        },
        Command::Status => {
            let text = operational_text_bytes();
            Plan::Respond { response: Response::Ack { text } }
        },
        Command::Unknown { raw } => {
            let mut text = unrecognized_prefix_bytes();
            push_all(&mut text, raw.as_slice());
            Plan::Respond { response: Response::Ack { text } }
        },
    }
}

} // verus!

verus! {

/// What the outside work handed back: the transfer finished, its source was
/// absent, it failed with a diagnostic, or a folder listing produced names.
#[derive(Debug, PartialEq, Eq)]
pub enum SyncOutcome {
    Done,
    MissingSource,
    Failed { diag: Vec<u8> },
    Names { names: Vec<Vec<u8>> },
}

/// The mathematical shadow of `SyncOutcome`.
pub enum SyncOutcomeView {
    Done,
    MissingSource,
    Failed { diag: Seq<u8> },
    Names { names: Seq<Seq<u8>> },
}

impl View for SyncOutcome {
    type V = SyncOutcomeView;

    open spec fn view(&self) -> SyncOutcomeView {
        match self {
            SyncOutcome::Done => SyncOutcomeView::Done,
            SyncOutcome::MissingSource => SyncOutcomeView::MissingSource,
            SyncOutcome::Failed { diag } => SyncOutcomeView::Failed { diag: diag@ },
            SyncOutcome::Names { names } => SyncOutcomeView::Names {
                names: names@.map_values(|n: Vec<u8>| n@),
            },
        }
    }
}

/// A settled exchange: the one response for the peer, and a diagnostic line
/// for the operator's log (empty when there is nothing to say).
#[derive(Debug, PartialEq, Eq)]
pub struct Settled {
    pub response: Response,
    pub log: Vec<u8>,
}

/// The mathematical shadow of `Settled`.
pub struct SettledView {
    pub response: ResponseView,
    pub log: Seq<u8>,
}

impl View for Settled {
    type V = SettledView;

    open spec fn view(&self) -> SettledView {
        SettledView { response: self.response@, log: self.log@ }
    }
}

/// The listed names joined with the fixed separator.
pub open spec fn join_names(names: Seq<Seq<u8>>) -> Seq<u8>
    decreases names.len(),
{
    if names.len() == 0 {
        Seq::empty()
    } else if names.len() == 1 {
        names[0]
    } else {
        names[0] + crate::text::name_sep() + join_names(names.drop_first())
    }
}

/// Appending one more name extends the joined text by a separator and that
/// name.
proof fn lemma_join_names_snoc(names: Seq<Seq<u8>>, x: Seq<u8>)
    ensures
        join_names(names.push(x)) == if names.len() == 0 {
            x
        } else {
            join_names(names) + crate::text::name_sep() + x
        },
    decreases names.len(),
{
    let s = names.push(x);
    if names.len() == 0 {
        assert(s.len() == 1);
        assert(s[0] == x);
    } else {
        assert(s.drop_first() =~= names.drop_first().push(x));
        lemma_join_names_snoc(names.drop_first(), x);
        if names.len() == 1 {
            assert(join_names(s) == s[0] + crate::text::name_sep() + x);
            assert(s[0] == names[0]);
        } else {
            assert(join_names(s) == names[0] + crate::text::name_sep() + (join_names(
                names.drop_first(),
            ) + crate::text::name_sep() + x));
            assert(names[0] + crate::text::name_sep() + (join_names(names.drop_first())
                + crate::text::name_sep() + x) =~= (names[0] + crate::text::name_sep()
                + join_names(names.drop_first())) + crate::text::name_sep() + x);
        }
    }
}

/// Joins the listed names with the fixed separator.
pub fn join_name_list(names: &Vec<Vec<u8>>) -> (out: Vec<u8>)
    ensures
        out@ == join_names(names@.map_values(|n: Vec<u8>| n@)),
{
    let ghost m = names@.map_values(|n: Vec<u8>| n@);
    let mut out: Vec<u8> = Vec::new();
    let mut i: usize = 0;
    while i < names.len()
        invariant
            i <= names.len(),
            m == names@.map_values(|n: Vec<u8>| n@),
            out@ == join_names(m.take(i as int)),
        decreases names.len() - i,
    {
        proof {
            assert(m[i as int] == names@[i as int]@);
        }
        if i > 0 {
            let sep = crate::text::name_sep_bytes();
            push_all(&mut out, sep.as_slice());
        }
        push_all(&mut out, names[i].as_slice());
        proof {
            lemma_join_names_snoc(m.take(i as int), m[i as int]);
            assert(m.take(i as int + 1) =~= m.take(i as int).push(m[i as int]));
            if i > 0 {
                assert(out@ =~= join_names(m.take(i as int)) + crate::text::name_sep() + m[
                    i as int]);
            }
        }
        i += 1;
    }
    proof {
        assert(m.take(names@.len() as int) =~= m);
    }
    out
}

/// The operator diagnostic for a missing quicksave: the path that was looked
/// at, the directory that was expected, and a permission reminder.
pub open spec fn missing_quicksave_log(quicksave: Seq<u8>, dir: Seq<u8>) -> Seq<u8> {
    crate::text::missing_save_prefix() + quicksave + crate::text::expected_dir_part() + dir
        + crate::text::check_perm_part()
}

/// An acknowledgement with nothing for the log.
pub open spec fn quiet_ack(text: Seq<u8>) -> SettledView {
    SettledView { response: ResponseView::Ack { text }, log: Seq::empty() }
}

/// A failure; the peer's text doubles as the log line.
pub open spec fn logged_error(text: Seq<u8>) -> SettledView {
    SettledView { response: ResponseView::Error { text }, log: text }
}

/// How each outcome settles each plan. A finished turn upload acknowledges
/// with the fixed ok text; a missing quicksave answers with the fixed failure
/// text and puts the full diagnostic in the log; a finished turn download
/// answers with the load instruction for the written file; an empty listing
/// answers with the distinct no-saves text, never an error; every other
/// failure surfaces its diagnostic verbatim.
pub open spec fn settle_spec(p: PlanView, o: SyncOutcomeView, cfg: ServerConfigView) -> SettledView {
    match p {
        PlanView::Respond { response } => SettledView { response, log: Seq::empty() },
        PlanView::PushTurn { quicksave, renamed, remote, overwrite } => match o {
            SyncOutcomeView::Done => quiet_ack(crate::text::upload_ok_text()),
            SyncOutcomeView::MissingSource => SettledView {
                response: ResponseView::Error { text: crate::text::upload_fail_text() },
                log: missing_quicksave_log(quicksave, cfg.save_dir),
            },
            SyncOutcomeView::Failed { diag } => logged_error(diag),
            SyncOutcomeView::Names { names } => logged_error(crate::text::mismatch_text()),
        },
        PlanView::PullTurn { remote, dest } => match o {
            SyncOutcomeView::Done => SettledView {
                response: ResponseView::LoadInstruction { path: dest },
                log: Seq::empty(),
            },
            SyncOutcomeView::MissingSource => logged_error(
                crate::text::missing_save_prefix() + remote,
            ),
            SyncOutcomeView::Failed { diag } => logged_error(diag),
            SyncOutcomeView::Names { names } => logged_error(crate::text::mismatch_text()),
        },
        PlanView::FetchUrl { url, dest } => match o {
            SyncOutcomeView::Done => quiet_ack(crate::text::downloaded_to_prefix() + dest),
            SyncOutcomeView::MissingSource => logged_error(crate::text::missing_save_prefix() + url),
            SyncOutcomeView::Failed { diag } => logged_error(diag),
            SyncOutcomeView::Names { names } => logged_error(crate::text::mismatch_text()),
        },
        PlanView::PushFile { local, remote, overwrite } => match o {
            SyncOutcomeView::Done => quiet_ack(crate::text::uploaded_to_prefix() + remote),
            SyncOutcomeView::MissingSource => logged_error(
                crate::text::missing_save_prefix() + local,
            ),
            SyncOutcomeView::Failed { diag } => logged_error(diag),
            SyncOutcomeView::Names { names } => logged_error(crate::text::mismatch_text()),
        },
        PlanView::ListFolder { folder } => match o {
            SyncOutcomeView::Names { names } => if names.len() == 0 {
                quiet_ack(crate::text::no_saves_text())
            } else {
                quiet_ack(join_names(names))
            },
            SyncOutcomeView::Failed { diag } => logged_error(diag),
            SyncOutcomeView::Done => logged_error(crate::text::mismatch_text()),
            SyncOutcomeView::MissingSource => logged_error(crate::text::mismatch_text()),
        },
    }
}

} // verus!

verus! {

/// Builds the missing-quicksave diagnostic.
fn build_missing_quicksave_log(quicksave: &[u8], dir: &[u8]) -> (out: Vec<u8>)
    ensures
        out@ == missing_quicksave_log(quicksave@, dir@),
{
    let mut out = crate::text::missing_save_prefix_bytes();
    push_all(&mut out, quicksave);
    let mid = crate::text::expected_dir_part_bytes();
    push_all(&mut out, mid.as_slice());
    push_all(&mut out, dir);
    let tail = crate::text::check_perm_part_bytes();
    push_all(&mut out, tail.as_slice());
    proof {
        assert(out@ =~= missing_quicksave_log(quicksave@, dir@));
    }
    out
}

/// A failure response whose text is a prefix followed by a path.
fn build_prefixed_error(path: &[u8]) -> (s: Settled)
    ensures
        s@ == logged_error(crate::text::missing_save_prefix() + path@),
{
    let mut text = crate::text::missing_save_prefix_bytes();
    push_all(&mut text, path);
    let mut log = crate::text::missing_save_prefix_bytes();
    push_all(&mut log, path);
    Settled { response: Response::Error { text }, log }
}

/// The mismatch failure.
fn build_mismatch() -> (s: Settled)
    ensures
        s@ == logged_error(crate::text::mismatch_text()),
{
    let text = crate::text::mismatch_text_bytes();
    let log = crate::text::mismatch_text_bytes();
    Settled { response: Response::Error { text }, log }
}

/// A verbatim failure: the diagnostic reaches the peer and the log unchanged.
fn build_verbatim_error(diag: Vec<u8>) -> (s: Settled)
    ensures
        s@ == logged_error(diag@),
{
    let mut log: Vec<u8> = Vec::new();
    push_all(&mut log, diag.as_slice());
    proof {
        assert(log@ =~= diag@);
    }
    Settled { response: Response::Error { text: diag }, log }
}

/// Settles one plan with what the outside work reported, per `settle_spec`.
pub fn settle(p: Plan, o: SyncOutcome, cfg: &ServerConfig) -> (s: Settled)
    ensures
        s@ == settle_spec(p@, o@, cfg@),
{
    match p {
        Plan::Respond { response } => Settled { response, log: Vec::new() },
        Plan::PushTurn { quicksave, renamed, remote, overwrite } => match o {
            SyncOutcome::Done => {
                let text = crate::text::upload_ok_text_bytes();
                Settled { response: Response::Ack { text }, log: Vec::new() }
            },
            SyncOutcome::MissingSource => {
                let text = crate::text::upload_fail_text_bytes();
                let log = build_missing_quicksave_log(
                    quicksave.as_slice(),
                    cfg.save_dir.as_slice(),
                );
                Settled { response: Response::Error { text }, log }
            },
            SyncOutcome::Failed { diag } => build_verbatim_error(diag),
            SyncOutcome::Names { names } => build_mismatch(),
        },
        Plan::PullTurn { remote, dest } => match o {
            SyncOutcome::Done => Settled {
                response: Response::LoadInstruction { path: dest },
                log: Vec::new(),
            },
            SyncOutcome::MissingSource => build_prefixed_error(remote.as_slice()),
            SyncOutcome::Failed { diag } => build_verbatim_error(diag),
            SyncOutcome::Names { names } => build_mismatch(),
        },
        Plan::FetchUrl { url, dest } => match o {
            SyncOutcome::Done => {
                let mut text = crate::text::downloaded_to_prefix_bytes();
                push_all(&mut text, dest.as_slice());
                Settled { response: Response::Ack { text }, log: Vec::new() }
            },
            SyncOutcome::MissingSource => build_prefixed_error(url.as_slice()),
            SyncOutcome::Failed { diag } => build_verbatim_error(diag),
            SyncOutcome::Names { names } => build_mismatch(),
        },
        Plan::PushFile { local, remote, overwrite } => match o {
            SyncOutcome::Done => {
                let mut text = crate::text::uploaded_to_prefix_bytes();
                push_all(&mut text, remote.as_slice());
                Settled { response: Response::Ack { text }, log: Vec::new() }
            },
            SyncOutcome::MissingSource => build_prefixed_error(local.as_slice()),
            SyncOutcome::Failed { diag } => build_verbatim_error(diag),
            SyncOutcome::Names { names } => build_mismatch(),
        },
        Plan::ListFolder { folder } => match o {
            SyncOutcome::Names { names } => {
                if names.len() == 0 {
                    let text = crate::text::no_saves_text_bytes();
                    proof {
                        assert(names@.map_values(|n: Vec<u8>| n@).len() == 0);
                    }
                    Settled { response: Response::Ack { text }, log: Vec::new() }
                } else {
                    let text = join_name_list(&names);
                    proof {
                        assert(names@.map_values(|n: Vec<u8>| n@).len() != 0);
                    }
                    Settled { response: Response::Ack { text }, log: Vec::new() }
                }
            },
            SyncOutcome::Failed { diag } => build_verbatim_error(diag),
            SyncOutcome::Done => build_mismatch(),
            SyncOutcome::MissingSource => build_mismatch(),
        },
    }
}

} // verus!
