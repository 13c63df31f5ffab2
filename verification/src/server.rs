use vstd::prelude::*;
use crate::config::{ServerConfig, ServerConfigView};
use crate::dispatch::{
    Plan, PlanView, SyncOutcome, SyncOutcomeView, plan_spec, plan_command, settle,
    settle_spec,
};
use crate::protocol::{
    Response, parse_command, decode_command, encode, encode_response,
};

verus! {

/// The platform code a peer-initiated close shows up as on a read, a write
/// or an accept poll.
pub const BROKEN_CHANNEL_CODE: u32 = 109;

/// Whether a platform error code means the peer simply went away.
pub open spec fn is_benign_code(code: u32) -> bool {
    code == BROKEN_CHANNEL_CODE
}

/// Executable test for `is_benign_code`.
pub fn code_is_benign(code: u32) -> (r: bool)
    ensures
        r == is_benign_code(code),
{
    code == BROKEN_CHANNEL_CODE
}

/// How one accept-read-write cycle ended.
#[derive(PartialEq, Eq, Structural, Clone, Copy, Debug)]
pub enum SessionEnd {
    /// The endpoint could not be created; there was never a handle to close.
    CreateError { code: u32 },
    /// No peer arrived inside the accept window.
    AcceptTimeout,
    /// The peer went away while the server was still accepting.
    PeerAborted { code: u32 },
    /// The peer closed after connecting, before or during the exchange.
    BenignDisconnect,
    /// The single read failed with a code that is not a disconnect.
    ReadError { code: u32 },
    /// The single write failed.
    WriteError { code: u32 },
    /// One command was read, handled and answered.
    Completed,
}

/// How loudly an ending should be logged.
#[derive(PartialEq, Eq, Structural, Clone, Copy, Debug)]
pub enum Severity {
    /// Expected in normal operation: completion, a quiet peer, a timeout.
    Info,
    /// A real failure worth an operator's attention.
    Fault,
}

/// Peer-initiated conditions and quiet windows are routine; failures of the
/// platform or of the exchange are not.
pub open spec fn end_severity_spec(end: SessionEnd) -> Severity {
    match end {
        SessionEnd::Completed => Severity::Info,
        SessionEnd::AcceptTimeout => Severity::Info,
        SessionEnd::PeerAborted { .. } => Severity::Info,
        SessionEnd::BenignDisconnect => Severity::Info,
        SessionEnd::CreateError { .. } => Severity::Fault,
        SessionEnd::ReadError { .. } => Severity::Fault,
        SessionEnd::WriteError { .. } => Severity::Fault,
    }
}

/// Classifies one ending, per `end_severity_spec`.
pub fn end_severity(end: &SessionEnd) -> (s: Severity)
    ensures
        s == end_severity_spec(*end),
{
    match end {
        SessionEnd::Completed => Severity::Info,
        SessionEnd::AcceptTimeout => Severity::Info,
        SessionEnd::PeerAborted { .. } => Severity::Info,
        SessionEnd::BenignDisconnect => Severity::Info,
        SessionEnd::CreateError { .. } => Severity::Fault,
        SessionEnd::ReadError { .. } => Severity::Fault,
        SessionEnd::WriteError { .. } => Severity::Fault,
    }
}

/// Where one connection cycle stands. The endpoint handle itself lives with
/// the driver; the machine tracks whether one is held and what is owed next.
#[derive(Debug, PartialEq, Eq)]
pub enum ServerState {
    /// Nothing created yet.
    Idle,
    /// Creation requested; no handle until the driver confirms.
    Listening,
    /// Holding the endpoint, polling for a peer.
    Accepting { attempts: u32 },
    /// A peer is connected; one read is owed.
    Connected,
    /// The command needs outside work; its plan is out with the driver.
    Transferring { plan: Plan },
    /// The response is out with the driver; one write is owed.
    Writing,
    /// Terminal. The handle, if one was ever acquired, has been released.
    Closed { end: SessionEnd },
}

/// The mathematical shadow of `ServerState`.
pub enum ServerStateView {
    Idle,
    Listening,
    Accepting { attempts: u32 },
    Connected,
    Transferring { plan: PlanView },
    Writing,
    Closed { end: SessionEnd },
}

impl View for ServerState {
    type V = ServerStateView;

    open spec fn view(&self) -> ServerStateView {
        match self {
            ServerState::Idle => ServerStateView::Idle,
            ServerState::Listening => ServerStateView::Listening,
            ServerState::Accepting { attempts } => ServerStateView::Accepting {
                attempts: *attempts,
            },
            ServerState::Connected => ServerStateView::Connected,
            ServerState::Transferring { plan } => ServerStateView::Transferring { plan: plan@ },
            ServerState::Writing => ServerStateView::Writing,
            ServerState::Closed { end } => ServerStateView::Closed { end: *end },
        }
    }
}

/// What the driver reports back to the machine.
#[derive(Debug, PartialEq, Eq)]
pub enum Event {
    /// Begin a cycle.
    Start,
    /// The endpoint was created.
    Created,
    /// The endpoint could not be created.
    CreateFailed { code: u32 },
    /// A poll found the peer connected.
    PeerConnected,
    /// A poll found no peer yet.
    PollIdle,
    /// A poll failed with a platform code.
    PollFailed { code: u32 },
    /// The single read delivered these bytes (at most one buffer; anything
    /// longer was truncated by the channel).
    ReadDone { data: Vec<u8> },
    /// The single read failed with a platform code.
    ReadFailed { code: u32 },
    /// The outside work of the current plan finished with this outcome.
    SyncDone { outcome: SyncOutcome },
    /// The single write went out.
    WriteDone,
    /// The single write failed with a platform code.
    WriteFailed { code: u32 },
}

/// The mathematical shadow of `Event`.
pub enum EventView {
    Start,
    Created,
    CreateFailed { code: u32 },
    PeerConnected,
    PollIdle,
    PollFailed { code: u32 },
    ReadDone { data: Seq<u8> },
    ReadFailed { code: u32 },
    SyncDone { outcome: SyncOutcomeView },
    WriteDone,
    WriteFailed { code: u32 },
}

impl View for Event {
    type V = EventView;

    open spec fn view(&self) -> EventView {
        match self {
            Event::Start => EventView::Start,
            Event::Created => EventView::Created,
            Event::CreateFailed { code } => EventView::CreateFailed { code: *code },
            Event::PeerConnected => EventView::PeerConnected,
            Event::PollIdle => EventView::PollIdle,
            Event::PollFailed { code } => EventView::PollFailed { code: *code },
            Event::ReadDone { data } => EventView::ReadDone { data: data@ },
            Event::ReadFailed { code } => EventView::ReadFailed { code: *code },
            Event::SyncDone { outcome } => EventView::SyncDone { outcome: outcome@ },
            Event::WriteDone => EventView::WriteDone,
            Event::WriteFailed { code } => EventView::WriteFailed { code: *code },
        }
    }
}

/// What the machine asks the driver to do next.
#[derive(Debug, PartialEq, Eq)]
pub enum Action {
    /// Create the named endpoint.
    Create,
    /// Poll once for a peer, after the fixed inter-attempt delay.
    Poll,
    /// Perform the single bounded read.
    Read,
    /// Perform the outside work of this plan and report its outcome.
    Run { plan: Plan },
    /// Print `log` when it is not empty, then perform the single write.
    Write { data: Vec<u8>, log: Vec<u8> },
    /// Disconnect and release the endpoint.
    Teardown,
    /// Nothing; the cycle is over or the event did not belong here.
    Hold,
}

/// The mathematical shadow of `Action`.
pub enum ActionView {
    Create,
    Poll,
    Read,
    Run { plan: PlanView },
    Write { data: Seq<u8>, log: Seq<u8> },
    Teardown,
    Hold,
}

impl View for Action {
    type V = ActionView;

    open spec fn view(&self) -> ActionView {
        match self {
            Action::Create => ActionView::Create,
            Action::Poll => ActionView::Poll,
            Action::Read => ActionView::Read,
            Action::Run { plan } => ActionView::Run { plan: plan@ },
            Action::Write { data, log } => ActionView::Write { data: data@, log: log@ },
            Action::Teardown => ActionView::Teardown,
            Action::Hold => ActionView::Hold,
        }
    }
}

/// What a delivered read leads to: a direct reply is written at once, any
/// other command hands its plan to the driver.
pub open spec fn read_step_spec(data: Seq<u8>, cfg: ServerConfigView) -> (ServerStateView,
    ActionView) {
    let plan = plan_spec(parse_command(data), cfg);
    match plan {
        PlanView::Respond { response } => (
            ServerStateView::Writing,
            ActionView::Write { data: encode_response(response), log: Seq::empty() },
        ),
        _ => (ServerStateView::Transferring { plan }, ActionView::Run { plan }),
    }
}

/// The transition relation of one connection cycle. Each accept poll that
/// finds no peer burns one bounded attempt; the window closes as a timeout.
/// A broken-channel code during accept or read is the peer's own doing and
/// closes the cycle benignly; any other failure closes it as a fault. Every
/// path out of a state that holds the endpoint emits exactly one `Teardown`.
/// An event that does not belong to the state changes nothing.
pub open spec fn step_spec(s: ServerStateView, e: EventView, cfg: ServerConfigView) -> (
    ServerStateView,
    ActionView,
) {
    match (s, e) {
        (ServerStateView::Idle, EventView::Start) => (ServerStateView::Listening,
            ActionView::Create),
        (ServerStateView::Listening, EventView::Created) => (ServerStateView::Accepting {
            attempts: 0,
        }, ActionView::Poll),
        (ServerStateView::Listening, EventView::CreateFailed { code }) => (ServerStateView::Closed {
            end: SessionEnd::CreateError { code },
        }, ActionView::Hold),
        (ServerStateView::Accepting { attempts }, EventView::PeerConnected) => (
            ServerStateView::Connected,
            ActionView::Read,
        ),
        (ServerStateView::Accepting { attempts }, EventView::PollIdle) => if attempts + 1
            < cfg.max_accept_attempts {
            (ServerStateView::Accepting { attempts: (attempts + 1) as u32 }, ActionView::Poll)
        } else {
            (ServerStateView::Closed { end: SessionEnd::AcceptTimeout }, ActionView::Teardown)
        },
        (ServerStateView::Accepting { attempts }, EventView::PollFailed { code }) => if is_benign_code(
            code,
        ) {
            (ServerStateView::Closed { end: SessionEnd::PeerAborted { code } },
                ActionView::Teardown)
        } else if attempts + 1 < cfg.max_accept_attempts {
            (ServerStateView::Accepting { attempts: (attempts + 1) as u32 }, ActionView::Poll)
        } else {
            (ServerStateView::Closed { end: SessionEnd::AcceptTimeout }, ActionView::Teardown)
        },
        (ServerStateView::Connected, EventView::ReadDone { data }) => read_step_spec(data, cfg),
        (ServerStateView::Connected, EventView::ReadFailed { code }) => if is_benign_code(code) {
            (ServerStateView::Closed { end: SessionEnd::BenignDisconnect }, ActionView::Teardown)
        } else {
            (ServerStateView::Closed { end: SessionEnd::ReadError { code } }, ActionView::Teardown)
        },
        (ServerStateView::Transferring { plan }, EventView::SyncDone { outcome }) => {
            let settled = settle_spec(plan, outcome, cfg);
            (ServerStateView::Writing, ActionView::Write {
                data: encode_response(settled.response),
                log: settled.log,
            })
        },
        (ServerStateView::Writing, EventView::WriteDone) => (ServerStateView::Closed {
            end: SessionEnd::Completed,
        }, ActionView::Teardown),
        (ServerStateView::Writing, EventView::WriteFailed { code }) => (ServerStateView::Closed {
            end: SessionEnd::WriteError { code },
        }, ActionView::Teardown),
        (s0, _) => (s0, ActionView::Hold),
    }
}

} // verus!

verus! {

/// Advances the cycle by one reported event, per `step_spec`.
pub fn step(s: ServerState, e: Event, cfg: &ServerConfig) -> (r: (ServerState, Action))
    ensures
        (r.0@, r.1@) == step_spec(s@, e@, cfg@),
{
    match (s, e) {
        (ServerState::Idle, Event::Start) => (ServerState::Listening, Action::Create),
        (ServerState::Listening, Event::Created) => (
            ServerState::Accepting { attempts: 0 },
            Action::Poll,
        ),
        (ServerState::Listening, Event::CreateFailed { code }) => (
            ServerState::Closed { end: SessionEnd::CreateError { code } },
            Action::Hold,
        ),
        (ServerState::Accepting { attempts }, Event::PeerConnected) => (
            ServerState::Connected,
            Action::Read,
        ),
        (ServerState::Accepting { attempts }, Event::PollIdle) => {
            if (attempts as u64) + 1 < (cfg.max_accept_attempts as u64) {
                (ServerState::Accepting { attempts: attempts + 1 }, Action::Poll)
            } else {
                (ServerState::Closed { end: SessionEnd::AcceptTimeout }, Action::Teardown)
            }
        },
        (ServerState::Accepting { attempts }, Event::PollFailed { code }) => {
            if code_is_benign(code) {
                (ServerState::Closed { end: SessionEnd::PeerAborted { code } }, Action::Teardown)
            } else if (attempts as u64) + 1 < (cfg.max_accept_attempts as u64) {
                (ServerState::Accepting { attempts: attempts + 1 }, Action::Poll)
            } else {
                (ServerState::Closed { end: SessionEnd::AcceptTimeout }, Action::Teardown)
            }
        },
        (ServerState::Connected, Event::ReadDone { data }) => {
            let cmd = decode_command(data.as_slice());
            let plan = plan_command(cmd, cfg);
            match plan {
                Plan::Respond { response } => {
                    let out = encode(&response);
                    (ServerState::Writing, Action::Write { data: out, log: Vec::new() })
                },
                other => {
                    let run_plan = copy_plan(&other);
                    (ServerState::Transferring { plan: other }, Action::Run { plan: run_plan })
                },
            }
        },
        (ServerState::Connected, Event::ReadFailed { code }) => {
            if code_is_benign(code) {
                (ServerState::Closed { end: SessionEnd::BenignDisconnect }, Action::Teardown)
            } else {
                (ServerState::Closed { end: SessionEnd::ReadError { code } }, Action::Teardown)
            }
        },
        (ServerState::Transferring { plan }, Event::SyncDone { outcome }) => {
            let settled = settle(plan, outcome, cfg);
            let out = encode(&settled.response);
            (ServerState::Writing, Action::Write { data: out, log: settled.log })
        },
        (ServerState::Writing, Event::WriteDone) => (
            ServerState::Closed { end: SessionEnd::Completed },
            Action::Teardown,
        ),
        (ServerState::Writing, Event::WriteFailed { code }) => (
            ServerState::Closed { end: SessionEnd::WriteError { code } },
            Action::Teardown,
        ),
        (s0, _) => (s0, Action::Hold),
    }
}

/// A fresh copy of a byte vector.
fn copy_bytes(v: &Vec<u8>) -> (r: Vec<u8>)
    ensures
        r@ == v@,
{
    let r = crate::bytes::copy_range(v.as_slice(), 0, v.len());
    proof {
        assert(r@ =~= v@);
    }
    r
}

/// A fresh copy of a response.
fn copy_response(r: &Response) -> (c: Response)
    ensures
        c@ == r@,
{
    match r {
        Response::Ack { text } => Response::Ack { text: copy_bytes(text) },
        Response::Error { text } => Response::Error { text: copy_bytes(text) },
        Response::LoadInstruction { path } => Response::LoadInstruction { path: copy_bytes(path) },
    }
}

/// A fresh copy of a plan.
fn copy_plan(p: &Plan) -> (c: Plan)
    ensures
        c@ == p@,
{
    match p {
        Plan::Respond { response } => Plan::Respond { response: copy_response(response) },
        Plan::PushTurn { quicksave, renamed, remote, overwrite } => Plan::PushTurn {
            quicksave: copy_bytes(quicksave),
            renamed: copy_bytes(renamed),
            remote: copy_bytes(remote),
            overwrite: *overwrite,
        },
        Plan::PullTurn { remote, dest } => Plan::PullTurn {
            remote: copy_bytes(remote),
            dest: copy_bytes(dest),
        },
        Plan::FetchUrl { url, dest } => Plan::FetchUrl {
            url: copy_bytes(url),
            dest: copy_bytes(dest),
        },
        Plan::PushFile { local, remote, overwrite } => Plan::PushFile {
            local: copy_bytes(local),
            remote: copy_bytes(remote),
            overwrite: *overwrite,
        },
        Plan::ListFolder { folder } => Plan::ListFolder { folder: copy_bytes(folder) },
    }
}

} // verus!

verus! {

/// Whether the machine is in a state that holds the endpoint handle.
pub open spec fn holds_endpoint(s: ServerStateView) -> bool {
    match s {
        ServerStateView::Accepting { .. } => true,
        ServerStateView::Connected => true,
        ServerStateView::Transferring { .. } => true,
        ServerStateView::Writing => true,
        _ => false,
    }
}

/// Folds a whole event sequence through the machine: the state it ends in,
/// and how many `Teardown` actions it emitted on the way.
pub open spec fn run_trace(s: ServerStateView, events: Seq<EventView>, cfg: ServerConfigView) -> (
    ServerStateView,
    nat,
)
    decreases events.len(),
{
    if events.len() == 0 {
        (s, 0)
    } else {
        let first = step_spec(s, events[0], cfg);
        let rest = run_trace(first.0, events.drop_first(), cfg);
        (rest.0, rest.1 + if first.1 is Teardown {
            1nat
        } else {
            0nat
        })
    }
}

/// One step never acquires out of thin air and never releases silently: a
/// `Teardown` is emitted exactly on the transitions that give the endpoint
/// up, the endpoint is only acquired from `Listening`, and a closed cycle
/// stays closed and does nothing.
proof fn lemma_step_endpoint(s: ServerStateView, e: EventView, cfg: ServerConfigView)
    ensures
        ({
            let r = step_spec(s, e, cfg);
            &&& (r.1 is Teardown) <==> (holds_endpoint(s) && !holds_endpoint(r.0))
            &&& holds_endpoint(r.0) ==> holds_endpoint(s) || s is Listening
            &&& s is Closed ==> r.0 == s && r.1 is Hold
        }),
{
}

/// The guarantee of §teardown: over any event sequence the endpoint is torn
/// down at most once; from any state that holds the endpoint it is torn down
/// exactly once unless the trace ends still holding it; and a closed cycle
/// neither moves nor tears down again.
pub proof fn lemma_session_closes_once(
    s: ServerStateView,
    events: Seq<EventView>,
    cfg: ServerConfigView,
)
    ensures
        run_trace(s, events, cfg).1 <= 1,
        holds_endpoint(s) ==> run_trace(s, events, cfg).1 == if holds_endpoint(
            run_trace(s, events, cfg).0,
        ) {
            0nat
        } else {
            1nat
        },
        s is Closed ==> run_trace(s, events, cfg).0 == s && run_trace(s, events, cfg).1 == 0,
    decreases events.len(),
{
    if events.len() > 0 {
        let first = step_spec(s, events[0], cfg);
        lemma_step_endpoint(s, events[0], cfg);
        lemma_session_closes_once(first.0, events.drop_first(), cfg);
    }
}

/// Every delivered read is answered: whatever bytes arrive — a truncated
/// buffer included — the machine moves to a write, directly or through one
/// transfer, and never drops the connection over their content.
pub proof fn lemma_every_read_is_answered(data: Seq<u8>, cfg: ServerConfigView)
    ensures
        ({
            let r = step_spec(ServerStateView::Connected, EventView::ReadDone { data }, cfg);
            ||| (r.0 is Writing && r.1 is Write)
            ||| (r.0 is Transferring && r.1 is Run)
        }),
{
}

/// An unrecognized line is acknowledged with the line itself, behind the
/// fixed prefix: never an error, never a dropped connection.
pub proof fn lemma_unrecognized_always_acked(data: Seq<u8>, cfg: ServerConfigView)
    requires
        parse_command(data) is Unknown,
    ensures
        step_spec(ServerStateView::Connected, EventView::ReadDone { data }, cfg) == (
            ServerStateView::Writing,
            ActionView::Write {
                data: crate::text::unrecognized_prefix() + crate::bytes::trimmed(data),
                log: Seq::<u8>::empty(),
            },
        ),
{
}

/// A peer that connects and then closes without sending anything shows up as
/// a broken-channel read failure; the machine closes the cycle as a benign
/// disconnect, to be logged quietly, and the endpoint is torn down so the
/// next cycle can accept.
pub proof fn lemma_immediate_close_is_benign(cfg: ServerConfigView)
    ensures
        step_spec(
            ServerStateView::Connected,
            EventView::ReadFailed { code: BROKEN_CHANNEL_CODE },
            cfg,
        ) == (
            ServerStateView::Closed { end: SessionEnd::BenignDisconnect },
            ActionView::Teardown,
        ),
        end_severity_spec(SessionEnd::BenignDisconnect) == Severity::Info,
{
}

/// How many more polls the accept window allows before it must close.
pub open spec fn accept_polls_left(s: ServerStateView, cfg: ServerConfigView) -> nat {
    match s {
        ServerStateView::Accepting { attempts } => if attempts < cfg.max_accept_attempts {
            (cfg.max_accept_attempts - attempts) as nat
        } else {
            0
        },
        _ => 0,
    }
}

/// The accept window is bounded: every poll that finds no peer either burns
/// one of the remaining attempts or closes the cycle as a timeout, so no
/// cycle polls forever.
pub proof fn lemma_accept_window_bounded(attempts: u32, cfg: ServerConfigView)
    ensures
        ({
            let s = ServerStateView::Accepting { attempts };
            let r = step_spec(s, EventView::PollIdle, cfg);
            (r.0 is Accepting && accept_polls_left(r.0, cfg) < accept_polls_left(s, cfg)) || (r.0
                == ServerStateView::Closed { end: SessionEnd::AcceptTimeout } && r.1
                is Teardown)
        }),
{
}

} // verus!

verus! {

/// How many writes a cycle may still emit from this state.
pub open spec fn write_budget(s: ServerStateView) -> nat {
    match s {
        ServerStateView::Writing => 0,
        ServerStateView::Closed { .. } => 0,
        _ => 1,
    }
}

/// Counts the `Write` actions a whole event sequence makes the machine emit.
pub open spec fn count_writes(s: ServerStateView, events: Seq<EventView>, cfg: ServerConfigView)
    -> nat
    decreases events.len(),
{
    if events.len() == 0 {
        0
    } else {
        let first = step_spec(s, events[0], cfg);
        count_writes(first.0, events.drop_first(), cfg) + if first.1 is Write {
            1nat
        } else {
            0nat
        }
    }
}

/// How many reads a cycle may still emit from this state.
pub open spec fn read_budget(s: ServerStateView) -> nat {
    match s {
        ServerStateView::Idle => 1,
        ServerStateView::Listening => 1,
        ServerStateView::Accepting { .. } => 1,
        _ => 0,
    }
}

/// Counts the `Read` actions a whole event sequence makes the machine emit.
pub open spec fn count_reads(s: ServerStateView, events: Seq<EventView>, cfg: ServerConfigView)
    -> nat
    decreases events.len(),
{
    if events.len() == 0 {
        0
    } else {
        let first = step_spec(s, events[0], cfg);
        count_reads(first.0, events.drop_first(), cfg) + if first.1 is Read {
            1nat
        } else {
            0nat
        }
    }
}

/// Strictly one command, one response: over any event sequence a cycle asks
/// for at most one write, and once the response is out (or the cycle closed)
/// it never asks for another.
pub proof fn lemma_single_write_per_cycle(
    s: ServerStateView,
    events: Seq<EventView>,
    cfg: ServerConfigView,
)
    ensures
        count_writes(s, events, cfg) <= write_budget(s),
        count_writes(ServerStateView::Idle, events, cfg) <= 1,
    decreases events.len(),
{
    if events.len() > 0 {
        let first = step_spec(s, events[0], cfg);
        lemma_single_write_per_cycle(first.0, events.drop_first(), cfg);
        let first_idle = step_spec(ServerStateView::Idle, events[0], cfg);
        lemma_single_write_per_cycle(first_idle.0, events.drop_first(), cfg);
    }
}

/// No pipelining and no reassembly: over any event sequence a cycle asks for
/// at most one bounded read.
pub proof fn lemma_single_read_per_cycle(
    s: ServerStateView,
    events: Seq<EventView>,
    cfg: ServerConfigView,
)
    ensures
        count_reads(s, events, cfg) <= read_budget(s),
        count_reads(ServerStateView::Idle, events, cfg) <= 1,
    decreases events.len(),
{
    if events.len() > 0 {
        let first = step_spec(s, events[0], cfg);
        lemma_single_read_per_cycle(first.0, events.drop_first(), cfg);
        let first_idle = step_spec(ServerStateView::Idle, events[0], cfg);
        lemma_single_read_per_cycle(first_idle.0, events.drop_first(), cfg);
    }
}

} // verus!

verus! {

/// Whether a trace ever reaches a state that holds the endpoint.
pub open spec fn trace_acquires(s: ServerStateView, events: Seq<EventView>, cfg: ServerConfigView)
    -> bool
    decreases events.len(),
{
    holds_endpoint(s) || (events.len() > 0 && trace_acquires(
        step_spec(s, events[0], cfg).0,
        events.drop_first(),
        cfg,
    ))
}

/// A closed cycle never comes back for the endpoint.
proof fn lemma_closed_never_acquires(end: SessionEnd, events: Seq<EventView>, cfg: ServerConfigView)
    ensures
        !trace_acquires(ServerStateView::Closed { end }, events, cfg),
    decreases events.len(),
{
    if events.len() > 0 {
        lemma_step_endpoint(ServerStateView::Closed { end }, events[0], cfg);
        lemma_closed_never_acquires(end, events.drop_first(), cfg);
    }
}

/// From a cycle that has not acquired the endpoint yet: the teardown count
/// is exactly one when the trace acquires the endpoint and ends without it,
/// and exactly zero otherwise — including the path where creation fails and
/// there is never a handle to close.
proof fn lemma_fresh_cycle_teardown(
    s: ServerStateView,
    events: Seq<EventView>,
    cfg: ServerConfigView,
)
    requires
        s is Idle || s is Listening,
    ensures
        run_trace(s, events, cfg).1 == if trace_acquires(s, events, cfg) && !holds_endpoint(
            run_trace(s, events, cfg).0,
        ) {
            1nat
        } else {
            0nat
        },
    decreases events.len(),
{
    if events.len() > 0 {
        let next = step_spec(s, events[0], cfg);
        lemma_step_endpoint(s, events[0], cfg);
        if holds_endpoint(next.0) {
            lemma_session_closes_once(next.0, events.drop_first(), cfg);
            assert(trace_acquires(next.0, events.drop_first(), cfg));
            assert(trace_acquires(s, events, cfg));
        } else if next.0 is Closed {
            lemma_session_closes_once(next.0, events.drop_first(), cfg);
            match next.0 {
                ServerStateView::Closed { end } => {
                    lemma_closed_never_acquires(end, events.drop_first(), cfg);
                },
                _ => {},
            }
            assert(!trace_acquires(s, events, cfg));
        } else {
            lemma_fresh_cycle_teardown(next.0, events.drop_first(), cfg);
            assert(trace_acquires(s, events, cfg) == trace_acquires(
                next.0,
                events.drop_first(),
                cfg,
            ));
        }
    }
}

/// The teardown guarantee in full: over any event sequence, a cycle that
/// starts idle releases the endpoint exactly once when it ever acquired one
/// and no longer holds it at the end — whatever mix of parse results, sync
/// failures, timeouts and peer disconnects the trace holds — and never
/// releases one it did not acquire.
pub proof fn lemma_teardown_exactly_once(events: Seq<EventView>, cfg: ServerConfigView)
    ensures
        run_trace(ServerStateView::Idle, events, cfg).1 == if trace_acquires(
            ServerStateView::Idle,
            events,
            cfg,
        ) && !holds_endpoint(run_trace(ServerStateView::Idle, events, cfg).0) {
            1nat
        } else {
            0nat
        },
{
    lemma_fresh_cycle_teardown(ServerStateView::Idle, events, cfg);
}

} // verus!
