use vstd::prelude::*;
use crate::config::ServerConfigView;
use crate::protocol::CommandView;
use crate::dispatch::{PlanView, plan_spec};

verus! {

/// The remote store, as the contract with the backend describes it: a map
/// from canonical path to object content.
pub open spec fn store_after_push(
    store: Map<Seq<u8>, Seq<u8>>,
    path: Seq<u8>,
    content: Seq<u8>,
) -> Map<Seq<u8>, Seq<u8>> {
    store.insert(path, content)
}

/// What a pull at `path` returns: the object's bytes, or nothing when no
/// object sits there.
pub open spec fn store_lookup(store: Map<Seq<u8>, Seq<u8>>, path: Seq<u8>) -> Option<Seq<u8>> {
    if store.dom().contains(path) {
        Some(store[path])
    } else {
        None
    }
}

/// The remote object a plan writes to or reads from; empty for plans that
/// name none.
pub open spec fn plan_remote(p: PlanView) -> Seq<u8> {
    match p {
        PlanView::PushTurn { remote, .. } => remote,
        PlanView::PullTurn { remote, .. } => remote,
        PlanView::PushFile { remote, .. } => remote,
        _ => Seq::empty(),
    }
}

/// Whether a plan pushes in overwrite mode; true only ever, for the plans
/// that push at all.
pub open spec fn plan_overwrites(p: PlanView) -> bool {
    match p {
        PlanView::PushTurn { overwrite, .. } => overwrite,
        PlanView::PushFile { overwrite, .. } => overwrite,
        _ => true,
    }
}

/// For every turn identifier, uploading and then downloading that turn
/// round-trips the content byte for byte: the two plans name the same
/// canonical remote object, and a pull after a push at that object returns
/// exactly the pushed bytes.
pub proof fn lemma_turn_round_trip(
    store: Map<Seq<u8>, Seq<u8>>,
    cfg: ServerConfigView,
    turn: Seq<u8>,
    content: Seq<u8>,
)
    ensures
        plan_remote(plan_spec(CommandView::Upload { turn }, cfg)) == plan_remote(
            plan_spec(CommandView::Download { turn }, cfg),
        ),
        store_lookup(
            store_after_push(
                store,
                plan_remote(plan_spec(CommandView::Upload { turn }, cfg)),
                content,
            ),
            plan_remote(plan_spec(CommandView::Download { turn }, cfg)),
        ) == Some(content),
{
}

/// Re-uploading the same turn never collides with the object already there:
/// a push is unconditional for any store state, every push a command plans
/// is in overwrite mode, and the second push simply replaces the first.
pub proof fn lemma_reupload_overwrites(
    store: Map<Seq<u8>, Seq<u8>>,
    cfg: ServerConfigView,
    c: CommandView,
    path: Seq<u8>,
    first: Seq<u8>,
    second: Seq<u8>,
)
    ensures
        plan_overwrites(plan_spec(c, cfg)),
        store_lookup(
            store_after_push(store_after_push(store, path, first), path, second),
            path,
        ) == Some(second),
{
}

} // verus!

verus! {

/// The state of one resolve: the two download strategies folded into one
/// capability. A pull first tries the direct object fetch; when the backend
/// asks for indirection it requests a short-lived link and fetches that over
/// plain http; any other failure ends the resolve.
#[derive(Debug, PartialEq, Eq)]
pub enum FetchState {
    /// About to try the direct object fetch.
    TryDirect { path: Vec<u8> },
    /// The backend wants indirection; about to request a temporary link.
    AwaitLink { path: Vec<u8> },
    /// Holding the temporary link; about to fetch its body.
    AwaitBody { url: Vec<u8> },
    /// The object's bytes, exactly as one of the fetches delivered them.
    Got { content: Vec<u8> },
    /// The resolve failed; the diagnostic is the backend's own summary.
    FetchFailed { diag: Vec<u8> },
}

/// The mathematical shadow of `FetchState`.
pub enum FetchStateView {
    TryDirect { path: Seq<u8> },
    AwaitLink { path: Seq<u8> },
    AwaitBody { url: Seq<u8> },
    Got { content: Seq<u8> },
    FetchFailed { diag: Seq<u8> },
}

impl View for FetchState {
    type V = FetchStateView;

    open spec fn view(&self) -> FetchStateView {
        match self {
            FetchState::TryDirect { path } => FetchStateView::TryDirect { path: path@ },
            FetchState::AwaitLink { path } => FetchStateView::AwaitLink { path: path@ },
            FetchState::AwaitBody { url } => FetchStateView::AwaitBody { url: url@ },
            FetchState::Got { content } => FetchStateView::Got { content: content@ },
            FetchState::FetchFailed { diag } => FetchStateView::FetchFailed { diag: diag@ },
        }
    }
}

/// What one outside fetch call reported back.
#[derive(Debug, PartialEq, Eq)]
pub enum FetchEvent {
    /// The direct fetch delivered the object.
    DirectOk { content: Vec<u8> },
    /// The direct fetch was refused; `link_required` says whether the backend
    /// asks for the temporary-link indirection.
    DirectDenied { link_required: bool, diag: Vec<u8> },
    /// The link request delivered a url.
    LinkOk { url: Vec<u8> },
    /// The link request was refused.
    LinkDenied { diag: Vec<u8> },
    /// The plain http fetch delivered the body.
    BodyOk { content: Vec<u8> },
    /// The plain http fetch failed.
    BodyFailed { diag: Vec<u8> },
}

/// The mathematical shadow of `FetchEvent`.
pub enum FetchEventView {
    DirectOk { content: Seq<u8> },
    DirectDenied { link_required: bool, diag: Seq<u8> },
    LinkOk { url: Seq<u8> },
    LinkDenied { diag: Seq<u8> },
    BodyOk { content: Seq<u8> },
    BodyFailed { diag: Seq<u8> },
}

impl View for FetchEvent {
    type V = FetchEventView;

    open spec fn view(&self) -> FetchEventView {
        match self {
            FetchEvent::DirectOk { content } => FetchEventView::DirectOk { content: content@ },
            FetchEvent::DirectDenied { link_required, diag } => FetchEventView::DirectDenied {
                link_required: *link_required,
                diag: diag@,
            },
            FetchEvent::LinkOk { url } => FetchEventView::LinkOk { url: url@ },
            FetchEvent::LinkDenied { diag } => FetchEventView::LinkDenied { diag: diag@ },
            FetchEvent::BodyOk { content } => FetchEventView::BodyOk { content: content@ },
            FetchEvent::BodyFailed { diag } => FetchEventView::BodyFailed { diag: diag@ },
        }
    }
}

/// What the driver must do next for a resolve.
#[derive(Debug, PartialEq, Eq)]
pub enum FetchCall {
    /// Perform the direct object fetch at `path`.
    Direct { path: Vec<u8> },
    /// Request a temporary link for `path`.
    Link { path: Vec<u8> },
    /// Fetch `url` over plain http.
    Body { url: Vec<u8> },
    /// The resolve is settled; make no further call.
    Settled,
}

/// The mathematical shadow of `FetchCall`.
pub enum FetchCallView {
    Direct { path: Seq<u8> },
    Link { path: Seq<u8> },
    Body { url: Seq<u8> },
    Settled,
}

impl View for FetchCall {
    type V = FetchCallView;

    open spec fn view(&self) -> FetchCallView {
        match self {
            FetchCall::Direct { path } => FetchCallView::Direct { path: path@ },
            FetchCall::Link { path } => FetchCallView::Link { path: path@ },
            FetchCall::Body { url } => FetchCallView::Body { url: url@ },
            FetchCall::Settled => FetchCallView::Settled,
        }
    }
}

/// The next call each state asks for.
pub open spec fn fetch_call_spec(s: FetchStateView) -> FetchCallView {
    match s {
        FetchStateView::TryDirect { path } => FetchCallView::Direct { path },
        FetchStateView::AwaitLink { path } => FetchCallView::Link { path },
        FetchStateView::AwaitBody { url } => FetchCallView::Body { url },
        FetchStateView::Got { .. } => FetchCallView::Settled,
        FetchStateView::FetchFailed { .. } => FetchCallView::Settled,
    }
}

/// The fallback policy, one event at a time. Delivered bytes settle the
/// resolve as they came; a refusal of the direct fetch falls back to the
/// link indirection only when the backend asks for it; every other refusal
/// settles as a failure with the backend's diagnostic. An event that does
/// not belong to the state leaves it unchanged.
pub open spec fn fetch_step_spec(s: FetchStateView, e: FetchEventView) -> FetchStateView {
    match (s, e) {
        (FetchStateView::TryDirect { path }, FetchEventView::DirectOk { content }) =>
            FetchStateView::Got { content },
        (FetchStateView::TryDirect { path }, FetchEventView::DirectDenied { link_required, diag }) =>
            if link_required {
                FetchStateView::AwaitLink { path }
            } else {
                FetchStateView::FetchFailed { diag }
            },
        (FetchStateView::AwaitLink { path }, FetchEventView::LinkOk { url }) =>
            FetchStateView::AwaitBody { url },
        (FetchStateView::AwaitLink { path }, FetchEventView::LinkDenied { diag }) =>
            FetchStateView::FetchFailed { diag },
        (FetchStateView::AwaitBody { url }, FetchEventView::BodyOk { content }) =>
            FetchStateView::Got { content },
        (FetchStateView::AwaitBody { url }, FetchEventView::BodyFailed { diag }) =>
            FetchStateView::FetchFailed { diag },
        (s0, _) => s0,
    }
}

/// Begins a resolve at the given canonical path.
pub fn fetch_start(path: Vec<u8>) -> (s: FetchState)
    ensures
        s@ == (FetchStateView::TryDirect { path: path@ }),
{
    FetchState::TryDirect { path }
}

/// The next call the driver should make for this state.
pub fn fetch_call(s: &FetchState) -> (c: FetchCall)
    ensures
        c@ == fetch_call_spec(s@),
{
    match s {
        FetchState::TryDirect { path } => {
            let p = crate::bytes::copy_range(path.as_slice(), 0, path.len());
            proof {
                assert(p@ =~= path@);
            }
            FetchCall::Direct { path: p }
        },
        FetchState::AwaitLink { path } => {
            let p = crate::bytes::copy_range(path.as_slice(), 0, path.len());
            proof {
                assert(p@ =~= path@);
            }
            FetchCall::Link { path: p }
        },
        FetchState::AwaitBody { url } => {
            let u = crate::bytes::copy_range(url.as_slice(), 0, url.len());
            proof {
                assert(u@ =~= url@);
            }
            FetchCall::Body { url: u }
        },
        FetchState::Got { .. } => FetchCall::Settled,
        FetchState::FetchFailed { .. } => FetchCall::Settled,
    }
}

/// Advances a resolve by one reported event, per `fetch_step_spec`.
pub fn fetch_step(s: FetchState, e: FetchEvent) -> (r: FetchState)
    ensures
        r@ == fetch_step_spec(s@, e@),
{
    match (s, e) {
        (FetchState::TryDirect { path }, FetchEvent::DirectOk { content }) => FetchState::Got {
            content,
        },
        (FetchState::TryDirect { path }, FetchEvent::DirectDenied { link_required, diag }) => {
            if link_required {
                FetchState::AwaitLink { path }
            } else {
                FetchState::FetchFailed { diag }
            }
        },
        (FetchState::AwaitLink { path }, FetchEvent::LinkOk { url }) => FetchState::AwaitBody {
            url,
        },
        (FetchState::AwaitLink { path }, FetchEvent::LinkDenied { diag }) =>
            FetchState::FetchFailed { diag },
        (FetchState::AwaitBody { url }, FetchEvent::BodyOk { content }) => FetchState::Got {
            content,
        },
        (FetchState::AwaitBody { url }, FetchEvent::BodyFailed { diag }) =>
            FetchState::FetchFailed { diag },
        (s0, _) => s0,
    }
}

/// A resolve makes no fourth call: each event either settles the state or
/// moves it strictly along direct, link, body; the distance to settlement
/// never grows and a settled state never reopens.
pub open spec fn fetch_calls_left(s: FetchStateView) -> nat {
    match s {
        FetchStateView::TryDirect { .. } => 3,
        FetchStateView::AwaitLink { .. } => 2,
        FetchStateView::AwaitBody { .. } => 1,
        FetchStateView::Got { .. } => 0,
        FetchStateView::FetchFailed { .. } => 0,
    }
}

/// A fitting event strictly lowers the distance to settlement; no event ever
/// raises it, and a settled resolve stays settled.
pub proof fn lemma_fetch_terminates(s: FetchStateView, e: FetchEventView)
    ensures
        fetch_calls_left(fetch_step_spec(s, e)) <= fetch_calls_left(s),
        fetch_step_spec(s, e) != s ==> fetch_calls_left(fetch_step_spec(s, e)) < fetch_calls_left(
            s,
        ),
        fetch_calls_left(s) == 0 ==> fetch_step_spec(s, e) == s,
{
}

} // verus!

verus! {

/// Listing an empty remote folder is acknowledged with the distinct
/// no-saves text — an answer, never an error.
pub proof fn lemma_empty_listing_is_acked(cfg: ServerConfigView)
    ensures
        ({
            let p = plan_spec(CommandView::ListSaves, cfg);
            let s = crate::dispatch::settle_spec(
                p,
                crate::dispatch::SyncOutcomeView::Names { names: Seq::empty() },
                cfg,
            );
            &&& s.response == (crate::protocol::ResponseView::Ack {
                text: crate::text::no_saves_text(),
            })
            &&& s.response.is_ack()
        }),
{
}

} // verus!
