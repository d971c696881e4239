//! Forwarding a request: what is recorded, what is sent and whom it is sent
//! to.
//!
//! Everything is decided before the first call is made: the line for the
//! replay log, the request in the adapters' schema, and the run of the
//! failover over the candidates. The line is due once, before any call,
//! whether or not the request is served in the end.

use vstd::prelude::*;
use crate::canonical::{CanonicalAIRequest, RequestView};
use crate::config::RequestReplayConfig;
use crate::dispatch::{
    lemma_attempted_in_order, lemma_no_candidates, Dispatch, DispatchView, OutcomeView, StepView,
};
use crate::json_codec::compact_text;
use crate::proto::{proto_request, to_proto, CanonicalAiRequest};
use crate::registry::{sorted_by_id, AdapterInfoView, AdapterRegistryState};
use crate::router::{candidates, distinct_ids, lemma_routed_registered, routed};
use crate::text::opt_text;
use crate::wire::request_tree;

verus! {

/// The line that the replay log gets for a request: its wire form as compact
/// JSON text where recording is on, nothing where it is off.
pub open spec fn replay_record(enabled: bool, r: RequestView) -> Option<Seq<char>> {
    if enabled {
        Some(compact_text(request_tree(r)))
    } else {
        None
    }
}

/// The line that the replay log gets for a request, without the line break.
pub fn replay_line(replay: &RequestReplayConfig, req: &CanonicalAIRequest) -> (line: Option<String>)
    ensures
        opt_text(line) == replay_record(replay.enabled, req@),
{
    if replay.enabled {
        Some(req.to_json_text())
    } else {
        None
    }
}

/// A request that no adapter is routed for is not served: no adapter is
/// available from the start, no failure is handed on, and no adapter is
/// called, whatever is reported.
pub proof fn lemma_unrouted_is_unavailable(
    listing: Seq<AdapterInfoView>,
    metadata: Map<Seq<char>, Seq<char>>,
    outcomes: Seq<OutcomeView>,
)
    requires
        routed(listing, metadata).len() == 0,
    ensures
        DispatchView::start(routed(listing, metadata)).run(outcomes).step()
            == StepView::Unavailable(None),
        DispatchView::start(routed(listing, metadata)).attempted(outcomes).len() == 0,
{
    assert(routed(listing, metadata) =~= Seq::empty());
    lemma_no_candidates(outcomes);
}

/// Within one forwarding no adapter is called twice, whatever is reported:
/// the adapters that are called are routed candidates, in their order, and
/// no two of them have the same identity.
pub proof fn lemma_no_adapter_is_called_twice(
    listing: Seq<AdapterInfoView>,
    metadata: Map<Seq<char>, Seq<char>>,
    outcomes: Seq<OutcomeView>,
)
    requires
        sorted_by_id(listing),
    ensures
        distinct_ids(DispatchView::start(routed(listing, metadata)).attempted(outcomes)),
        DispatchView::start(routed(listing, metadata)).attempted(outcomes) == routed(
            listing,
            metadata,
        ).take(DispatchView::start(routed(listing, metadata)).attempted(outcomes).len() as int),
{
    let start = DispatchView::start(routed(listing, metadata));
    lemma_routed_registered(listing, metadata);
    lemma_attempted_in_order(start, outcomes);
}

/// What forwarding a request comes to.
pub struct Forwarding {
    /// The line to append to the replay log before any call, if any.
    pub replay_line: Option<String>,
    /// The request to send to each adapter that is tried.
    pub request: CanonicalAiRequest,
    /// The run of the failover over the candidates.
    pub dispatch: Dispatch,
}

impl AdapterRegistryState {
    /// Prepares the forwarding of a request: the replay line, the request in
    /// the adapters' schema, and the failover over the candidates that the
    /// routing policy names for it, none of them tried yet.
    pub fn forward(&self, req: CanonicalAIRequest) -> (plan: Forwarding)
        ensures
            opt_text(plan.replay_line) == replay_record(self.replay_enabled(), req@),
            plan.request@ == proto_request(req@),
            plan.dispatch@ == DispatchView::start(routed(self.listing(), req@.metadata)),
    {
        let replay_line = replay_line(self.replay(), &req);
        let dispatch = Dispatch::new(candidates(self, &req));
        let request = to_proto(req);
        Forwarding { replay_line, request, dispatch }
    }
}

} // verus!
