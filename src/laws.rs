//! What holds of every exchange, stated over the model of [`crate::exchange`].
use vstd::prelude::*;

use crate::exchange::{
    in_phase, next, run, start, Decision, EventView, ExchangeView, Phase, Reply, Upstream,
    BAD_GATEWAY, SERVICE_UNAVAILABLE,
};
use crate::target::{default_path, target_text, uri_parses};

verus! {

/// How many of the decisions are outbound requests.
pub open spec fn dispatch_count(ds: Seq<Decision>) -> nat
    decreases ds.len(),
{
    if ds.len() == 0 {
        0
    } else {
        (if ds[0] is Dispatch { 1nat } else { 0nat }) + dispatch_count(ds.drop_first())
    }
}

proof fn lemma_count_prepend(d: Decision, ds: Seq<Decision>)
    ensures
        dispatch_count(seq![d] + ds) == (if d is Dispatch { 1nat } else { 0nat }) + dispatch_count(ds),
{
    assert((seq![d] + ds).drop_first() =~= ds);
}

/// Once the backend is chosen, an exchange makes no further outbound request,
/// whatever it is told.
proof fn lemma_quiet_after_selection(s: ExchangeView, events: Seq<EventView>)
    requires
        s.phase != Phase::Selecting,
    ensures
        dispatch_count(run(s, events).1) == 0,
    decreases events.len(),
{
    if events.len() > 0 {
        let (s1, d) = next(s, events[0]);
        lemma_quiet_after_selection(s1, events.drop_first());
        if let Some(d) = d {
            lemma_count_prepend(d, run(s1, events.drop_first()).1);
        }
    }
}

proof fn lemma_at_most_one_from_selecting(s: ExchangeView, events: Seq<EventView>)
    requires
        s.phase == Phase::Selecting,
    ensures
        dispatch_count(run(s, events).1) <= 1,
    decreases events.len(),
{
    if events.len() > 0 {
        let (s1, d) = next(s, events[0]);
        if s1.phase == Phase::Selecting {
            lemma_at_most_one_from_selecting(s1, events.drop_first());
        } else {
            lemma_quiet_after_selection(s1, events.drop_first());
        }
        if let Some(d) = d {
            lemma_count_prepend(d, run(s1, events.drop_first()).1);
        }
    }
}

/// At most one outbound request per inbound request: whatever the
/// runtime reports, and in whatever order, an exchange never retries.
pub proof fn lemma_single_dispatch(
    path_and_query: Option<Seq<char>>,
    deadline_secs: u64,
    events: Seq<EventView>,
)
    ensures
        dispatch_count(run(start(path_and_query, deadline_secs), events).1) <= 1,
{
    lemma_at_most_one_from_selecting(start(path_and_query, deadline_secs), events);
}

/// A request for which a backend is chosen and answers in time is sent to
/// that backend with its path-and-query unchanged, and the upstream's own
/// response is what the caller gets.
pub proof fn lemma_success_passthrough(
    path_and_query: Option<Seq<char>>,
    deadline_secs: u64,
    server: Seq<char>,
)
    requires
        uri_parses(target_text(server, path_and_query)),
    ensures
        ({
            let s0 = start(path_and_query, deadline_secs);
            let (s1, d1) = next(s0, EventView::Chosen(Some(server)));
            let (s2, d2) = next(s1, EventView::Finished(Upstream::Responded));
            &&& d1 == Some(Decision::Dispatch {
                target: target_text(server, path_and_query),
                deadline_secs,
            })
            &&& d2 == Some(Decision::Respond(Reply::Passthrough))
            &&& s2.phase == Phase::Done
        }),
        path_and_query matches Some(p) ==> (p.len() > 0 ==> target_text(server, path_and_query)
            == server + p),
{
}

/// When the selector has no backend, the caller gets 503 with an empty body,
/// whatever the request, and no outbound request is ever made.
pub proof fn lemma_no_backend(
    path_and_query: Option<Seq<char>>,
    deadline_secs: u64,
    later: Seq<EventView>,
)
    ensures
        ({
            let (s1, d1) = next(start(path_and_query, deadline_secs), EventView::Chosen(None));
            &&& d1 == Some(Decision::Respond(Reply::Status(SERVICE_UNAVAILABLE)))
            &&& dispatch_count(run(s1, later).1) == 0
        }),
{
    let (s1, d1) = next(start(path_and_query, deadline_secs), EventView::Chosen(None));
    lemma_quiet_after_selection(s1, later);
}

/// A transport-level failure of the outbound call is answered with 502 and an
/// empty body.
pub proof fn lemma_transport_failure(s: ExchangeView)
    requires
        s.phase == Phase::Forwarding,
    ensures
        next(s, EventView::Finished(Upstream::Failed)) == (
            in_phase(s, Phase::Done),
            Some(Decision::Respond(Reply::Status(BAD_GATEWAY))),
        ),
{
}

/// The outbound call is bounded by the exchange's own deadline, and one that
/// runs past it is answered with 502 and an empty body.
pub proof fn lemma_timeout(
    path_and_query: Option<Seq<char>>,
    deadline_secs: u64,
    server: Seq<char>,
)
    ensures
        ({
            let (s1, d1) = next(start(path_and_query, deadline_secs), EventView::Chosen(Some(server)));
            &&& d1 matches Some(Decision::Dispatch { deadline_secs: d, .. }) ==> d == deadline_secs
            &&& s1.phase == Phase::Forwarding ==> next(s1, EventView::Finished(Upstream::TimedOut))
                == (in_phase(s1, Phase::Done), Some(Decision::Respond(Reply::Status(BAD_GATEWAY))))
        }),
{
}

/// A request without a path-and-query (none, or empty) goes to the backend's
/// root, `/`.
pub proof fn lemma_default_path(server: Seq<char>, path_and_query: Option<Seq<char>>)
    requires
        path_and_query matches Some(p) ==> p.len() == 0,
    ensures
        target_text(server, path_and_query) == server + seq!['/'],
        target_text(server, path_and_query) == server + default_path(),
{
}

/// Requests handled with a selector that always picks the same backend each
/// get their own outbound request, built from their own path-and-query alone.
pub proof fn lemma_repeated_selection(
    requests: Seq<Option<Seq<char>>>,
    deadline_secs: u64,
    server: Seq<char>,
)
    requires
        forall|i: int| 0 <= i < requests.len() ==> uri_parses(target_text(server, #[trigger] requests[i])),
    ensures
        forall|i: int| 0 <= i < requests.len() ==> #[trigger] next(start(requests[i], deadline_secs), EventView::Chosen(Some(server)))
            == (
            ExchangeView {
                phase: Phase::Forwarding,
                path_and_query: requests[i],
                deadline_secs,
            },
            Some(Decision::Dispatch { target: target_text(server, requests[i]), deadline_secs }),
        ),
{
}

} // verus!
