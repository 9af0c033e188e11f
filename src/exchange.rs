use vstd::prelude::*;

use crate::target::{backend_uri, outbound_target, target_text, text_opt, uri_parses};

verus! {

/// How long the outbound call may take, in seconds, unless the handler is
/// configured otherwise.
pub const DEFAULT_DEADLINE_SECS: u64 = 5;

/// Status answered when no backend is available.
pub const SERVICE_UNAVAILABLE: u16 = 503;

/// Status answered when the upstream call fails or runs past the deadline.
pub const BAD_GATEWAY: u16 = 502;

/// Where an exchange stands.
#[derive(Clone, Copy, Debug, PartialEq, Eq, Structural)]
pub enum Phase {
    /// Waiting for the selector to pick a backend.
    Selecting,
    /// The outbound request was dispatched; waiting for its outcome.
    Forwarding,
    /// A response was decided; nothing more happens.
    Done,
}

/// How the outbound call ended.
#[derive(Clone, Copy, Debug, PartialEq, Eq, Structural)]
pub enum Upstream {
    /// The upstream answered before the deadline.
    Responded,
    /// A transport-level error: connection refused, TLS failure, I/O error,
    /// protocol violation.
    Failed,
    /// The deadline elapsed first; the outbound attempt was abandoned.
    TimedOut,
}

/// The response that an exchange settles on.
#[derive(Clone, Copy, Debug, PartialEq, Eq, Structural)]
pub enum Reply {
    /// The upstream's status, headers and body, forwarded unmodified.
    Passthrough,
    /// A bare status code with an empty body.
    Status(u16),
}

/// An upstream server, as the selector describes it.
pub struct Backend {
    /// Base address: scheme, host and port (`http://10.0.0.5:8080`).
    pub server: String,
}

/// What the runtime reports back to an exchange.
pub enum Event {
    /// The selector answered: a backend, or `None` when none is available.
    Chosen(Option<Backend>),
    /// The outbound call ended.
    Finished(Upstream),
}

/// What the runtime is to do next.
///
/// The outbound request carries the inbound method, the target below and the
/// inbound body, streamed. Inbound headers are deliberately not forwarded:
/// the outbound client derives `Host` from the target.
pub enum Action {
    /// Send the outbound request to `uri` (whose text is `target`), and give
    /// up after `deadline_secs` seconds.
    Dispatch { target: String, uri: hyper::Uri, deadline_secs: u64 },
    /// Answer the inbound request.
    Respond(Reply),
}

/// The handling of one inbound request, from backend selection to response.
pub struct Exchange {
    phase: Phase,
    path_and_query: Option<String>,
    deadline_secs: u64,
}

/// The model of an [`Exchange`].
pub struct ExchangeView {
    pub phase: Phase,
    pub path_and_query: Option<Seq<char>>,
    pub deadline_secs: u64,
}

/// The model of an [`Event`]: a backend is its base address.
pub enum EventView {
    Chosen(Option<Seq<char>>),
    Finished(Upstream),
}

/// The model of an [`Action`].
pub enum Decision {
    Dispatch { target: Seq<char>, deadline_secs: u64 },
    Respond(Reply),
}

impl View for Exchange {
    type V = ExchangeView;

    closed spec fn view(&self) -> ExchangeView {
        ExchangeView {
            phase: self.phase,
            path_and_query: text_opt(self.path_and_query),
            deadline_secs: self.deadline_secs,
        }
    }
}

impl View for Event {
    type V = EventView;

    open spec fn view(&self) -> EventView {
        match self {
            Event::Chosen(Some(b)) => EventView::Chosen(Some(b.server@)),
            Event::Chosen(None) => EventView::Chosen(None),
            Event::Finished(u) => EventView::Finished(*u),
        }
    }
}

impl View for Action {
    type V = Decision;

    open spec fn view(&self) -> Decision {
        match self {
            Action::Dispatch { target, deadline_secs, .. } => Decision::Dispatch {
                target: target@,
                deadline_secs: *deadline_secs,
            },
            Action::Respond(reply) => Decision::Respond(*reply),
        }
    }
}

/// The model of an optional action.
pub open spec fn decision_opt(a: Option<Action>) -> Option<Decision> {
    match a {
        Some(a) => Some(a@),
        None => None,
    }
}

/// A fresh exchange for a request with the given path-and-query.
pub open spec fn start(path_and_query: Option<Seq<char>>, deadline_secs: u64) -> ExchangeView {
    ExchangeView { phase: Phase::Selecting, path_and_query, deadline_secs }
}

/// The response for each way the outbound call can end: the upstream's own
/// response, or 502 for an error and for a timeout alike.
pub open spec fn reply_for(outcome: Upstream) -> Reply {
    match outcome {
        Upstream::Responded => Reply::Passthrough,
        Upstream::Failed => Reply::Status(BAD_GATEWAY),
        Upstream::TimedOut => Reply::Status(BAD_GATEWAY),
    }
}

/// The same exchange in another phase.
pub open spec fn in_phase(s: ExchangeView, phase: Phase) -> ExchangeView {
    ExchangeView { phase, ..s }
}

/// One step of an exchange: the state after an event, and what to do.
///
/// An event that the current phase does not wait for changes nothing and asks
/// for nothing.
pub open spec fn next(s: ExchangeView, e: EventView) -> (ExchangeView, Option<Decision>) {
    match (s.phase, e) {
        (Phase::Selecting, EventView::Chosen(None)) => (
            in_phase(s, Phase::Done),
            Some(Decision::Respond(Reply::Status(SERVICE_UNAVAILABLE))),
        ),
        (Phase::Selecting, EventView::Chosen(Some(server))) => {
            let target = target_text(server, s.path_and_query);
            if uri_parses(target) {
                (
                    in_phase(s, Phase::Forwarding),
                    Some(Decision::Dispatch { target, deadline_secs: s.deadline_secs }),
                )
            } else {
                (in_phase(s, Phase::Done), Some(Decision::Respond(Reply::Status(BAD_GATEWAY))))
            }
        },
        (Phase::Forwarding, EventView::Finished(outcome)) => (
            in_phase(s, Phase::Done),
            Some(Decision::Respond(reply_for(outcome))),
        ),
        _ => (s, None),
    }
}

/// The decisions of an exchange that starts in `s` and takes in `events` in
/// order, with the state it ends in.
pub open spec fn run(s: ExchangeView, events: Seq<EventView>) -> (ExchangeView, Seq<Decision>)
    decreases events.len(),
{
    if events.len() == 0 {
        (s, Seq::empty())
    } else {
        let (s1, d) = next(s, events[0]);
        let (last, rest) = run(s1, events.drop_first());
        match d {
            Some(d) => (last, seq![d] + rest),
            None => (last, rest),
        }
    }
}

impl Exchange {
    /// Starts handling a request whose path-and-query is given, with a
    /// deadline for the outbound call.
    pub fn new(path_and_query: Option<String>, deadline_secs: u64) -> (r: Exchange)
        ensures
            r@ == start(text_opt(path_and_query), deadline_secs),
    {
        Exchange { phase: Phase::Selecting, path_and_query, deadline_secs }
    }

    /// Where the exchange stands.
    pub fn phase(&self) -> (r: Phase)
        ensures
            r == self@.phase,
    {
        self.phase
    }

    /// The deadline for the outbound call, in seconds.
    pub fn deadline_secs(&self) -> (r: u64)
        ensures
            r == self@.deadline_secs,
    {
        self.deadline_secs
    }

    /// Takes in what the runtime observed and says what it does next.
    pub fn step(&mut self, event: Event) -> (r: Option<Action>)
        ensures
            (final(self)@, decision_opt(r)) == next(old(self)@, event@),
    {
        match (self.phase, event) {
            (Phase::Selecting, Event::Chosen(None)) => {
                self.phase = Phase::Done;
                Some(Action::Respond(Reply::Status(SERVICE_UNAVAILABLE)))
            },
            (Phase::Selecting, Event::Chosen(Some(backend))) => {
                let path: Option<&str> = match &self.path_and_query {
                    Some(p) => Some(p.as_str()),
                    None => None,
                };
                let target = outbound_target(backend.server.as_str(), path);
                match backend_uri(backend.server.as_str(), path) {
                    Some(uri) => {
                        self.phase = Phase::Forwarding;
                        Some(Action::Dispatch { target, uri, deadline_secs: self.deadline_secs })
                    },
                    None => {
                        self.phase = Phase::Done;
                        Some(Action::Respond(Reply::Status(BAD_GATEWAY)))
                    },
                }
            },
            (Phase::Forwarding, Event::Finished(outcome)) => {
                self.phase = Phase::Done;
                let reply = match outcome {
                    Upstream::Responded => Reply::Passthrough,
                    Upstream::Failed => Reply::Status(BAD_GATEWAY),
                    Upstream::TimedOut => Reply::Status(BAD_GATEWAY),
                };
                Some(Action::Respond(reply))
            },
            _ => None,
        }
    }
}

} // verus!
