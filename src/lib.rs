//! Request-forwarding core of a reverse proxy.
//!
//! Each inbound request is handled by one [`Exchange`]: a small
//! state machine that decides, from the outcome of backend selection and of
//! the upstream call, what the surrounding runtime does next (dispatch the
//! outbound request, or answer with a bare status code). The runtime performs
//! the I/O; every decision is made, and verified, here.

pub mod exchange;
pub mod laws;
pub mod target;

pub use exchange::{
    Action, Backend, Decision, Event, EventView, Exchange, ExchangeView, Phase, Reply, Upstream,
    BAD_GATEWAY, DEFAULT_DEADLINE_SECS, SERVICE_UNAVAILABLE,
};
pub use target::backend_uri;
pub use target::outbound_target;
