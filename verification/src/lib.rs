//! Verified core of an OAuth 2.0 device-authorization flow.
//!
//! The library holds the decision logic of the flow: turning provider
//! responses into device authorizations and poll outcomes, pacing the token
//! poller, routing requests on the local callback server, and sequencing the
//! whole flow. All network and clock work stays outside; the caller feeds
//! plain values in and carries the requested actions out.

pub mod device;
pub mod errors;
pub mod flow;
pub mod poll;
pub mod server;
pub mod text;
