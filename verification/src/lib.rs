//! Source Engine server queries (A2S_INFO, A2S_PLAYER) over UDP, as a
//! protocol core that does no I/O of its own.
//!
//! - [`codec`] builds the request bytes and tells a challenge from a final
//!   response.
//! - [`protocol`] is the query session as a state machine over plain values,
//!   with what holds of every run of it.
//! - [`session`] is that state machine as it runs: it takes the events that
//!   a driver reports and hands back the next action and the traces to
//!   report.
//! - [`trace`] renders traces as lines of text.
//! - [`dispatch`] lays out the sessions of a batch, server by server, and
//!   says what the batch comes to.
//! - [`endpoint`] and [`error`] hold the resolved addresses and the errors.

pub mod codec;
pub mod dispatch;
pub mod endpoint;
pub mod error;
pub mod protocol;
pub mod session;
pub mod trace;
