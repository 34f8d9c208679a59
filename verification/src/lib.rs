//! Connection lifecycle and rate negotiation for a Bluetooth Low Energy link
//! that exercises shorter connection intervals, with the counter exchange
//! that runs on top of it.
//!
//! The crate holds the decisions only. A caller owns the radio: it performs
//! each [`link::Action`] that a session hands out, after the pause that
//! comes with it, and reports what happened as a [`link::Event`].
//!
//! - [`session`]: the life of one role, from establishing a link to losing
//!   it, again and again.
//! - [`negotiation`]: the best-effort requests that follow a new link, with
//!   the bounded retry of the connection rate; [`params`] holds what each
//!   request asks for.
//! - [`central_exchange`], [`peripheral_exchange`]: the two halves of the
//!   counter ping-pong; [`telemetry`] times it.
//! - [`advert`], [`gatt`], [`address`]: what goes on air before a link is
//!   up, and the attribute service that the exchange runs on.
//! - [`naming`]: the names of the macro that gathers the radio's hardware
//!   resources.
//!
//! Every machine is a function from a state and an event to a
//! [`link::Transition`]. What holds of all their runs is proved next to
//! them.

pub mod address;
pub mod advert;
pub mod central_exchange;
pub mod gatt;
pub mod link;
pub mod naming;
pub mod negotiation;
pub mod params;
pub mod peripheral_exchange;
pub mod session;
pub mod telemetry;
