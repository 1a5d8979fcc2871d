//! A sans-I/O control-plane client for a Clash proxy daemon.
//!
//! The crate builds the requests of the daemon's HTTP control API, judges the
//! replies, and orders the daemon's proxy map for display. Carrying a request
//! to the daemon is left to the caller, so every rule in here is a function of
//! plain values and is proved against its contract.
//!
//! A call runs in three steps. [`controller::ClashController`] builds the
//! [`request::Request`]; the caller sends it and wraps what came back in a
//! [`codec::Reply`]; the functions of [`codec`] turn the reply into the record
//! of the operation or into a [`error::ClashError`]. Listing the proxies takes
//! the mode of the daemon first, and ends in [`reconcile::reconcile`].

pub mod model;
pub mod snapshot;
pub mod reconcile;
pub mod encoding;
pub mod json;
pub mod error;
pub mod patch;
pub mod endpoint;
pub mod request;
pub mod codec;
pub mod controller;
