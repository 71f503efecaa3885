//! Control plane for a fleet of hosts that run containers: the request
//! gateway, the permission rules it enforces, the store of managed resources,
//! and the call protocol spoken with the agent on each host.
//!
//! Everything here is a function from plain values to plain values. Network,
//! disk and clock stay with the caller: it turns text into documents and
//! back, performs the calls that [`gateway::Step::Agent`] describes, and
//! hands the outcome to [`gateway::complete`].
//!
//! A request is one call of [`gateway::State::resolve`]. The call changes the
//! state as a whole or not at all, so requests that are made one after the
//! other, in whatever order they arrive, each see a state that is well
//! formed. [`laws`] holds what is proved of the gateway for every state,
//! request and caller.
//!
//! - [`permission`]: levels, principals, and the grants kept with a resource
//! - [`resource`]: resources and the collections that hold them
//! - [`server`], [`entities`]: the settings of each family of resources
//! - [`request`]: the operations and their parameters
//! - [`gateway`]: authorizing and performing a request
//! - [`periphery`]: the calls to the agents and what their outcome means
//! - [`auth`]: who is calling
//! - [`channel`]: live channels
//! - [`json`], [`wire`], [`codec`], [`reply`]: documents, and how requests,
//!   resources and answers are written as documents
//! - [`error`]: failures and how they are reported

pub mod text;
pub mod permission;
pub mod json;
pub mod error;
pub mod server;
pub mod entities;
pub mod resource;
pub mod wire;
pub mod request;
pub mod periphery;
pub mod codec;
pub mod auth;
pub mod channel;
pub mod gateway;
pub mod laws;
pub mod reply;
