//! The engine of a reverse proxy in front of container image registries.
//!
//! A client addresses the proxy as if it were a registry. The engine finds
//! the upstream registry that a request is meant for, rewrites the path for
//! Docker Hub, prepares the header set, and then decides, reply by reply,
//! what is to happen next: whether a token is to be fetched, a redirect
//! followed, another address tried, or an answer handed to the client.
//!
//! The engine touches no network. [`proxy::ProxyService::forward_request`]
//! takes up a request and names the first [`session::Action`]; the caller
//! performs it and reports the [`session::Event`] that came of it to
//! [`proxy::ProxyService::advance`], which names the next action, until
//! the action is to respond or to fail. What the engine decides is laid down
//! as a function on plain values in [`step`]; what holds of every request is
//! proved in [`laws`].

pub mod blob;
pub mod challenge;
pub mod config;
pub mod error;
pub mod headers;
pub mod laws;
pub mod method;
pub mod path;
pub mod proxy;
pub mod relay;
pub mod session;
pub mod step;
pub mod text;
pub mod token;
