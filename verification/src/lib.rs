//! Coordination core of a voice-driven agent platform.
//!
//! Two parts carry it. The bus ([`bus`]) fans messages out to the subscribers
//! of a topic, each through a bounded mailbox of its own, so that publishing
//! never waits for a slow reader. The front door ([`server`]) takes in what a
//! transcript was turned into, keeps the tool calls that ask for confirmation
//! in a registry ([`pending`]) until they are approved or denied, and sees to
//! it that a call runs at most once and never without approval.
//!
//! The library reads no socket, awaits nothing and runs no tool: its callers
//! do, and hand over what came of it. Every function states what it returns
//! and changes, over the models in [`bus::model`], [`pending`] and
//! [`server`]; the laws that hold of those models in every state are proved
//! in [`bus::laws`], [`pending`] and [`server`]. What is taken on trust of
//! other crates is gathered in [`deps`].

pub mod assets;
pub mod bus;
pub mod cli;
pub mod deps;
pub mod model;
pub mod pending;
pub mod protocol;
pub mod server;
pub mod speech;
pub mod text;
