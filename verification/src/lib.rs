//! Decision core of a task daemon that runs work across a fleet of machines.
//!
//! Every module holds the rules of one part of the daemon: which durable
//! question is asked next, what its answer means, and what the caller is told.
//! The surrounding program performs the questions (storage, network, processes,
//! clocks) and hands the answers back.

pub mod actors;
pub mod api;
pub mod cancel_delivery;
pub mod cancellation;
pub mod cluster;
pub mod content;
pub mod domain;
pub mod error;
pub mod event_sender;
pub mod events;
pub mod fleet;
pub mod fleet_api;
pub mod fleet_tasks;
pub mod ids;
pub mod inspection;
pub mod json;
pub mod keyed_locks;
pub mod laws;
pub mod message;
pub mod message_receiver;
pub mod message_sender;
pub mod origin_submit;
pub mod path;
pub mod peer_read;
pub mod reconcile;
pub mod release_watcher_api;
pub mod resource;
pub mod serve;
pub mod submission;
pub mod table;
pub mod text;
pub mod time;
