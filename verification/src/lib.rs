//! Supervision core for a desktop shell that launches and tears down a small
//! set of long-running local worker processes (an engine, an optional
//! multi-engine daemon, a gateway server and a messaging bot) and reports
//! their live status.
//!
//! The library holds the decision logic: bounded output buffers, the
//! per-worker state machines behind `snapshot` and `stop`, startup
//! sequencing, executable resolution, argument construction and health
//! interpretation. Process spawning, file access and the event loop live in
//! the surrounding application, which feeds plain values in and out.

pub mod jsonval;
pub mod manager;
pub mod misc;
pub mod openwrk;
pub mod orchestrator;
pub mod resolve;
pub mod owpenbot;
pub mod scheduler;
pub mod skills;
pub mod spawn;
pub mod templates;
pub mod text;
pub mod types;
pub mod watch;
pub mod worker;
pub mod workspace;
