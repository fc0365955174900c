//! The decisions of the Myco app runtime, verified.
//!
//! Everything here is a function of plain values: which UDP instance a radio
//! lane rides, how the settings file is read and written, when the mesh node is
//! built, started, drained and replaced, what one UI action changes and which
//! outside work it asks for. The outside work itself (disk, sockets, the mesh
//! node, the content layer) is done by the shell in `app/`, which performs the
//! commands handed out here and reports back what happened.

pub mod action;
pub mod lanes;
pub mod lifecycle;
pub mod node_plan;
pub mod node_task;
pub mod peer_feed;
pub mod runtime;
pub mod runtime_effects;
pub mod runtime_laws;
pub mod settings_store;
pub mod speedtest;
pub mod startup;
pub mod state;
pub mod text;
