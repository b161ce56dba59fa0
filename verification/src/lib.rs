//! DockUp: the decision logic of a self-hosted Docker update manager,
//! made of an agent that runs beside each Docker host and a central API.
//!
//! The modules hold what the two programs compute: how image references are
//! read, how registry digests are fetched and cached, how update jobs are
//! chosen and recorded, how agent messages are turned into store writes and
//! UI events, and how a new host is onboarded. I/O stays with the caller.

pub mod text;
pub mod ids;
pub mod json;
pub mod table;
pub mod agent;
pub mod api;
