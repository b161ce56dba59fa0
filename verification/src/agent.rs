//! The agent that runs on each Docker host.

pub mod config;
pub mod docker;
pub mod registry;
pub mod selfupdate;
pub mod updater;
pub mod ws;
