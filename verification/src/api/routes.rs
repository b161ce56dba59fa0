//! The API's HTTP and WebSocket handlers, reduced to what they decide.

pub mod agent;
pub mod clients;
pub mod containers;
pub mod onboarding;
pub mod updates;
pub mod ws;
