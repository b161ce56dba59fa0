//! The central API server.

pub mod models;
pub mod db;
pub mod routes;
