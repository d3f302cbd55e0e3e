//! Verified core of the Testaustime coding-time tracking service.

pub mod access;
pub mod accounts;
pub mod activity;
pub mod config;
pub mod error;
pub mod friends;
pub mod leaderboards;
pub mod models;
pub mod password;
pub mod password_reset;
pub mod ratelimiter;
pub mod requests;
pub mod secured_access;
pub mod stats;
pub mod text;
pub mod tokens;
pub mod validation;

