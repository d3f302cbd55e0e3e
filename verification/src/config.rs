//! The service's configuration, as read from its settings file.

use vstd::prelude::*;

verus! {

/// Where the service listens, what it connects to and how it limits requests.
#[derive(Debug, Clone, PartialEq, Eq)]
pub struct TestaustimeConfig {
    /// A token whose bearer is exempt from rate limiting.
    pub bypass_token: String,
    /// Whether clients are told apart by the peer address rather than by a
    /// forwarded-for header.
    pub ratelimit_by_peer_ip: bool,
    pub max_requests_per_min: u32,
    pub max_registers_per_hour: u32,
    pub address: String,
    pub database_url: String,
    pub allowed_origin: String,
    pub mail_server: String,
    pub mail_user: String,
    pub mail_password: String,
}

} // verus!
