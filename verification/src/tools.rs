//! The simple tools of the agent: each is a thin request/response adapter
//! whose validation, target resolution and message formatting are verified
//! here, while its actual I/O (HTTP, UDP, child processes, the environment)
//! belongs to the embedding application.

pub mod a2a_agent;
pub mod env_get;
pub mod lifx;
pub mod massive;
pub mod ntfy;
pub mod ralphy;
pub mod toot;
pub mod trade_summary;
pub mod uptime_kuma;
