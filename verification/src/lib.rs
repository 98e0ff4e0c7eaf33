//! Aloo — network intelligence: the verified core library.
//!
//! Domain model, port-range arithmetic, target expansion, scheduling,
//! rate-limit computation, fingerprint and vulnerability mapping, and the
//! small text utilities they rely on.

pub mod ports;
pub mod port_iter;
pub mod text;
pub mod addr;
pub mod id;
pub mod clock;
pub mod types;
pub mod error;
pub mod target;
pub mod discovery;
pub mod config;
pub mod traits;
pub mod rate_limiter;
pub mod scheduler;
pub mod worker_pool;
pub mod engine;
pub mod tls;
pub mod vuln;
pub mod ai;
pub mod assets;
pub mod history;
pub mod probes;
pub mod plugin;
pub mod fingerprint;
pub mod dns;
pub mod net;
