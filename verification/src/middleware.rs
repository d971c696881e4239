//! What stands between a front door and the core.

pub mod rate_limit;
