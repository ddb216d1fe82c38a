//! Route messages: the header of a route, and the attributes that follow it.

pub mod address;
pub mod cache_info;
pub mod header;
pub mod message;
pub mod metrics;
pub mod mfc_stats;
pub mod next_hops;
pub mod nlas;
