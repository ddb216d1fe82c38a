//! Link messages: the header of a network interface, and the attributes
//! that follow it.

pub mod af_spec_inet;
pub mod header;
pub mod inet;
pub mod inet6;
pub mod link_infos;
pub mod message;
pub mod nlas;
pub mod state;
