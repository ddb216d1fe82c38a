[package]
name = "netlink_packet_route"
version = "0.1.0"
edition = "2021"
publish = false

[dependencies]
anyhow = "1"
byteorder = "1"
libc = "0.2"
