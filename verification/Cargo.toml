[package]
name = "ipvs"
version = "0.1.0"
edition = "2021"
publish = false

[dependencies]
netlink-packet-core = "=0.7.0"
netlink-packet-generic = "=0.3.3"
netlink-packet-ipvs = "=0.0.1"
netlink-packet-utils = "=0.5.2"
netlink-sys = "=0.9.0"
