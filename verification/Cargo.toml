[package]
name = "orchard"
version = "0.1.0"
edition = "2021"
publish = false

[dependencies]
bytes = "0.4"
getopts = "0.2"
mio = "0.6"
syslog = "3"
