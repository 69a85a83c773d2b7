[package]
name = "zoom_status"
version = "0.1.0"
edition = "2021"
publish = false

[dependencies]
argparse = "*"
chrono = { version = "0.4", default-features = false, features = ["clock"] }
enclose = "*"
etherparse = "*"
pcap = "*"
single_value_channel = "*"
stoppable_thread = "*"
