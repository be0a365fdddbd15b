[package]
name = "aya_btf_maps"
version = "0.1.0"
edition = "2021"
publish = false

[dependencies]
anyhow = "=1.0.104"
clap = { version = "=3.2.25", features = ["derive"] }
env_logger = "=0.10.2"
log = "=0.4.35"
tokio = { version = "=1.54.1", features = ["macros", "rt-multi-thread", "signal", "time"] }
aya = "=0.12.0"
aya-ebpf = "=0.1.1"
aya-log-ebpf = "0.1"
libbpf-sys = "=1.7.0"
ctrlc = "=3.5.2"
syn = { version = "=1.0.109", features = ["full"] }
quote = "=1.0.47"
proc-macro2 = "=1.0.107"
