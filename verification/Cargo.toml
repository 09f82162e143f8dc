[package]
name = "orjail"
version = "0.1.0"
edition = "2021"
publish = false

[dependencies]
capctl = "0.2"
cgroups-rs = "0.3"
env_logger = "0.10"
futures = "0.3"
libc = "0.2"
log = "0.4"
nftables = "0.4"
nix = { version = "0.27", features = ["feature", "fs", "hostname", "mount", "process", "sched", "signal", "socket", "user"] }
rand = "0.8"
rlimit = "0.10"
rtnetlink = "0.14"
rustix = { version = "0.38", features = ["fs", "mount"] }
scan_fmt = "0.2"
structopt = "0.3"
syscallz = "0.16"
thiserror = "1"
tokio = { version = "1", features = ["macros", "rt", "rt-multi-thread"] }
which = "4"
