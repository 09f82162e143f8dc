//! Planning and decision core of a container runtime that forces every packet
//! of the contained command through an anonymizing proxy.
//!
//! The library never touches the host. It computes what has to be done (the
//! identity maps, the mount plan, the network plan, the firewall ruleset, the
//! privilege reduction) and decides what follows from each outcome; the
//! program around it performs the operations and reports back.

pub mod capabilities;
pub mod child;
pub mod cli;
pub mod config;
pub mod container;
pub mod errors;
pub mod host;
pub mod hostname;
pub mod ipc;
pub mod mountpoint;
pub mod namespaces;
pub mod net;
pub mod nftables;
pub mod orchestrator;
pub mod resources;
pub mod slirp;
pub mod syscalls;
pub mod text;
pub mod tor;
pub mod utils;
