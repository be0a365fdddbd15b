//! Build-and-run helpers and probe decisions for experimenting with BTF map
//! definitions in eBPF programs.

pub mod text;
pub mod xtask;
pub mod probe;
pub mod btf;
pub mod userspace;
