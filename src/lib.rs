//! An in-process sandbox for Linux. A `Profile` lists what the process may do;
//! activation confines it with two mechanisms derived from that one profile:
//! a jail built from namespaces, a tmpfs root and bind mounts (`namespace`),
//! and a seccomp-bpf filter that kills the process on any other system call
//! (`seccomp`). `bpf` models the kernel's interpreter and `policy` proves what
//! the compiled filter lets through.

use vstd::prelude::*;

pub mod bpf;
pub mod namespace;
pub mod policy;
pub mod profile;
pub mod seccomp;

verus! {

} // verus!
