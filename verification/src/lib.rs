//! Library side of a command-line tool that manages a Nextcloud server over SSH:
//! it builds `occ` invocations, `rsync` argument lists and the decisions of a run,
//! while the program around it performs the network, process and file work.

pub mod text;
pub mod cli;
pub mod occ;
pub mod config;
pub mod ssh;
pub mod sync;
pub mod run;
