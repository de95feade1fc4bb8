//! Decision core of the bux micro-VM sandbox.

pub mod boot;
pub mod ca;
pub mod ca_trust;
pub mod container;
pub mod crash;
pub mod error;
pub mod exec;
pub mod exec_laws;
pub mod exit_info;
pub mod ext2;
pub mod gvproxy;
pub mod jail;
pub mod json;
pub mod oci;
pub mod path;
pub mod pipeline;
pub mod pipeline_laws;
pub mod rootfs_key;
pub mod run;
pub mod run_laws;
pub mod runtime;
pub mod secrets;
pub mod security;
pub mod shim;
pub mod shim_convert;
pub mod shim_laws;
pub mod spawn;
pub mod starting;
pub mod starting_laws;
pub mod state;
pub mod text;
pub mod user;
pub mod user_laws;
pub mod view_laws;
pub mod vm;
pub mod volume;
pub mod watchdog;
