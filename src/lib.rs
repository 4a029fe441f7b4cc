//! Lifecycle management for programs attached to traffic-control hooks.
//!
//! A [`TcHook`] holds the address of one hook (interface, attach point,
//! parent, handle, priority) and the options of an attach.  Each kernel
//! operation is split in two verified halves: a request, checked against the
//! addressing rules before anything is sent, and a decision on the reply that
//! the kernel gave.  The caller performs the round trip in between.

mod errno;
pub mod hook;
pub mod builder;
pub mod ops;
pub mod model;
pub mod laws;

pub use hook::{
    Error, TcAttachPoint, TcFlags, TcHook, BPF_TC_F_REPLACE, CUSTOM, EGRESS, INGRESS, TC_H_CLSACT,
    TC_H_INGRESS, TC_H_MIN_EGRESS, TC_H_MIN_INGRESS,
};
pub use builder::TcHookBuilder;
pub use ops::FilterInfo;
