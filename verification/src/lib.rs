//! Core logic for managing physical disks and their partitions.
//!
//! The library models disk and partition layouts as immutable snapshots,
//! validates destructive resize and delete requests against a snapshot,
//! plans multi-step space reallocation between partitions, and produces the
//! phased command and progress sequences that drive an external,
//! platform-native disk-management backend.  All decisions are made here;
//! the surrounding application merely fetches snapshots and executes the
//! commands this library hands it.

pub mod backend;
pub mod delete;
pub mod errors;
pub mod format;
pub mod info;
pub mod planner;
pub mod progress;
pub mod resize;
pub mod text;
pub mod types;
pub mod validation;
