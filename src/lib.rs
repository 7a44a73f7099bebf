//! Persistence-and-replay core for per-user package state of a device:
//! the snapshot model, building a snapshot from live rows, best-effort
//! enumeration of stored snapshots, the user list of a snapshot, and the
//! planning of a restore through an injected action resolver, and the file
//! names under which snapshots are stored.

pub mod model;
pub mod snapshot;
pub mod restore;
pub mod listing;
pub mod naming;
