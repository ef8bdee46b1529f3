//! Core of an in-memory filesystem: mount-time configuration, the mount
//! lifecycle state machine, and the directory operations that create and link
//! nodes inside a single volatile volume.
//!
//! Everything the volume holds lives in memory and is modelled here as plain
//! data: nodes are kept in an arena owned by the superblock, directory entries
//! name their child by arena index, and the host's memory is a bounded budget
//! of allocation units.  The surrounding system performs I/O and locking; this
//! crate only decides and records.

pub mod context;
pub mod dirops;
pub mod laws;
pub mod node;
pub mod options;
pub mod perm;
pub mod status;
pub mod superblock;
