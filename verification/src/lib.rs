//! Core logic of a system-activity monitor.
//!
//! The monitor observes two kinds of operating-system events: the foreground
//! window changing, and an audio session changing state. This crate holds the
//! decision and data-conversion logic of that monitor, verified with Verus:
//! which events qualify, how an application identity (path, description,
//! icon) is assembled from the values the operating system hands back, how a
//! device-independent bitmap in BGRA byte order becomes an RGBA image and
//! then a PNG, and how the version-resource queries are formed and parsed.
//! The operating-system calls themselves stand outside this crate; they feed
//! it plain values and carry its answers to the registered callbacks.

pub mod audio;
pub mod icon;
pub mod identity;
pub mod version_info;
pub mod watcher;
