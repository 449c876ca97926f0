//! Verified core of a native window-class layer: it correlates the opaque
//! window handles of the windowing subsystem with typed application
//! instances, caches the class identifier of each behaviour, and resolves
//! every incoming message to a class-wide handler, an instance handler or
//! default handling.
//!
//! Everything here is a decision on plain values. Performing the calls into
//! the windowing subsystem is left to the program that embeds this crate.

pub mod win_layer;
pub mod win_cls;
pub mod hwnd_table;
pub mod atom_table;
pub mod dispatch;
pub mod win_gdi;
pub mod laws;
