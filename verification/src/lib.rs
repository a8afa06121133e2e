//! Hardware quirk resolution and upgrade-event bridging for a system
//! installer.
//!
//! The crate has two halves. The quirk half identifies a machine model from
//! its firmware identity string and decides which GPU power-management
//! configuration files must be written: [`switchable_graphics`] plans the
//! install-time configuration under a target root, and [`blacklist`] plans
//! the narrower runtime hardening of a live system. Both return the planned
//! file writes as data; the thin unverified shell around the crate performs
//! the actual filesystem work.
//!
//! The bridge half ([`upgrade`]) transcodes the upgrade engine's
//! variant-carrying progress events into a fixed-layout envelope and delivers
//! the envelopes, in order, to a caller-supplied sink, collapsing the
//! engine's outcome to the status code exposed across the boundary.

pub mod artifact;
pub mod blacklist;
pub mod strutil;
pub mod switchable_graphics;
pub mod upgrade;
