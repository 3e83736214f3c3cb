//! A desktop "now playing" status reporter.
//!
//! The library is the reconciliation core: it turns property-change and
//! ownership-change notifications for a small static set of watched media
//! services into the lines a status widget should display. The surrounding
//! binary owns the message bus and feeds already-decoded events in.

pub mod events;
pub mod formatter;
pub mod playback;
pub mod presence;
