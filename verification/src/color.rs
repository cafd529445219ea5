//! The palette both views draw from, as plain packed-RGB values.

use vstd::prelude::*;

verus! {

/// Full-contrast text.
pub const WHITE: u32 = 0xffffff;

/// Success accent (the increment control).
pub const GREEN: u32 = 0x22c55e;

/// Warning accent (the decrement and delete controls).
pub const RED: u32 = 0xef4444;

/// Muted text (placeholders, the empty-state message).
pub const GRAY: u32 = 0x6b7280;

/// The input region's border.
pub const BLUE: u32 = 0x3b82f6;

} // verus!
