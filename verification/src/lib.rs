//! Enumerates desktop application launchers, resolves each display icon to a
//! file path, and renders the result as a JSON array for a dock widget, with a
//! flat on-disk cache handled by the surrounding binary.

use vstd::prelude::*;

pub mod driver;
pub mod json;
pub mod normalize;
pub mod record;
pub mod source;

verus! {

/// Icon name tried whenever a record's own hint is absent or unresolvable.
pub const DEFAULT_ICON: &'static str = "wayland";

/// Target pixel size handed to the icon theme resolver.
pub const ICON_SIZE: u16 = 48;

} // verus!
