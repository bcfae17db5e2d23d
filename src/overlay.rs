//! What the break overlay windows are told when they start.
use vstd::prelude::*;

use crate::config::AppConfig;

verus! {

/// The label of the overlay window on the primary display.
pub open spec fn primary_label() -> Seq<char> {
    "overlay_0"@
}

/// Settings handed to one overlay window.
#[derive(Clone, Copy, Debug, PartialEq, Eq, Structural)]
pub struct OverlayConfig {
    pub break_duration: u32,
    /// Only the primary overlay shows the countdown.
    pub is_primary: bool,
    pub is_strict_mode: bool,
}

/// The settings for the overlay window labelled `label`.
pub fn get_overlay_config(label: Option<String>, config: &AppConfig) -> (r: OverlayConfig)
    ensures
        r.break_duration == config.break_duration_seconds,
        r.is_strict_mode == config.strict_mode,
        r.is_primary == (label is Some && label->Some_0@ == primary_label()),
{
    let is_primary = match label {
        Some(l) => l == String::from_str("overlay_0"),
        None => false,
    };
    OverlayConfig {
        break_duration: config.break_duration_seconds,
        is_primary,
        is_strict_mode: config.strict_mode,
    }
}

} // verus!
