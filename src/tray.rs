//! The tray icon's states.
use vstd::prelude::*;

verus! {

/// The look of the tray icon.
#[derive(Clone, Copy, Debug, PartialEq, Eq, Structural)]
pub enum TrayIconState {
    /// Working.
    Open,
    /// A break is about to start.
    Blink,
    /// On a break.
    Rest,
}

impl TrayIconState {
    /// The file name of the icon for this state.
    pub open spec fn icon_file_spec(self) -> Seq<char> {
        match self {
            TrayIconState::Open => "eye_open.svg"@,
            TrayIconState::Blink => "eye_blink.svg"@,
            TrayIconState::Rest => "eye_rest.svg"@,
        }
    }

    pub fn icon_file(&self) -> (r: &'static str)
        ensures
            r@ == self.icon_file_spec(),
    {
        match self {
            TrayIconState::Open => "eye_open.svg",
            TrayIconState::Blink => "eye_blink.svg",
            TrayIconState::Rest => "eye_rest.svg",
        }
    }
}

} // verus!
