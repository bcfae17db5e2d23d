//! Application settings and the ranges they are normalised to.
use vstd::prelude::*;

verus! {

/// `v` brought into the closed range `lo..=hi`.
pub open spec fn clamp_spec(v: u32, lo: u32, hi: u32) -> u32 {
    if v < lo {
        lo
    } else if v > hi {
        hi
    } else {
        v
    }
}

fn clamp_u32(v: u32, lo: u32, hi: u32) -> (r: u32)
    requires
        lo <= hi,
    ensures
        r == clamp_spec(v, lo, hi),
{
    if v < lo {
        lo
    } else if v > hi {
        hi
    } else {
        v
    }
}

/// The overlay themes the interface knows.
pub open spec fn is_known_theme(s: Seq<char>) -> bool {
    s == "dark"@ || s == "light"@ || s == "nature"@
}

/// The break sounds the interface knows.
pub open spec fn is_known_sound(s: Seq<char>) -> bool {
    s == "off"@ || s == "chime"@ || s == "whitenoise"@
}

/// The pre-break warning after normalisation: zero (off) or within 30..=120.
pub open spec fn normalised_pre_warning(v: u32) -> u32 {
    if v == 0 {
        0
    } else {
        clamp_spec(v, 30, 120)
    }
}

/// User settings.
#[derive(Clone, Debug)]
pub struct AppConfig {
    /// Work interval in minutes (1 to 60 once validated).
    pub work_interval_minutes: u32,
    /// Break duration in seconds (5 to 60 once validated).
    pub break_duration_seconds: u32,
    /// Strict mode disables skip and pause.
    pub strict_mode: bool,
    /// Overlay theme: "dark", "light" or "nature".
    pub overlay_theme: String,
    /// Break sound: "off", "chime" or "whitenoise".
    pub sound: String,
    /// Launch at login.
    pub launch_at_login: bool,
    /// Lead time of the pre-break warning in seconds; 0 turns it off.
    pub pre_warning_seconds: u32,
    /// Pause automatically while a meeting is detected.
    pub meeting_detection: bool,
}

impl AppConfig {
    /// Every field lies in the range that `validated` normalises it to.
    pub open spec fn valid(&self) -> bool {
        &&& 1 <= self.work_interval_minutes <= 60
        &&& 5 <= self.break_duration_seconds <= 60
        &&& self.pre_warning_seconds == 0 || 30 <= self.pre_warning_seconds <= 120
        &&& is_known_theme(self.overlay_theme@)
        &&& is_known_sound(self.sound@)
    }

    /// The work interval in seconds.
    pub open spec fn interval_seconds(&self) -> int {
        self.work_interval_minutes * 60
    }

    /// A copy with the numbers clamped to their ranges and unknown theme or
    /// sound names replaced by the defaults.
    pub fn validated(self) -> (r: Self)
        ensures
            r.work_interval_minutes == clamp_spec(self.work_interval_minutes, 1, 60),
            r.break_duration_seconds == clamp_spec(self.break_duration_seconds, 5, 60),
            r.pre_warning_seconds == normalised_pre_warning(self.pre_warning_seconds),
            r.overlay_theme@ == (if is_known_theme(self.overlay_theme@) {
                self.overlay_theme@
            } else {
                "dark"@
            }),
            r.sound@ == (if is_known_sound(self.sound@) {
                self.sound@
            } else {
                "off"@
            }),
            r.strict_mode == self.strict_mode,
            r.launch_at_login == self.launch_at_login,
            r.meeting_detection == self.meeting_detection,
            r.valid(),
    {
        let mut c = self;
        c.work_interval_minutes = clamp_u32(c.work_interval_minutes, 1, 60);
        c.break_duration_seconds = clamp_u32(c.break_duration_seconds, 5, 60);
        if c.pre_warning_seconds != 0 {
            c.pre_warning_seconds = clamp_u32(c.pre_warning_seconds, 30, 120);
        }
        let dark = String::from_str("dark");
        let known_theme = c.overlay_theme == dark || c.overlay_theme == String::from_str("light")
            || c.overlay_theme == String::from_str("nature");
        if !known_theme {
            c.overlay_theme = dark;
        }
        let off = String::from_str("off");
        let known_sound = c.sound == off || c.sound == String::from_str("chime") || c.sound
            == String::from_str("whitenoise");
        if !known_sound {
            c.sound = off;
        }
        c
    }
}

impl Default for AppConfig {
    /// Twenty minutes of work, twenty-second breaks, a one-minute warning.
    fn default() -> (r: Self)
        ensures
            r.work_interval_minutes == 20,
            r.break_duration_seconds == 20,
            !r.strict_mode,
            r.overlay_theme@ == "dark"@,
            r.sound@ == "off"@,
            r.launch_at_login,
            r.pre_warning_seconds == 60,
            r.meeting_detection,
            r.valid(),
    {
        AppConfig {
            work_interval_minutes: 20,
            break_duration_seconds: 20,
            strict_mode: false,
            overlay_theme: String::from_str("dark"),
            sound: String::from_str("off"),
            launch_at_login: true,
            pre_warning_seconds: 60,
            meeting_detection: true,
        }
    }
}

} // verus!
