//! Interpretation of the command-line options: the logging level, the vsync
//! setting with the presentation mode it selects, and the screen mode.
//! Each option is read as an optional string; an absent option takes its
//! default, and an unrecognised value falls back to that same default.

use vstd::prelude::*;
use crate::text::str_equals;

verus! {

/// Logging verbosity, one variant for each level filter of the logger.
#[derive(Clone, Copy, Debug, PartialEq, Eq)]
pub enum LogLevel {
    Off,
    Error,
    Warn,
    Info,
    Debug,
    Trace,
}

/// Normalised vsync choice.
#[derive(Clone, Copy, Debug, PartialEq, Eq)]
pub enum VsyncSetting {
    On,
    Off,
    Mailbox,
}

/// How frames are presented to the surface.
#[derive(Clone, Copy, Debug, PartialEq, Eq)]
pub enum PresentMode {
    Immediate,
    Mailbox,
    Fifo,
}

/// How the window occupies the screen.
#[derive(Clone, Copy, Debug, PartialEq, Eq)]
pub enum ScreenMode {
    Full,
    Borderless,
    Windowed,
}

/// The characters of an optional option value.
pub open spec fn option_chars(value: Option<&str>) -> Option<Seq<char>> {
    match value {
        Some(s) => Some(s@),
        None => None,
    }
}

/// The logging level that the `debug` option selects.
pub open spec fn spec_log_level(debug: Option<Seq<char>>) -> LogLevel {
    match debug {
        None => LogLevel::Info,
        Some(v) => if v == "full"@ {
            LogLevel::Trace
        } else if v == "info"@ {
            LogLevel::Info
        } else if v == "warn"@ {
            LogLevel::Warn
        } else if v == "err"@ {
            LogLevel::Error
        } else if v == "off"@ {
            LogLevel::Off
        } else {
            LogLevel::Info
        },
    }
}

/// The vsync setting that the `vsync` option selects; absent means `"true"`.
pub open spec fn spec_vsync_setting(value: Option<Seq<char>>) -> VsyncSetting {
    match value {
        None => VsyncSetting::On,
        Some(v) => if v == "on"@ || v == "true"@ {
            VsyncSetting::On
        } else if v == "off"@ || v == "false"@ {
            VsyncSetting::Off
        } else if v == "mail"@ || v == "mailbox"@ {
            VsyncSetting::Mailbox
        } else {
            VsyncSetting::On
        },
    }
}

/// The presentation mode of each vsync setting.
pub open spec fn spec_present_mode(setting: VsyncSetting) -> PresentMode {
    match setting {
        VsyncSetting::On => PresentMode::Fifo,
        VsyncSetting::Off => PresentMode::Immediate,
        VsyncSetting::Mailbox => PresentMode::Mailbox,
    }
}

/// The screen mode that the `screenmode` option selects; absent means `"full"`.
pub open spec fn spec_screen_mode(value: Option<Seq<char>>) -> ScreenMode {
    match value {
        None => ScreenMode::Full,
        Some(v) => if v == "full"@ || v == "fullscreen"@ {
            ScreenMode::Full
        } else if v == "border"@ || v == "borderless"@ || v == "fullscreenwindow"@ {
            ScreenMode::Borderless
        } else if v == "win"@ || v == "windowed"@ || v == "window"@ {
            ScreenMode::Windowed
        } else {
            ScreenMode::Full
        },
    }
}

/// Reads the `debug` option: `full`, `info`, `warn`, `err` or `off`;
/// anything else, and the option's absence, give `Info`.
pub fn log_level_for(debug: Option<&str>) -> (level: LogLevel)
    ensures
        level == spec_log_level(option_chars(debug)),
{
    match debug {
        None => LogLevel::Info,
        Some(v) => {
            if str_equals(v, "full") {
                LogLevel::Trace
            } else if str_equals(v, "info") {
                LogLevel::Info
            } else if str_equals(v, "warn") {
                LogLevel::Warn
            } else if str_equals(v, "err") {
                LogLevel::Error
            } else if str_equals(v, "off") {
                LogLevel::Off
            } else {
                LogLevel::Info
            }
        },
    }
}

/// Reads the `vsync` option: `on`/`true`, `off`/`false`, `mail`/`mailbox`;
/// anything else, and the option's absence, give `On`.
pub fn vsync_setting_for(value: Option<&str>) -> (setting: VsyncSetting)
    ensures
        setting == spec_vsync_setting(option_chars(value)),
{
    match value {
        None => VsyncSetting::On,
        Some(v) => {
            if str_equals(v, "on") || str_equals(v, "true") {
                VsyncSetting::On
            } else if str_equals(v, "off") || str_equals(v, "false") {
                VsyncSetting::Off
            } else if str_equals(v, "mail") || str_equals(v, "mailbox") {
                VsyncSetting::Mailbox
            } else {
                VsyncSetting::On
            }
        },
    }
}

/// The presentation mode for a vsync setting: on waits for the vertical
/// blank in order, off presents at once, mailbox replaces the queued frame.
pub fn present_mode_for(setting: VsyncSetting) -> (mode: PresentMode)
    ensures
        mode == spec_present_mode(setting),
{
    match setting {
        VsyncSetting::On => PresentMode::Fifo,
        VsyncSetting::Off => PresentMode::Immediate,
        VsyncSetting::Mailbox => PresentMode::Mailbox,
    }
}

/// Reads the `screenmode` option: `full`/`fullscreen`,
/// `border`/`borderless`/`fullscreenwindow`, `win`/`windowed`/`window`;
/// anything else, and the option's absence, give `Full`.
pub fn screen_mode_for(value: Option<&str>) -> (mode: ScreenMode)
    ensures
        mode == spec_screen_mode(option_chars(value)),
{
    match value {
        None => ScreenMode::Full,
        Some(v) => {
            if str_equals(v, "full") || str_equals(v, "fullscreen") {
                ScreenMode::Full
            } else if str_equals(v, "border") || str_equals(v, "borderless") || str_equals(
                v,
                "fullscreenwindow",
            ) {
                ScreenMode::Borderless
            } else if str_equals(v, "win") || str_equals(v, "windowed") || str_equals(v, "window") {
                ScreenMode::Windowed
            } else {
                ScreenMode::Full
            }
        },
    }
}

/// The names each option recognises.
pub open spec fn is_debug_name(v: Seq<char>) -> bool {
    v == "full"@ || v == "info"@ || v == "warn"@ || v == "err"@ || v == "off"@
}

pub open spec fn is_vsync_name(v: Seq<char>) -> bool {
    v == "on"@ || v == "true"@ || v == "off"@ || v == "false"@ || v == "mail"@ || v == "mailbox"@
}

pub open spec fn is_screen_mode_name(v: Seq<char>) -> bool {
    v == "full"@ || v == "fullscreen"@ || v == "border"@ || v == "borderless"@ || v
        == "fullscreenwindow"@ || v == "win"@ || v == "windowed"@ || v == "window"@
}

/// A value that an option does not recognise has the effect of leaving the
/// option out.
pub proof fn lemma_unrecognised_value_is_absent(v: Seq<char>)
    ensures
        !is_debug_name(v) ==> spec_log_level(Some(v)) == spec_log_level(None),
        !is_vsync_name(v) ==> spec_vsync_setting(Some(v)) == spec_vsync_setting(None),
        !is_screen_mode_name(v) ==> spec_screen_mode(Some(v)) == spec_screen_mode(None),
{
}

proof fn lemma_names_differ()
    ensures
        "full"@ != "info"@, "full"@ != "warn"@, "full"@ != "err"@, "full"@ != "off"@,
        "info"@ != "warn"@, "info"@ != "err"@, "info"@ != "off"@, "warn"@ != "err"@,
        "warn"@ != "off"@, "err"@ != "off"@,
        "on"@ != "off"@, "on"@ != "false"@, "on"@ != "mail"@, "on"@ != "mailbox"@,
        "true"@ != "off"@, "true"@ != "false"@, "true"@ != "mail"@, "true"@ != "mailbox"@,
        "off"@ != "mail"@, "off"@ != "mailbox"@, "false"@ != "mail"@, "false"@ != "mailbox"@,
        "full"@ != "border"@, "full"@ != "borderless"@, "full"@ != "fullscreenwindow"@,
        "full"@ != "win"@, "full"@ != "windowed"@, "full"@ != "window"@,
        "fullscreen"@ != "border"@, "fullscreen"@ != "borderless"@,
        "fullscreen"@ != "fullscreenwindow"@, "fullscreen"@ != "win"@,
        "fullscreen"@ != "windowed"@, "fullscreen"@ != "window"@,
        "border"@ != "win"@, "border"@ != "windowed"@, "border"@ != "window"@,
        "borderless"@ != "win"@, "borderless"@ != "windowed"@, "borderless"@ != "window"@,
        "fullscreenwindow"@ != "win"@, "fullscreenwindow"@ != "windowed"@,
        "fullscreenwindow"@ != "window"@,
{
    reveal_strlit("full");
    reveal_strlit("info");
    reveal_strlit("warn");
    reveal_strlit("err");
    reveal_strlit("off");
    reveal_strlit("on");
    reveal_strlit("true");
    reveal_strlit("false");
    reveal_strlit("mail");
    reveal_strlit("mailbox");
    reveal_strlit("fullscreen");
    reveal_strlit("border");
    reveal_strlit("borderless");
    reveal_strlit("fullscreenwindow");
    reveal_strlit("win");
    reveal_strlit("windowed");
    reveal_strlit("window");
    assert("full"@[0] != "info"@[0]);
    assert("full"@[0] != "warn"@[0]);
    assert("full"@[0] != "err"@[0]);
    assert("full"@[0] != "off"@[0]);
    assert("info"@[0] != "warn"@[0]);
    assert("info"@[0] != "err"@[0]);
    assert("info"@[0] != "off"@[0]);
    assert("warn"@[0] != "err"@[0]);
    assert("warn"@[0] != "off"@[0]);
    assert("err"@[0] != "off"@[0]);
    assert("on"@.len() != "off"@.len());
    assert("on"@[0] != "false"@[0]);
    assert("on"@[0] != "mail"@[0]);
    assert("on"@[0] != "mailbox"@[0]);
    assert("true"@[0] != "off"@[0]);
    assert("true"@[0] != "false"@[0]);
    assert("true"@[0] != "mail"@[0]);
    assert("true"@[0] != "mailbox"@[0]);
    assert("off"@[0] != "mail"@[0]);
    assert("off"@[0] != "mailbox"@[0]);
    assert("false"@[0] != "mail"@[0]);
    assert("false"@[0] != "mailbox"@[0]);
    assert("full"@[0] != "border"@[0]);
    assert("full"@[0] != "borderless"@[0]);
    assert("full"@.len() != "fullscreenwindow"@.len());
    assert("full"@[0] != "win"@[0]);
    assert("full"@[0] != "windowed"@[0]);
    assert("full"@[0] != "window"@[0]);
    assert("fullscreen"@[0] != "border"@[0]);
    assert("fullscreen"@[0] != "borderless"@[0]);
    assert("fullscreen"@.len() != "fullscreenwindow"@.len());
    assert("fullscreen"@[0] != "win"@[0]);
    assert("fullscreen"@[0] != "windowed"@[0]);
    assert("fullscreen"@[0] != "window"@[0]);
    assert("border"@[0] != "win"@[0]);
    assert("border"@[0] != "windowed"@[0]);
    assert("border"@[0] != "window"@[0]);
    assert("borderless"@[0] != "win"@[0]);
    assert("borderless"@[0] != "windowed"@[0]);
    assert("borderless"@[0] != "window"@[0]);
    assert("fullscreenwindow"@[0] != "win"@[0]);
    assert("fullscreenwindow"@[0] != "windowed"@[0]);
    assert("fullscreenwindow"@[0] != "window"@[0]);
}

/// Each logging level comes from exactly its own name of the `debug`
/// option: `full` traces, `warn` warns, `err` logs errors, `off` logs
/// nothing; every other value, and leaving the option out, gives `Info`,
/// and `Debug` is never chosen.
pub proof fn lemma_log_level_names(v: Seq<char>)
    ensures
        spec_log_level(Some(v)) == LogLevel::Trace <==> v == "full"@,
        spec_log_level(Some(v)) == LogLevel::Warn <==> v == "warn"@,
        spec_log_level(Some(v)) == LogLevel::Error <==> v == "err"@,
        spec_log_level(Some(v)) == LogLevel::Off <==> v == "off"@,
        spec_log_level(Some(v)) == LogLevel::Info <==> !(v == "full"@ || v == "warn"@ || v
            == "err"@ || v == "off"@),
        spec_log_level(Some(v)) != LogLevel::Debug,
        spec_log_level(None) == LogLevel::Info,
{
    lemma_names_differ();
}

/// Vsync is off exactly for `off` and `false`, mailbox exactly for `mail`
/// and `mailbox`, and on for every other value and when left out.
pub proof fn lemma_vsync_names(v: Seq<char>)
    ensures
        spec_vsync_setting(Some(v)) == VsyncSetting::Off <==> (v == "off"@ || v == "false"@),
        spec_vsync_setting(Some(v)) == VsyncSetting::Mailbox <==> (v == "mail"@ || v
            == "mailbox"@),
        spec_vsync_setting(Some(v)) == VsyncSetting::On <==> !(v == "off"@ || v == "false"@ || v
            == "mail"@ || v == "mailbox"@),
        spec_vsync_setting(None) == VsyncSetting::On,
{
    lemma_names_differ();
}

/// Each vsync setting selects its own presentation mode: on waits in order
/// (FIFO), off presents at once, mailbox replaces the queued frame.
pub proof fn lemma_present_modes(setting: VsyncSetting)
    ensures
        spec_present_mode(setting) == PresentMode::Fifo <==> setting == VsyncSetting::On,
        spec_present_mode(setting) == PresentMode::Immediate <==> setting == VsyncSetting::Off,
        spec_present_mode(setting) == PresentMode::Mailbox <==> setting == VsyncSetting::Mailbox,
{
}

/// The window is borderless exactly for `border`, `borderless` and
/// `fullscreenwindow`, windowed exactly for `win`, `windowed` and `window`,
/// and full screen for every other value and when left out.
pub proof fn lemma_screen_mode_names(v: Seq<char>)
    ensures
        spec_screen_mode(Some(v)) == ScreenMode::Borderless <==> (v == "border"@ || v
            == "borderless"@ || v == "fullscreenwindow"@),
        spec_screen_mode(Some(v)) == ScreenMode::Windowed <==> (v == "win"@ || v == "windowed"@
            || v == "window"@),
        spec_screen_mode(Some(v)) == ScreenMode::Full <==> !(v == "border"@ || v == "borderless"@
            || v == "fullscreenwindow"@ || v == "win"@ || v == "windowed"@ || v == "window"@),
        spec_screen_mode(None) == ScreenMode::Full,
{
    lemma_names_differ();
}

} // verus!
