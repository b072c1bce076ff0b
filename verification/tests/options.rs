use game_renderer::options::{
    log_level_for, present_mode_for, screen_mode_for, vsync_setting_for, LogLevel, PresentMode,
    ScreenMode, VsyncSetting,
};
use game_renderer::text::str_equals;

#[test]
fn debug_option_names_each_level() {
    assert_eq!(log_level_for(Some("full")), LogLevel::Trace);
    assert_eq!(log_level_for(Some("info")), LogLevel::Info);
    assert_eq!(log_level_for(Some("warn")), LogLevel::Warn);
    assert_eq!(log_level_for(Some("err")), LogLevel::Error);
    assert_eq!(log_level_for(Some("off")), LogLevel::Off);
}

#[test]
fn debug_option_defaults_to_info() {
    assert_eq!(log_level_for(None), LogLevel::Info);
    assert_eq!(log_level_for(Some("verbose")), LogLevel::Info);
    assert_eq!(log_level_for(Some("")), LogLevel::Info);
    assert_eq!(log_level_for(Some("FULL")), LogLevel::Info);
    assert_eq!(log_level_for(None), log_level_for(Some("info")));
}

#[test]
fn vsync_option_aliases() {
    assert_eq!(vsync_setting_for(Some("on")), VsyncSetting::On);
    assert_eq!(vsync_setting_for(Some("true")), VsyncSetting::On);
    assert_eq!(vsync_setting_for(Some("off")), VsyncSetting::Off);
    assert_eq!(vsync_setting_for(Some("false")), VsyncSetting::Off);
    assert_eq!(vsync_setting_for(Some("mail")), VsyncSetting::Mailbox);
    assert_eq!(vsync_setting_for(Some("mailbox")), VsyncSetting::Mailbox);
}

#[test]
fn vsync_option_defaults_to_on() {
    assert_eq!(vsync_setting_for(None), VsyncSetting::On);
    assert_eq!(vsync_setting_for(Some("maybe")), VsyncSetting::On);
    assert_eq!(vsync_setting_for(None), vsync_setting_for(Some("true")));
}

#[test]
fn vsync_selects_present_mode() {
    assert_eq!(present_mode_for(VsyncSetting::On), PresentMode::Fifo);
    assert_eq!(present_mode_for(VsyncSetting::Off), PresentMode::Immediate);
    assert_eq!(present_mode_for(VsyncSetting::Mailbox), PresentMode::Mailbox);
    assert_eq!(present_mode_for(vsync_setting_for(None)), PresentMode::Fifo);
}

#[test]
fn screenmode_option_aliases() {
    assert_eq!(screen_mode_for(Some("full")), ScreenMode::Full);
    assert_eq!(screen_mode_for(Some("fullscreen")), ScreenMode::Full);
    assert_eq!(screen_mode_for(Some("border")), ScreenMode::Borderless);
    assert_eq!(screen_mode_for(Some("borderless")), ScreenMode::Borderless);
    assert_eq!(screen_mode_for(Some("fullscreenwindow")), ScreenMode::Borderless);
    assert_eq!(screen_mode_for(Some("win")), ScreenMode::Windowed);
    assert_eq!(screen_mode_for(Some("windowed")), ScreenMode::Windowed);
    assert_eq!(screen_mode_for(Some("window")), ScreenMode::Windowed);
}

#[test]
fn screenmode_option_defaults_to_full() {
    assert_eq!(screen_mode_for(None), ScreenMode::Full);
    assert_eq!(screen_mode_for(Some("windows")), ScreenMode::Full);
    assert_eq!(screen_mode_for(None), screen_mode_for(Some("full")));
}

#[test]
fn string_equality() {
    assert!(str_equals("mailbox", "mailbox"));
    assert!(str_equals("", ""));
    assert!(!str_equals("mail", "mailbox"));
    assert!(!str_equals("full", "fuli"));
    assert!(str_equals("héllo", "héllo"));
    assert!(!str_equals("héllo", "hello"));
}
