use gsb_connect::i18n::{en, format_log, t, tr, Language};
use gsb_connect::login::LogMsg;

#[test]
fn code_round_trips() {
    for lang in Language::ALL {
        assert_eq!(Language::from_code(lang.code()), Some(lang));
    }
    assert_eq!(Language::from_code("EN"), Some(Language::English));
    assert_eq!(Language::from_code("xx"), None);
    assert_eq!(Language::from_code(""), None);
}

#[test]
fn default_is_turkish() {
    assert_eq!(Language::default(), Language::Turkish);
}

/// All translation keys used by the application.
const KEYS: &[&str] = &[
    "window_title",
    "sidebar_subtitle",
    "nav_home",
    "nav_settings",
    "nav_about",
    "home_headline_connected",
    "home_headline_disconnected",
    "home_subtitle_connected",
    "home_subtitle_disconnected",
    "button_connect",
    "button_connect_warp",
    "button_stop",
    "pill_login",
    "pill_warp",
    "state_connected",
    "state_disconnected",
    "working",
    "log_heading",
    "log_empty",
    "clear_logs_button",
    "log_label",
    "log_panel_hide",
    "log_panel_show",
    "settings_credentials_note",
    "label_tc",
    "label_password",
    "button_save",
    "label_language",
    "label_autostart",
    "settings_autostart_note",
    "about_version",
    "about_description",
    "button_warp_check",
    "log_active_tc",
    "log_starting_login",
    "log_starting_login_warp",
    "log_checking_warp",
    "log_credentials_empty",
    "log_credentials_empty_hint",
    "log_credentials_saved",
    "log_credentials_save_failed",
    "log_autostart_enabled",
    "log_autostart_disabled",
    "log_autostart_failed",
    "log_http_client_failed",
    "log_logged_in",
    "log_not_confirmed",
    "log_timeout",
    "log_network_error",
    "log_giving_up",
    "log_login_cancelled",
    "log_warp_connected",
    "log_warp_connect_failed",
    "log_warp_run_failed",
    "log_warp_not_found",
    "log_warp_followup",
    "alert_fill_credentials",
];

#[test]
fn every_english_key_has_turkish() {
    for key in KEYS {
        assert!(en(key).is_some(), "missing English value for {key}");
        assert!(tr(key).is_some(), "missing Turkish value for {key}");
    }
}

#[test]
fn from_code_trims_and_ignores_case() {
    assert_eq!(Language::from_code("  Tr \n"), Some(Language::Turkish));
    assert_eq!(Language::from_code("eN"), Some(Language::English));
    assert_eq!(Language::from_code("english"), None);
}

#[test]
fn native_names() {
    assert_eq!(Language::Turkish.native_name(), "Türkçe");
    assert_eq!(Language::English.native_name(), "English");
}

#[test]
fn translation_falls_back_to_key() {
    assert_eq!(t(Language::English, "nav_home"), "Home");
    assert_eq!(t(Language::Turkish, "nav_home"), "Ana Sayfa");
    assert_eq!(t(Language::Turkish, "no_such_key"), "no_such_key");
    assert_eq!(en("no_such_key"), None);
    assert_eq!(tr("no_such_key"), None);
    assert_eq!(tr("label_password"), Some("Şifre"));
}

#[test]
fn log_lines_are_filled_in() {
    assert_eq!(format_log(Language::English, LogMsg::LoggedInOnAttempt(3)), "Logged in on attempt 3.");
    assert_eq!(format_log(Language::Turkish, LogMsg::LoggedInOnAttempt(12)), "12. denemede giriş yapıldı.");
    assert_eq!(format_log(Language::English, LogMsg::GivingUp(15)), "Giving up after 15 attempts.");
    assert_eq!(
        format_log(Language::English, LogMsg::WarpConnectFailed("boom".to_string())),
        "WARP connect failed: boom"
    );
    assert_eq!(
        format_log(Language::English, LogMsg::WarpInstallHint("brew install x".to_string())),
        "  brew install x"
    );
    assert_eq!(format_log(Language::English, LogMsg::LoginCancelled), "Login cancelled.");
    assert_eq!(format_log(Language::Turkish, LogMsg::AttemptTimeout(0)), "0. deneme: zaman aşımı, yeniden deneniyor...");
}
