use gsb_connect::alert::AlertKind;
use gsb_connect::config::Credentials;
use gsb_connect::gui::{GuiState, HomeAction, Nav, WorkerMsg, CREDENTIALS_ALERT_MS};
use gsb_connect::i18n::Language;
use gsb_connect::login::LogMsg;

fn state(tc: &str, password: &str) -> GuiState {
    GuiState::new(
        Credentials { tc: tc.to_string(), password: password.to_string() },
        Language::English,
        false,
    )
}

#[test]
fn starts_on_home_with_an_empty_open_log() {
    let gui = state("123", "pw");
    assert_eq!(gui.nav, Nav::Home);
    assert_eq!(gui.log, "");
    assert!(gui.log_visible);
    assert!(!gui.is_busy && !gui.login_ok && !gui.warp_ok);
    assert!(gui.running.is_none() && gui.alert.is_none());
}

#[test]
fn complete_credentials_pass_trimmed() {
    let mut gui = state(" 123 ", "\tpw ");
    let creds = gui.validated_credentials(1000).expect("complete");
    assert_eq!(creds.tc, "123");
    assert_eq!(creds.password, "pw");
    assert_eq!(gui.nav, Nav::Home);
    assert_eq!(gui.log, "");
    assert!(gui.alert.is_none());
}

#[test]
fn missing_credentials_guide_to_settings() {
    let mut gui = state("123", "   ");
    assert!(gui.validated_credentials(1000).is_none());
    assert_eq!(gui.nav, Nav::Settings);
    assert_eq!(gui.log, "Please enter your TC ID and password in the Settings tab.\n");
    let alert = gui.alert.as_ref().expect("alert");
    assert_eq!(alert.message(), "Enter your TC ID and password to continue.");
    assert_eq!(alert.kind(), AlertKind::Warning);
    assert!(!alert.is_expired(1000 + CREDENTIALS_ALERT_MS - 1));
    assert!(alert.is_expired(1000 + CREDENTIALS_ALERT_MS));
    assert_eq!(gui.tc, "123");
    gui.expire_alert(1000 + 10);
    assert!(gui.alert.is_some());
    gui.expire_alert(1000 + CREDENTIALS_ALERT_MS);
    assert!(gui.alert.is_none());
}

#[test]
fn worker_messages_update_log_and_indicators() {
    let mut gui = state("123", "pw");
    gui.is_busy = true;
    gui.running = Some(HomeAction::ConnectWarp);
    gui.apply_worker_msg(WorkerMsg::Status(LogMsg::LoggedInOnAttempt(3)));
    assert_eq!(gui.log, "Logged in on attempt 3.\n");
    gui.apply_worker_msg(WorkerMsg::LoginResult(true));
    gui.apply_worker_msg(WorkerMsg::WarpResult(false));
    assert!(gui.login_ok && !gui.warp_ok && gui.is_busy);
    gui.apply_worker_msg(WorkerMsg::Done);
    assert!(!gui.is_busy);
    assert!(gui.running.is_none());
    assert!(gui.login_ok);
}

#[test]
fn autostart_toggle_outcomes() {
    let mut gui = state("123", "pw");
    gui.autostart_applied(true);
    assert!(gui.autostart);
    assert_eq!(gui.log, "Start with Windows: enabled.\n");
    gui.autostart_failed("access denied", false);
    assert!(!gui.autostart);
    assert_eq!(
        gui.log,
        "Start with Windows: enabled.\nCould not update start-with-Windows: access denied\n"
    );
}

#[test]
fn save_and_warp_check_lines() {
    let mut gui = state(" 123", "pw ");
    let creds = gui.credentials_to_save();
    assert_eq!((creds.tc.as_str(), creds.password.as_str()), ("123", "pw"));
    gui.credentials_saved("/home/u/.gsbwifi/config.ini");
    gui.credentials_save_failed("disk full");
    gui.begin_warp_check();
    assert_eq!(
        gui.log,
        "Credentials saved to /home/u/.gsbwifi/config.ini.\nFailed to save credentials: disk full\nChecking Cloudflare WARP...\n"
    );
    assert!(gui.is_busy);
}

#[test]
fn language_and_log_panel_controls() {
    let mut gui = state("123", "pw");
    assert!(!gui.select_language(Language::English));
    assert!(gui.select_language(Language::Turkish));
    assert_eq!(gui.language, Language::Turkish);
    gui.append_log("x");
    gui.begin_warp_check();
    assert_eq!(gui.log, "x\nCloudflare WARP denetleniyor...\n");
    gui.toggle_log_panel();
    assert!(!gui.log_visible);
    gui.toggle_log_panel();
    assert!(gui.log_visible);
    gui.clear_log();
    assert_eq!(gui.log, "");
}
