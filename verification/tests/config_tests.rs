use gsb_connect::config::{
    autostart_update, config_dto, decrypt_field, encryption_marker, language_update, load_config,
    protected_config_text, read_autostart, read_language, render_config, resolve_config,
    save_config_text, should_migrate_legacy, trimmed_credentials, usable_or_empty, Credentials,
    PASSWORD_PLACEHOLDER, TC_PLACEHOLDER,
};
use gsb_connect::ini::ini_get;
use gsb_connect::secret_store::protect;

const SAMPLE: &str = "# comment\n[Credentials]\nENCRYPTED = 0\nTC_KIMLIK = 12345678901\nSIFRE = pass word \n\n[Settings]\nLANGUAGE = en\nAUTOSTART = 1\n";

#[test]
fn ini_reads_values() {
    assert_eq!(ini_get(SAMPLE, "Credentials", "TC_KIMLIK").as_deref(), Some("12345678901"));
    assert_eq!(ini_get(SAMPLE, "credentials", "sifre").as_deref(), Some("pass word"));
    assert_eq!(ini_get(SAMPLE, "Settings", "LANGUAGE").as_deref(), Some("en"));
    assert_eq!(ini_get(SAMPLE, "Settings", "TC_KIMLIK"), None);
    assert_eq!(ini_get(SAMPLE, "Missing", "LANGUAGE"), None);
}

#[test]
fn ini_skips_comments_and_takes_first_match() {
    let text = "[A]\r\n; x = 1\n# x = 2\n  x  =  first = one  \r\nx = second\n[ b ]\ny=3";
    assert_eq!(ini_get(text, "A", "x").as_deref(), Some("first = one"));
    assert_eq!(ini_get(text, "A", "; x").as_deref(), None);
    assert_eq!(ini_get(text, "B", "Y").as_deref(), Some("3"));
    assert_eq!(ini_get(text, "A", "y"), None);
    assert_eq!(ini_get("x = 1", "", "x"), None);
    assert_eq!(ini_get("[]\nx = 1", "", "x").as_deref(), Some("1"));
}

#[test]
fn renders_the_layout() {
    let text = render_config("1", "QUJD", "REVG", "  en ", true);
    assert_eq!(
        text,
        "[Credentials]\nENCRYPTED = 1\nTC_KIMLIK = QUJD\nSIFRE = REVG\n\n[Settings]\nLANGUAGE = en\nAUTOSTART = 1\n"
    );
    assert_eq!(encryption_marker(false), "0");
    assert_eq!(encryption_marker(true), "1");
}

#[test]
fn loads_plaintext_config() {
    let loaded = load_config(SAMPLE);
    assert_eq!(loaded.config.creds.tc, "12345678901");
    assert_eq!(loaded.config.creds.password, "pass word");
    assert_eq!(loaded.config.language_code, "en");
    assert!(loaded.save.is_none());
    assert!(read_autostart(SAMPLE));
}

#[test]
fn first_run_records_the_default_language() {
    let text = "[Credentials]\nTC_KIMLIK = PUT_YOUR_TC_HERE\nSIFRE = PUT_YOUR_PASSWORD_HERE\n";
    let loaded = load_config(text);
    assert_eq!(loaded.config.creds.tc, "");
    assert_eq!(loaded.config.creds.password, "");
    assert_eq!(loaded.config.language_code, "tr");
    let save = loaded.save.expect("language missing");
    assert_eq!(save.language_code, "tr");
    assert!(!save.autostart);
    assert_eq!(read_language("[Settings]\nLANGUAGE =   \n"), None);
}

#[test]
fn encrypted_config_is_decrypted() {
    let tc = protect("98765432109").unwrap();
    let pw = protect("gizli şifre").unwrap();
    let text = render_config("1", &tc, &pw, "tr", false);
    let loaded = load_config(&text);
    assert_eq!(loaded.config.creds.tc, "98765432109");
    assert_eq!(loaded.config.creds.password, "gizli şifre");
    assert_eq!(loaded.config.language_code, "tr");
    assert!(loaded.save.is_none());
    let broken = render_config("1", "***", "", "tr", false);
    let loaded = load_config(&broken);
    assert_eq!(loaded.config.creds.tc, "");
    assert_eq!(decrypt_field(""), "");
    assert_eq!(decrypt_field("***"), "");
}

#[test]
fn plaintext_credentials_are_migrated_where_encryption_is_active() {
    let text = "[Credentials]\nTC_KIMLIK = 111\nSIFRE = \n[Settings]\nLANGUAGE = en\n";
    let active = resolve_config(text, String::new(), String::new(), true);
    assert!(active.save.is_some());
    let inactive = resolve_config(text, String::new(), String::new(), false);
    assert!(inactive.save.is_none());
    assert_eq!(inactive.config.creds.tc, "111");
}

#[test]
fn saved_text_on_this_build() {
    let creds = Credentials { tc: " 123 ".to_string(), password: "pw".to_string() };
    let text = save_config_text(&creds, "en", true).unwrap();
    assert_eq!(
        text,
        "[Credentials]\nENCRYPTED = 1\nTC_KIMLIK = MTIz\nSIFRE = cHc=\n\n[Settings]\nLANGUAGE = en\nAUTOSTART = 1\n"
    );
    let loaded = load_config(&text);
    assert_eq!(loaded.config.creds.tc, "123");
    assert_eq!(loaded.config.creds.password, "pw");
    assert_eq!(loaded.config.language_code, "en");
    assert!(loaded.save.is_none());
    assert!(read_autostart(&text));
}

#[test]
fn saved_placeholders_and_blank_language_load_back() {
    let creds = Credentials { tc: "PUT_YOUR_TC_HERE".to_string(), password: " foo ".to_string() };
    let text = save_config_text(&creds, "  ", false).unwrap();
    let loaded = load_config(&text);
    assert_eq!(loaded.config.creds.tc, "");
    assert_eq!(loaded.config.creds.password, "foo");
    assert_eq!(loaded.config.language_code, "tr");
    let request = loaded.save.expect("a blank language asks for a rewrite");
    assert_eq!(request.language_code, "tr");
    assert!(!request.autostart);
}

#[test]
fn language_update_keeps_credentials() {
    let updated = language_update(SAMPLE, " tr ", true);
    assert_eq!(
        updated,
        "[Credentials]\nENCRYPTED = 0\nTC_KIMLIK = 12345678901\nSIFRE = pass word\n\n[Settings]\nLANGUAGE = tr\nAUTOSTART = 1\n"
    );
    let fresh = language_update("", "en", true);
    assert_eq!(ini_get(&fresh, "Credentials", "ENCRYPTED").as_deref(), Some("1"));
    assert_eq!(ini_get(&fresh, "Credentials", "TC_KIMLIK").as_deref(), Some(""));
}

#[test]
fn autostart_update_keeps_the_rest() {
    let updated = autostart_update(SAMPLE, false, false);
    assert_eq!(ini_get(&updated, "Settings", "AUTOSTART").as_deref(), Some("0"));
    assert_eq!(ini_get(&updated, "Settings", "LANGUAGE").as_deref(), Some("en"));
    assert_eq!(ini_get(&updated, "Credentials", "SIFRE").as_deref(), Some("pass word"));
    let fresh = autostart_update("", true, false);
    assert_eq!(ini_get(&fresh, "Settings", "LANGUAGE").as_deref(), Some("tr"));
    assert_eq!(ini_get(&fresh, "Credentials", "ENCRYPTED").as_deref(), Some("0"));
}

#[test]
fn placeholders_and_migration_checks() {
    assert_eq!(usable_or_empty(TC_PLACEHOLDER.to_string(), TC_PLACEHOLDER), "");
    assert_eq!(usable_or_empty(String::new(), PASSWORD_PLACEHOLDER), "");
    assert_eq!(usable_or_empty("abc".to_string(), PASSWORD_PLACEHOLDER), "abc");
    assert!(should_migrate_legacy(false, true));
    assert!(!should_migrate_legacy(true, true));
    assert!(!should_migrate_legacy(false, false));
}

#[test]
fn dto_carries_the_config() {
    let loaded = load_config(SAMPLE);
    let dto = config_dto(loaded.config, true);
    assert_eq!(dto.tc, "12345678901");
    assert_eq!(dto.language, "en");
    assert!(dto.autostart);
    let d = Credentials::default();
    assert!(d.tc.is_empty() && d.password.is_empty());
}

#[test]
fn protected_values_render_under_the_marker() {
    let text = protected_config_text("MTIz", "cHc=", " en ", false);
    assert_eq!(
        text,
        "[Credentials]\nENCRYPTED = 1\nTC_KIMLIK = MTIz\nSIFRE = cHc=\n\n[Settings]\nLANGUAGE = en\nAUTOSTART = 0\n"
    );
    let plain = trimmed_credentials(&Credentials { tc: " 1 ".to_string(), password: "p w\n".to_string() });
    assert_eq!(plain.tc, "1");
    assert_eq!(plain.password, "p w");
    let loaded = load_config(&text);
    assert_eq!(loaded.config.creds.tc, "123");
}
