//! Localization (Turkish and English).
//!
//! Display text is looked up by an English ASCII key. Every key has an
//! English and a Turkish text; a key that is not in the table stands for
//! itself. Dynamic messages hold brace tokens (`{n}`, `{e}`, ...) that
//! [`format_log`] fills in.

use vstd::prelude::*;
use crate::login::LogMsg;
use crate::text::{decimal, decimal_string, replace_all, replaced, folded, chars_of, eq_ignore_ascii_case, range_eq_ignore_case, same_text, trim, trim_bounds};

verus! {

/// Number of entries in the translation table.
pub const TABLE_LEN: usize = 57;

/// The translation table: the key, its English text and its Turkish text.
pub open spec fn table_entry(i: int) -> (Seq<char>, Seq<char>, Seq<char>) {
    if i == 0 {
        ("window_title"@, "GSB Connect"@, "GSB Connect"@)
    } else if i == 1 {
        ("sidebar_subtitle"@, "Login client"@, "Giriş istemcisi"@)
    } else if i == 2 {
        ("nav_home"@, "Home"@, "Ana Sayfa"@)
    } else if i == 3 {
        ("nav_settings"@, "Settings"@, "Ayarlar"@)
    } else if i == 4 {
        ("nav_about"@, "About"@, "Hakkında"@)
    } else if i == 5 {
        ("home_headline_connected"@, "Connected"@, "Bağlandı"@)
    } else if i == 6 {
        ("home_headline_disconnected"@, "Disconnected"@, "Bağlantı yok"@)
    } else if i == 7 {
        ("home_subtitle_connected"@, "You are logged in to the GSB WiFi portal."@, "GSB WiFi portalına giriş yapıldı."@)
    } else if i == 8 {
        ("home_subtitle_disconnected"@, "Not logged in yet. Use Connect to sign in."@, "Henüz giriş yapılmadı. Giriş için Bağlan'a basın."@)
    } else if i == 9 {
        ("button_connect"@, "Connect"@, "Bağlan"@)
    } else if i == 10 {
        ("button_connect_warp"@, "Connect + WARP"@, "Bağlan + WARP"@)
    } else if i == 11 {
        ("button_stop"@, "Stop"@, "Durdur"@)
    } else if i == 12 {
        ("pill_login"@, "Login"@, "Giriş"@)
    } else if i == 13 {
        ("pill_warp"@, "WARP"@, "WARP"@)
    } else if i == 14 {
        ("state_connected"@, "Connected"@, "Bağlı"@)
    } else if i == 15 {
        ("state_disconnected"@, "Disconnected"@, "Bağlı değil"@)
    } else if i == 16 {
        ("working"@, "Working..."@, "Çalışılıyor..."@)
    } else if i == 17 {
        ("log_heading"@, "Logs"@, "Günlük"@)
    } else if i == 18 {
        ("log_empty"@, "No activity yet."@, "Henüz işlem yok."@)
    } else if i == 19 {
        ("clear_logs_button"@, "Clear logs"@, "Günlüğü temizle"@)
    } else if i == 20 {
        ("log_label"@, "Log"@, "Günlük"@)
    } else if i == 21 {
        ("log_panel_hide"@, "Hide log panel"@, "Günlük panelini gizle"@)
    } else if i == 22 {
        ("log_panel_show"@, "Show log panel"@, "Günlük panelini göster"@)
    } else if i == 23 {
        ("settings_credentials_note"@, "Credentials are stored in a per-user config file (encrypted with Windows DPAPI on Windows)."@, "Kimlik bilgileri kullanıcıya özel bir yapılandırma dosyasında saklanır (Windows'ta Windows DPAPI ile şifrelenir)."@)
    } else if i == 24 {
        ("label_tc"@, "TC ID"@, "TC Kimlik"@)
    } else if i == 25 {
        ("label_password"@, "Password"@, "Şifre"@)
    } else if i == 26 {
        ("button_save"@, "Save credentials"@, "Kimlik bilgilerini kaydet"@)
    } else if i == 27 {
        ("label_language"@, "Language"@, "Dil"@)
    } else if i == 28 {
        ("label_autostart"@, "Start with Windows"@, "Windows ile başlat"@)
    } else if i == 29 {
        ("settings_autostart_note"@, "Launch GSB Connect automatically when you sign in to Windows (it starts minimized)."@, "Windows oturumu açtığınızda GSB Connect otomatik olarak (simge durumunda) başlasın."@)
    } else if i == 30 {
        ("about_version"@, "Version {v}"@, "Sürüm {v}"@)
    } else if i == 31 {
        ("about_description"@, "Automates logging in to the GSB WiFi captive portal with your own credentials, with an optional step to enable Cloudflare WARP."@, "GSB WiFi oturum açma portalına kendi kimlik bilgilerinizle giriş yapmayı otomatikleştirir; isteğe bağlı olarak Cloudflare WARP'ı etkinleştirebilir."@)
    } else if i == 32 {
        ("button_warp_check"@, "Check / install WARP"@, "WARP'ı denetle / kur"@)
    } else if i == 33 {
        ("log_active_tc"@, "Active user TC: {tc}"@, "Etkin kullanıcı TC: {tc}"@)
    } else if i == 34 {
        ("log_starting_login"@, "Starting login..."@, "Giriş başlatılıyor..."@)
    } else if i == 35 {
        ("log_starting_login_warp"@, "Starting login, then WARP..."@, "Önce giriş, ardından WARP başlatılıyor..."@)
    } else if i == 36 {
        ("log_checking_warp"@, "Checking Cloudflare WARP..."@, "Cloudflare WARP denetleniyor..."@)
    } else if i == 37 {
        ("log_credentials_empty"@, "Error: TC ID and password must not be empty."@, "Hata: TC Kimlik ve şifre boş olamaz."@)
    } else if i == 38 {
        ("log_credentials_empty_hint"@, "Please enter your TC ID and password in the Settings tab."@, "Lütfen Ayarlar sekmesinde TC Kimlik ve şifrenizi girin."@)
    } else if i == 39 {
        ("log_credentials_saved"@, "Credentials saved to {path}."@, "Kimlik bilgileri şuraya kaydedildi: {path}."@)
    } else if i == 40 {
        ("log_credentials_save_failed"@, "Failed to save credentials: {e}"@, "Kimlik bilgileri kaydedilemedi: {e}"@)
    } else if i == 41 {
        ("log_autostart_enabled"@, "Start with Windows: enabled."@, "Windows ile başlatma: etkin."@)
    } else if i == 42 {
        ("log_autostart_disabled"@, "Start with Windows: disabled."@, "Windows ile başlatma: devre dışı."@)
    } else if i == 43 {
        ("log_autostart_failed"@, "Could not update start-with-Windows: {e}"@, "Windows ile başlatma güncellenemedi: {e}"@)
    } else if i == 44 {
        ("log_http_client_failed"@, "Failed to build HTTP client: {e}"@, "HTTP istemcisi oluşturulamadı: {e}"@)
    } else if i == 45 {
        ("log_logged_in"@, "Logged in on attempt {n}."@, "{n}. denemede giriş yapıldı."@)
    } else if i == 46 {
        ("log_not_confirmed"@, "Attempt {n} failed: server responded but login not confirmed..."@, "{n}. deneme başarısız: sunucu yanıt verdi ama giriş doğrulanmadı..."@)
    } else if i == 47 {
        ("log_timeout"@, "Attempt {n}: timeout, retrying..."@, "{n}. deneme: zaman aşımı, yeniden deneniyor..."@)
    } else if i == 48 {
        ("log_network_error"@, "Attempt {n}: network error, retrying..."@, "{n}. deneme: ağ hatası, yeniden deneniyor..."@)
    } else if i == 49 {
        ("log_giving_up"@, "Giving up after {n} attempts."@, "{n} denemeden sonra vazgeçiliyor."@)
    } else if i == 50 {
        ("log_login_cancelled"@, "Login cancelled."@, "Giriş iptal edildi."@)
    } else if i == 51 {
        ("log_warp_connected"@, "Traffic is now tunneled through Cloudflare."@, "Trafik artık Cloudflare üzerinden tünelleniyor."@)
    } else if i == 52 {
        ("log_warp_connect_failed"@, "WARP connect failed: {e}"@, "WARP bağlantısı başarısız: {e}"@)
    } else if i == 53 {
        ("log_warp_run_failed"@, "Failed to run warp-cli connect: {e}"@, "warp-cli connect çalıştırılamadı: {e}"@)
    } else if i == 54 {
        ("log_warp_not_found"@, "Cloudflare WARP (warp-cli) not found. Install it with:"@, "Cloudflare WARP (warp-cli) bulunamadı. Şunu kullanarak kurun:"@)
    } else if i == 55 {
        ("log_warp_followup"@, "After installing, open the WARP app once, then try again."@, "Kurduktan sonra WARP uygulamasını bir kez açın, ardından tekrar deneyin."@)
    } else {
        ("alert_fill_credentials"@, "Enter your TC ID and password to continue."@, "Devam etmek için TC Kimlik ve şifrenizi girin."@)
    }
}

/// The entry `i` of the translation table.
fn entry_at(i: usize) -> (res: (&'static str, &'static str, &'static str))
    requires
        i < TABLE_LEN,
    ensures
        (res.0@, res.1@, res.2@) == table_entry(i as int),
{
    if i == 0 {
        ("window_title", "GSB Connect", "GSB Connect")
    } else if i == 1 {
        ("sidebar_subtitle", "Login client", "Giriş istemcisi")
    } else if i == 2 {
        ("nav_home", "Home", "Ana Sayfa")
    } else if i == 3 {
        ("nav_settings", "Settings", "Ayarlar")
    } else if i == 4 {
        ("nav_about", "About", "Hakkında")
    } else if i == 5 {
        ("home_headline_connected", "Connected", "Bağlandı")
    } else if i == 6 {
        ("home_headline_disconnected", "Disconnected", "Bağlantı yok")
    } else if i == 7 {
        ("home_subtitle_connected", "You are logged in to the GSB WiFi portal.", "GSB WiFi portalına giriş yapıldı.")
    } else if i == 8 {
        ("home_subtitle_disconnected", "Not logged in yet. Use Connect to sign in.", "Henüz giriş yapılmadı. Giriş için Bağlan'a basın.")
    } else if i == 9 {
        ("button_connect", "Connect", "Bağlan")
    } else if i == 10 {
        ("button_connect_warp", "Connect + WARP", "Bağlan + WARP")
    } else if i == 11 {
        ("button_stop", "Stop", "Durdur")
    } else if i == 12 {
        ("pill_login", "Login", "Giriş")
    } else if i == 13 {
        ("pill_warp", "WARP", "WARP")
    } else if i == 14 {
        ("state_connected", "Connected", "Bağlı")
    } else if i == 15 {
        ("state_disconnected", "Disconnected", "Bağlı değil")
    } else if i == 16 {
        ("working", "Working...", "Çalışılıyor...")
    } else if i == 17 {
        ("log_heading", "Logs", "Günlük")
    } else if i == 18 {
        ("log_empty", "No activity yet.", "Henüz işlem yok.")
    } else if i == 19 {
        ("clear_logs_button", "Clear logs", "Günlüğü temizle")
    } else if i == 20 {
        ("log_label", "Log", "Günlük")
    } else if i == 21 {
        ("log_panel_hide", "Hide log panel", "Günlük panelini gizle")
    } else if i == 22 {
        ("log_panel_show", "Show log panel", "Günlük panelini göster")
    } else if i == 23 {
        ("settings_credentials_note", "Credentials are stored in a per-user config file (encrypted with Windows DPAPI on Windows).", "Kimlik bilgileri kullanıcıya özel bir yapılandırma dosyasında saklanır (Windows'ta Windows DPAPI ile şifrelenir).")
    } else if i == 24 {
        ("label_tc", "TC ID", "TC Kimlik")
    } else if i == 25 {
        ("label_password", "Password", "Şifre")
    } else if i == 26 {
        ("button_save", "Save credentials", "Kimlik bilgilerini kaydet")
    } else if i == 27 {
        ("label_language", "Language", "Dil")
    } else if i == 28 {
        ("label_autostart", "Start with Windows", "Windows ile başlat")
    } else if i == 29 {
        ("settings_autostart_note", "Launch GSB Connect automatically when you sign in to Windows (it starts minimized).", "Windows oturumu açtığınızda GSB Connect otomatik olarak (simge durumunda) başlasın.")
    } else if i == 30 {
        ("about_version", "Version {v}", "Sürüm {v}")
    } else if i == 31 {
        ("about_description", "Automates logging in to the GSB WiFi captive portal with your own credentials, with an optional step to enable Cloudflare WARP.", "GSB WiFi oturum açma portalına kendi kimlik bilgilerinizle giriş yapmayı otomatikleştirir; isteğe bağlı olarak Cloudflare WARP'ı etkinleştirebilir.")
    } else if i == 32 {
        ("button_warp_check", "Check / install WARP", "WARP'ı denetle / kur")
    } else if i == 33 {
        ("log_active_tc", "Active user TC: {tc}", "Etkin kullanıcı TC: {tc}")
    } else if i == 34 {
        ("log_starting_login", "Starting login...", "Giriş başlatılıyor...")
    } else if i == 35 {
        ("log_starting_login_warp", "Starting login, then WARP...", "Önce giriş, ardından WARP başlatılıyor...")
    } else if i == 36 {
        ("log_checking_warp", "Checking Cloudflare WARP...", "Cloudflare WARP denetleniyor...")
    } else if i == 37 {
        ("log_credentials_empty", "Error: TC ID and password must not be empty.", "Hata: TC Kimlik ve şifre boş olamaz.")
    } else if i == 38 {
        ("log_credentials_empty_hint", "Please enter your TC ID and password in the Settings tab.", "Lütfen Ayarlar sekmesinde TC Kimlik ve şifrenizi girin.")
    } else if i == 39 {
        ("log_credentials_saved", "Credentials saved to {path}.", "Kimlik bilgileri şuraya kaydedildi: {path}.")
    } else if i == 40 {
        ("log_credentials_save_failed", "Failed to save credentials: {e}", "Kimlik bilgileri kaydedilemedi: {e}")
    } else if i == 41 {
        ("log_autostart_enabled", "Start with Windows: enabled.", "Windows ile başlatma: etkin.")
    } else if i == 42 {
        ("log_autostart_disabled", "Start with Windows: disabled.", "Windows ile başlatma: devre dışı.")
    } else if i == 43 {
        ("log_autostart_failed", "Could not update start-with-Windows: {e}", "Windows ile başlatma güncellenemedi: {e}")
    } else if i == 44 {
        ("log_http_client_failed", "Failed to build HTTP client: {e}", "HTTP istemcisi oluşturulamadı: {e}")
    } else if i == 45 {
        ("log_logged_in", "Logged in on attempt {n}.", "{n}. denemede giriş yapıldı.")
    } else if i == 46 {
        ("log_not_confirmed", "Attempt {n} failed: server responded but login not confirmed...", "{n}. deneme başarısız: sunucu yanıt verdi ama giriş doğrulanmadı...")
    } else if i == 47 {
        ("log_timeout", "Attempt {n}: timeout, retrying...", "{n}. deneme: zaman aşımı, yeniden deneniyor...")
    } else if i == 48 {
        ("log_network_error", "Attempt {n}: network error, retrying...", "{n}. deneme: ağ hatası, yeniden deneniyor...")
    } else if i == 49 {
        ("log_giving_up", "Giving up after {n} attempts.", "{n} denemeden sonra vazgeçiliyor.")
    } else if i == 50 {
        ("log_login_cancelled", "Login cancelled.", "Giriş iptal edildi.")
    } else if i == 51 {
        ("log_warp_connected", "Traffic is now tunneled through Cloudflare.", "Trafik artık Cloudflare üzerinden tünelleniyor.")
    } else if i == 52 {
        ("log_warp_connect_failed", "WARP connect failed: {e}", "WARP bağlantısı başarısız: {e}")
    } else if i == 53 {
        ("log_warp_run_failed", "Failed to run warp-cli connect: {e}", "warp-cli connect çalıştırılamadı: {e}")
    } else if i == 54 {
        ("log_warp_not_found", "Cloudflare WARP (warp-cli) not found. Install it with:", "Cloudflare WARP (warp-cli) bulunamadı. Şunu kullanarak kurun:")
    } else if i == 55 {
        ("log_warp_followup", "After installing, open the WARP app once, then try again.", "Kurduktan sonra WARP uygulamasını bir kez açın, ardından tekrar deneyin.")
    } else {
        ("alert_fill_credentials", "Enter your TC ID and password to continue.", "Devam etmek için TC Kimlik ve şifrenizi girin.")
    }
}

/// The first table position at or after `i` whose key is `key`.
pub open spec fn position_from(key: Seq<char>, i: int) -> Option<int>
    decreases TABLE_LEN - i,
{
    if i < 0 || i >= TABLE_LEN {
        None
    } else if table_entry(i).0 == key {
        Some(i)
    } else {
        position_from(key, i + 1)
    }
}

/// The table position of `key`, if it is a key of the table.
pub open spec fn key_position(key: Seq<char>) -> Option<int> {
    position_from(key, 0)
}

/// The English text of `key`.
pub open spec fn english(key: Seq<char>) -> Option<Seq<char>> {
    match key_position(key) {
        Some(i) => Some(table_entry(i).1),
        None => None,
    }
}

/// The Turkish text of `key`.
pub open spec fn turkish(key: Seq<char>) -> Option<Seq<char>> {
    match key_position(key) {
        Some(i) => Some(table_entry(i).2),
        None => None,
    }
}

/// The languages the app can display in.
#[derive(Clone, Copy, PartialEq, Eq, Debug, Structural)]
pub enum Language {
    Turkish,
    English,
}

impl Default for Language {
    /// Turkish is the product default.
    fn default() -> (res: Self)
        ensures
            res == Language::Turkish,
    {
        Language::Turkish
    }
}

/// The persisted code of a language.
pub open spec fn language_code(language: Language) -> Seq<char> {
    match language {
        Language::Turkish => "tr"@,
        Language::English => "en"@,
    }
}

/// The language a persisted code names: the trimmed code compared up to
/// ASCII case with `tr` and `en`.
pub open spec fn language_of_code(code: Seq<char>) -> Option<Language> {
    if eq_ignore_ascii_case(trim(code), "tr"@) {
        Some(Language::Turkish)
    } else if eq_ignore_ascii_case(trim(code), "en"@) {
        Some(Language::English)
    } else {
        None
    }
}

/// The text of `key` shown in `language`: its translation, else the English
/// text, else the key itself.
pub open spec fn translated(language: Language, key: Seq<char>) -> Seq<char> {
    let primary = match language {
        Language::Turkish => turkish(key),
        Language::English => english(key),
    };
    match primary {
        Some(v) => v,
        None => match english(key) {
            Some(v) => v,
            None => key,
        },
    }
}

impl Language {
    /// Every selectable language, in the order shown in the selector.
    pub const ALL: [Language; 2] = [Language::Turkish, Language::English];

    /// Stable, persisted code written to the config file (`tr` / `en`).
    pub fn code(self) -> (res: &'static str)
        ensures
            res@ == language_code(self),
    {
        match self {
            Language::Turkish => "tr",
            Language::English => "en",
        }
    }

    /// Parses a persisted code back into a `Language`, case-insensitively and
    /// ignoring surrounding whitespace; `None` for unknown or empty input.
    pub fn from_code(code: &str) -> (res: Option<Language>)
        ensures
            res == language_of_code(code@),
    {
        let v = chars_of(code);
        let (a, b) = trim_bounds(&v, 0, v.len());
        assert(v@.subrange(0, v@.len() as int) == v@);
        if range_eq_ignore_case(&v, a, b, &chars_of("tr")) {
            Some(Language::Turkish)
        } else if range_eq_ignore_case(&v, a, b, &chars_of("en")) {
            Some(Language::English)
        } else {
            None
        }
    }

    /// Native name shown in the language selector.
    pub fn native_name(self) -> (res: &'static str)
        ensures
            res@ == (match self {
                Language::Turkish => "Türkçe"@,
                Language::English => "English"@,
            }),
    {
        match self {
            Language::Turkish => "Türkçe",
            Language::English => "English",
        }
    }
}

/// The table position of `key`.
fn find_key(key: &str) -> (res: Option<usize>)
    ensures
        match res {
            Some(i) => key_position(key@) == Some(i as int) && i < TABLE_LEN,
            None => key_position(key@) is None,
        },
{
    let mut i: usize = 0;
    while i < TABLE_LEN
        invariant
            i <= TABLE_LEN,
            key_position(key@) == position_from(key@, i as int),
        decreases TABLE_LEN - i,
    {
        let entry = entry_at(i);
        if same_text(entry.0, key) {
            return Some(i);
        }
        i += 1;
    }
    None
}

/// English translation table.
pub fn en(key: &str) -> (res: Option<&'static str>)
    ensures
        res is Some == english(key@) is Some,
        res matches Some(v) ==> v@ == english(key@)->0,
{
    match find_key(key) {
        Some(i) => Some(entry_at(i).1),
        None => None,
    }
}

/// Turkish translation table.
pub fn tr(key: &str) -> (res: Option<&'static str>)
    ensures
        res is Some == turkish(key@) is Some,
        res matches Some(v) ==> v@ == turkish(key@)->0,
{
    match find_key(key) {
        Some(i) => Some(entry_at(i).2),
        None => None,
    }
}

/// Resolves an English ASCII `key` to display text for `language`, falling
/// back to the English text and then to the key itself.
pub fn t(language: Language, key: &'static str) -> (res: &'static str)
    ensures
        res@ == translated(language, key@),
{
    let primary = match language {
        Language::Turkish => tr(key),
        Language::English => en(key),
    };
    match primary {
        Some(v) => v,
        None => match en(key) {
            Some(v) => v,
            None => key,
        },
    }
}

/// Every key has an English text exactly when it has a Turkish one: the two
/// tables cover the same keys.
pub proof fn tables_cover_the_same_keys(key: Seq<char>)
    ensures
        english(key) is Some <==> turkish(key) is Some,
{
}

/// Parsing the persisted code of a language gives the language back.
pub proof fn code_round_trip(language: Language)
    ensures
        language_of_code(language_code(language)) == Some(language),
{
    reveal_strlit("tr");
    reveal_strlit("en");
    crate::text::lemma_trim_fixed(language_code(language));
    assert(folded("en"@[0]) != folded("tr"@[0]));
    assert(!eq_ignore_ascii_case("en"@, "tr"@));
    assert(eq_ignore_ascii_case("en"@, "en"@));
    assert(eq_ignore_ascii_case("tr"@, "tr"@));
}

/// The log line for `msg` in `language`: the translated template with its
/// token filled in (a WARP install hint is a literal command, indented).
pub open spec fn formatted(language: Language, msg: LogMsg) -> Seq<char> {
    match msg {
        LogMsg::HttpClientBuildFailed(e) => replaced(
            translated(language, "log_http_client_failed"@),
            "{e}"@,
            e@,
        ),
        LogMsg::LoggedInOnAttempt(n) => replaced(
            translated(language, "log_logged_in"@),
            "{n}"@,
            decimal(n as nat),
        ),
        LogMsg::AttemptNotConfirmed(n) => replaced(
            translated(language, "log_not_confirmed"@),
            "{n}"@,
            decimal(n as nat),
        ),
        LogMsg::AttemptTimeout(n) => replaced(
            translated(language, "log_timeout"@),
            "{n}"@,
            decimal(n as nat),
        ),
        LogMsg::AttemptNetworkError(n) => replaced(
            translated(language, "log_network_error"@),
            "{n}"@,
            decimal(n as nat),
        ),
        LogMsg::GivingUp(n) => replaced(
            translated(language, "log_giving_up"@),
            "{n}"@,
            decimal(n as nat),
        ),
        LogMsg::LoginCancelled => translated(language, "log_login_cancelled"@),
        LogMsg::WarpConnected => translated(language, "log_warp_connected"@),
        LogMsg::WarpConnectFailed(e) => replaced(
            translated(language, "log_warp_connect_failed"@),
            "{e}"@,
            e@,
        ),
        LogMsg::WarpRunFailed(e) => replaced(translated(language, "log_warp_run_failed"@), "{e}"@, e@),
        LogMsg::WarpNotFound => translated(language, "log_warp_not_found"@),
        LogMsg::WarpInstallHint(cmd) => "  "@ + cmd@,
        LogMsg::WarpInstallFollowup => translated(language, "log_warp_followup"@),
    }
}

/// Translates and formats a progress event for `language`.
pub fn format_log(language: Language, msg: LogMsg) -> (res: String)
    ensures
        res@ == formatted(language, msg),
{
    proof {
        reveal_strlit("{e}");
        reveal_strlit("{n}");
    }
    match msg {
        LogMsg::HttpClientBuildFailed(e) => replace_all(
            t(language, "log_http_client_failed"),
            "{e}",
            e.as_str(),
        ),
        LogMsg::LoggedInOnAttempt(n) => replace_all(
            t(language, "log_logged_in"),
            "{n}",
            decimal_string(n).as_str(),
        ),
        LogMsg::AttemptNotConfirmed(n) => replace_all(
            t(language, "log_not_confirmed"),
            "{n}",
            decimal_string(n).as_str(),
        ),
        LogMsg::AttemptTimeout(n) => replace_all(
            t(language, "log_timeout"),
            "{n}",
            decimal_string(n).as_str(),
        ),
        LogMsg::AttemptNetworkError(n) => replace_all(
            t(language, "log_network_error"),
            "{n}",
            decimal_string(n).as_str(),
        ),
        LogMsg::GivingUp(n) => replace_all(
            t(language, "log_giving_up"),
            "{n}",
            decimal_string(n).as_str(),
        ),
        LogMsg::LoginCancelled => String::from_str(t(language, "log_login_cancelled")),
        LogMsg::WarpConnected => String::from_str(t(language, "log_warp_connected")),
        LogMsg::WarpConnectFailed(e) => replace_all(
            t(language, "log_warp_connect_failed"),
            "{e}",
            e.as_str(),
        ),
        LogMsg::WarpRunFailed(e) => replace_all(t(language, "log_warp_run_failed"), "{e}", e.as_str()),
        LogMsg::WarpNotFound => String::from_str(t(language, "log_warp_not_found")),
        LogMsg::WarpInstallHint(cmd) => {
            let mut line = String::from_str("  ");
            line.append(cmd.as_str());
            line
        },
        LogMsg::WarpInstallFollowup => String::from_str(t(language, "log_warp_followup")),
    }
}

/// Every text in the table is non-empty.
proof fn lemma_texts_nonempty(i: int)
    requires
        0 <= i < TABLE_LEN,
    ensures
        table_entry(i).1.len() > 0,
        table_entry(i).2.len() > 0,
{
    reveal_strlit("GSB Connect");
    reveal_strlit("Login client");
    reveal_strlit("Giriş istemcisi");
    reveal_strlit("Home");
    reveal_strlit("Ana Sayfa");
    reveal_strlit("Settings");
    reveal_strlit("Ayarlar");
    reveal_strlit("About");
    reveal_strlit("Hakkında");
    reveal_strlit("Connected");
    reveal_strlit("Bağlandı");
    reveal_strlit("Disconnected");
    reveal_strlit("Bağlantı yok");
    reveal_strlit("You are logged in to the GSB WiFi portal.");
    reveal_strlit("GSB WiFi portalına giriş yapıldı.");
    reveal_strlit("Not logged in yet. Use Connect to sign in.");
    reveal_strlit("Henüz giriş yapılmadı. Giriş için Bağlan'a basın.");
    reveal_strlit("Connect");
    reveal_strlit("Bağlan");
    reveal_strlit("Connect + WARP");
    reveal_strlit("Bağlan + WARP");
    reveal_strlit("Stop");
    reveal_strlit("Durdur");
    reveal_strlit("Login");
    reveal_strlit("Giriş");
    reveal_strlit("WARP");
    reveal_strlit("Bağlı");
    reveal_strlit("Bağlı değil");
    reveal_strlit("Working...");
    reveal_strlit("Çalışılıyor...");
    reveal_strlit("Logs");
    reveal_strlit("Günlük");
    reveal_strlit("No activity yet.");
    reveal_strlit("Henüz işlem yok.");
    reveal_strlit("Clear logs");
    reveal_strlit("Günlüğü temizle");
    reveal_strlit("Log");
    reveal_strlit("Hide log panel");
    reveal_strlit("Günlük panelini gizle");
    reveal_strlit("Show log panel");
    reveal_strlit("Günlük panelini göster");
    reveal_strlit("Credentials are stored in a per-user config file (encrypted with Windows DPAPI on Windows).");
    reveal_strlit("Kimlik bilgileri kullanıcıya özel bir yapılandırma dosyasında saklanır (Windows'ta Windows DPAPI ile şifrelenir).");
    reveal_strlit("TC ID");
    reveal_strlit("TC Kimlik");
    reveal_strlit("Password");
    reveal_strlit("Şifre");
    reveal_strlit("Save credentials");
    reveal_strlit("Kimlik bilgilerini kaydet");
    reveal_strlit("Language");
    reveal_strlit("Dil");
    reveal_strlit("Start with Windows");
    reveal_strlit("Windows ile başlat");
    reveal_strlit("Launch GSB Connect automatically when you sign in to Windows (it starts minimized).");
    reveal_strlit("Windows oturumu açtığınızda GSB Connect otomatik olarak (simge durumunda) başlasın.");
    reveal_strlit("Version {v}");
    reveal_strlit("Sürüm {v}");
    reveal_strlit("Automates logging in to the GSB WiFi captive portal with your own credentials, with an optional step to enable Cloudflare WARP.");
    reveal_strlit("GSB WiFi oturum açma portalına kendi kimlik bilgilerinizle giriş yapmayı otomatikleştirir; isteğe bağlı olarak Cloudflare WARP'ı etkinleştirebilir.");
    reveal_strlit("Check / install WARP");
    reveal_strlit("WARP'ı denetle / kur");
    reveal_strlit("Active user TC: {tc}");
    reveal_strlit("Etkin kullanıcı TC: {tc}");
    reveal_strlit("Starting login...");
    reveal_strlit("Giriş başlatılıyor...");
    reveal_strlit("Starting login, then WARP...");
    reveal_strlit("Önce giriş, ardından WARP başlatılıyor...");
    reveal_strlit("Checking Cloudflare WARP...");
    reveal_strlit("Cloudflare WARP denetleniyor...");
    reveal_strlit("Error: TC ID and password must not be empty.");
    reveal_strlit("Hata: TC Kimlik ve şifre boş olamaz.");
    reveal_strlit("Please enter your TC ID and password in the Settings tab.");
    reveal_strlit("Lütfen Ayarlar sekmesinde TC Kimlik ve şifrenizi girin.");
    reveal_strlit("Credentials saved to {path}.");
    reveal_strlit("Kimlik bilgileri şuraya kaydedildi: {path}.");
    reveal_strlit("Failed to save credentials: {e}");
    reveal_strlit("Kimlik bilgileri kaydedilemedi: {e}");
    reveal_strlit("Start with Windows: enabled.");
    reveal_strlit("Windows ile başlatma: etkin.");
    reveal_strlit("Start with Windows: disabled.");
    reveal_strlit("Windows ile başlatma: devre dışı.");
    reveal_strlit("Could not update start-with-Windows: {e}");
    reveal_strlit("Windows ile başlatma güncellenemedi: {e}");
    reveal_strlit("Failed to build HTTP client: {e}");
    reveal_strlit("HTTP istemcisi oluşturulamadı: {e}");
    reveal_strlit("Logged in on attempt {n}.");
    reveal_strlit("{n}. denemede giriş yapıldı.");
    reveal_strlit("Attempt {n} failed: server responded but login not confirmed...");
    reveal_strlit("{n}. deneme başarısız: sunucu yanıt verdi ama giriş doğrulanmadı...");
    reveal_strlit("Attempt {n}: timeout, retrying...");
    reveal_strlit("{n}. deneme: zaman aşımı, yeniden deneniyor...");
    reveal_strlit("Attempt {n}: network error, retrying...");
    reveal_strlit("{n}. deneme: ağ hatası, yeniden deneniyor...");
    reveal_strlit("Giving up after {n} attempts.");
    reveal_strlit("{n} denemeden sonra vazgeçiliyor.");
    reveal_strlit("Login cancelled.");
    reveal_strlit("Giriş iptal edildi.");
    reveal_strlit("Traffic is now tunneled through Cloudflare.");
    reveal_strlit("Trafik artık Cloudflare üzerinden tünelleniyor.");
    reveal_strlit("WARP connect failed: {e}");
    reveal_strlit("WARP bağlantısı başarısız: {e}");
    reveal_strlit("Failed to run warp-cli connect: {e}");
    reveal_strlit("warp-cli connect çalıştırılamadı: {e}");
    reveal_strlit("Cloudflare WARP (warp-cli) not found. Install it with:");
    reveal_strlit("Cloudflare WARP (warp-cli) bulunamadı. Şunu kullanarak kurun:");
    reveal_strlit("After installing, open the WARP app once, then try again.");
    reveal_strlit("Kurduktan sonra WARP uygulamasını bir kez açın, ardından tekrar deneyin.");
    reveal_strlit("Enter your TC ID and password to continue.");
    reveal_strlit("Devam etmek için TC Kimlik ve şifrenizi girin.");
}

/// The user interface never shows an empty string: the text for a
/// non-empty key is non-empty in both languages.
pub proof fn translations_are_nonempty(language: Language, key: Seq<char>)
    requires
        key.len() > 0,
    ensures
        translated(language, key).len() > 0,
{
    if let Some(i) = key_position(key) {
        lemma_position_in_table(key, 0);
        lemma_texts_nonempty(i);
    }
}

proof fn lemma_position_in_table(key: Seq<char>, from: int)
    ensures
        position_from(key, from) matches Some(i) ==> 0 <= i < TABLE_LEN && from <= i,
    decreases TABLE_LEN - from,
{
    if 0 <= from < TABLE_LEN && table_entry(from).0 != key {
        lemma_position_in_table(key, from + 1);
    }
}


/// Where the keys of the progress messages stand in the table.
proof fn lemma_log_key_positions()
    ensures
        key_position("log_http_client_failed"@) == Some(44int),
        key_position("log_logged_in"@) == Some(45int),
        key_position("log_not_confirmed"@) == Some(46int),
        key_position("log_timeout"@) == Some(47int),
        key_position("log_network_error"@) == Some(48int),
        key_position("log_giving_up"@) == Some(49int),
        key_position("log_login_cancelled"@) == Some(50int),
        key_position("log_warp_connected"@) == Some(51int),
        key_position("log_warp_connect_failed"@) == Some(52int),
        key_position("log_warp_run_failed"@) == Some(53int),
        key_position("log_warp_not_found"@) == Some(54int),
        key_position("log_warp_followup"@) == Some(55int),
{
    reveal_strlit("window_title");
    assert("window_title"@.len() == 12);
    reveal_strlit("sidebar_subtitle");
    assert("sidebar_subtitle"@.len() == 16);
    reveal_strlit("nav_home");
    assert("nav_home"@.len() == 8);
    reveal_strlit("nav_settings");
    assert("nav_settings"@.len() == 12);
    reveal_strlit("nav_about");
    assert("nav_about"@.len() == 9);
    reveal_strlit("home_headline_connected");
    assert("home_headline_connected"@.len() == 23);
    reveal_strlit("home_headline_disconnected");
    assert("home_headline_disconnected"@.len() == 26);
    reveal_strlit("home_subtitle_connected");
    assert("home_subtitle_connected"@.len() == 23);
    reveal_strlit("home_subtitle_disconnected");
    assert("home_subtitle_disconnected"@.len() == 26);
    reveal_strlit("button_connect");
    assert("button_connect"@.len() == 14);
    reveal_strlit("button_connect_warp");
    assert("button_connect_warp"@.len() == 19);
    reveal_strlit("button_stop");
    assert("button_stop"@.len() == 11);
    reveal_strlit("pill_login");
    assert("pill_login"@.len() == 10);
    reveal_strlit("pill_warp");
    assert("pill_warp"@.len() == 9);
    reveal_strlit("state_connected");
    assert("state_connected"@.len() == 15);
    reveal_strlit("state_disconnected");
    assert("state_disconnected"@.len() == 18);
    reveal_strlit("working");
    assert("working"@.len() == 7);
    reveal_strlit("log_heading");
    assert("log_heading"@.len() == 11);
    reveal_strlit("log_empty");
    assert("log_empty"@.len() == 9);
    reveal_strlit("clear_logs_button");
    assert("clear_logs_button"@.len() == 17);
    reveal_strlit("log_label");
    assert("log_label"@.len() == 9);
    reveal_strlit("log_panel_hide");
    assert("log_panel_hide"@.len() == 14);
    reveal_strlit("log_panel_show");
    assert("log_panel_show"@.len() == 14);
    reveal_strlit("settings_credentials_note");
    assert("settings_credentials_note"@.len() == 25);
    reveal_strlit("label_tc");
    assert("label_tc"@.len() == 8);
    reveal_strlit("label_password");
    assert("label_password"@.len() == 14);
    reveal_strlit("button_save");
    assert("button_save"@.len() == 11);
    reveal_strlit("label_language");
    assert("label_language"@.len() == 14);
    reveal_strlit("label_autostart");
    assert("label_autostart"@.len() == 15);
    reveal_strlit("settings_autostart_note");
    assert("settings_autostart_note"@.len() == 23);
    reveal_strlit("about_version");
    assert("about_version"@.len() == 13);
    reveal_strlit("about_description");
    assert("about_description"@.len() == 17);
    reveal_strlit("button_warp_check");
    assert("button_warp_check"@.len() == 17);
    reveal_strlit("log_active_tc");
    assert("log_active_tc"@.len() == 13);
    reveal_strlit("log_starting_login");
    assert("log_starting_login"@.len() == 18);
    reveal_strlit("log_starting_login_warp");
    assert("log_starting_login_warp"@.len() == 23);
    reveal_strlit("log_checking_warp");
    assert("log_checking_warp"@.len() == 17);
    reveal_strlit("log_credentials_empty");
    assert("log_credentials_empty"@.len() == 21);
    reveal_strlit("log_credentials_empty_hint");
    assert("log_credentials_empty_hint"@.len() == 26);
    reveal_strlit("log_credentials_saved");
    assert("log_credentials_saved"@.len() == 21);
    reveal_strlit("log_credentials_save_failed");
    assert("log_credentials_save_failed"@.len() == 27);
    reveal_strlit("log_autostart_enabled");
    assert("log_autostart_enabled"@.len() == 21);
    reveal_strlit("log_autostart_disabled");
    assert("log_autostart_disabled"@.len() == 22);
    reveal_strlit("log_autostart_failed");
    assert("log_autostart_failed"@.len() == 20);
    reveal_strlit("log_http_client_failed");
    assert("log_http_client_failed"@.len() == 22);
    reveal_strlit("log_logged_in");
    assert("log_logged_in"@.len() == 13);
    reveal_strlit("log_not_confirmed");
    assert("log_not_confirmed"@.len() == 17);
    reveal_strlit("log_timeout");
    assert("log_timeout"@.len() == 11);
    reveal_strlit("log_network_error");
    assert("log_network_error"@.len() == 17);
    reveal_strlit("log_giving_up");
    assert("log_giving_up"@.len() == 13);
    reveal_strlit("log_login_cancelled");
    assert("log_login_cancelled"@.len() == 19);
    reveal_strlit("log_warp_connected");
    assert("log_warp_connected"@.len() == 18);
    reveal_strlit("log_warp_connect_failed");
    assert("log_warp_connect_failed"@.len() == 23);
    reveal_strlit("log_warp_run_failed");
    assert("log_warp_run_failed"@.len() == 19);
    reveal_strlit("log_warp_not_found");
    assert("log_warp_not_found"@.len() == 18);
    reveal_strlit("log_warp_followup");
    assert("log_warp_followup"@.len() == 17);
    assert("about_description"@[0] == 'a' && "log_network_error"@[0] == 'l');
    assert("about_description"@[0] == 'a' && "log_not_confirmed"@[0] == 'l');
    assert("about_description"@[0] == 'a' && "log_warp_followup"@[0] == 'l');
    assert("about_version"@[0] == 'a' && "log_giving_up"@[0] == 'l');
    assert("about_version"@[0] == 'a' && "log_logged_in"@[0] == 'l');
    assert("button_connect_warp"@[0] == 'b' && "log_login_cancelled"@[0] == 'l');
    assert("button_connect_warp"@[0] == 'b' && "log_warp_run_failed"@[0] == 'l');
    assert("button_save"@[0] == 'b' && "log_timeout"@[0] == 'l');
    assert("button_stop"@[0] == 'b' && "log_timeout"@[0] == 'l');
    assert("button_warp_check"@[0] == 'b' && "log_network_error"@[0] == 'l');
    assert("button_warp_check"@[0] == 'b' && "log_not_confirmed"@[0] == 'l');
    assert("button_warp_check"@[0] == 'b' && "log_warp_followup"@[0] == 'l');
    assert("clear_logs_button"@[0] == 'c' && "log_network_error"@[0] == 'l');
    assert("clear_logs_button"@[0] == 'c' && "log_not_confirmed"@[0] == 'l');
    assert("clear_logs_button"@[0] == 'c' && "log_warp_followup"@[0] == 'l');
    assert("home_headline_connected"@[0] == 'h' && "log_warp_connect_failed"@[0] == 'l');
    assert("home_subtitle_connected"@[0] == 'h' && "log_warp_connect_failed"@[0] == 'l');
    assert("log_active_tc"@[4] == 'a' && "log_giving_up"@[4] == 'g');
    assert("log_active_tc"@[4] == 'a' && "log_logged_in"@[4] == 'l');
    assert("log_autostart_disabled"@[4] == 'a' && "log_http_client_failed"@[4] == 'h');
    assert("log_checking_warp"@[4] == 'c' && "log_network_error"@[4] == 'n');
    assert("log_checking_warp"@[4] == 'c' && "log_not_confirmed"@[4] == 'n');
    assert("log_checking_warp"@[4] == 'c' && "log_warp_followup"@[4] == 'w');
    assert("log_heading"@[4] == 'h' && "log_timeout"@[4] == 't');
    assert("log_logged_in"@[4] == 'l' && "log_giving_up"@[4] == 'g');
    assert("log_login_cancelled"@[4] == 'l' && "log_warp_run_failed"@[4] == 'w');
    assert("log_network_error"@[4] == 'n' && "log_warp_followup"@[4] == 'w');
    assert("log_not_confirmed"@[5] == 'o' && "log_network_error"@[5] == 'e');
    assert("log_not_confirmed"@[4] == 'n' && "log_warp_followup"@[4] == 'w');
    assert("log_starting_login"@[4] == 's' && "log_warp_connected"@[4] == 'w');
    assert("log_starting_login"@[4] == 's' && "log_warp_not_found"@[4] == 'w');
    assert("log_starting_login_warp"@[4] == 's' && "log_warp_connect_failed"@[4] == 'w');
    assert("log_warp_connected"@[9] == 'c' && "log_warp_not_found"@[9] == 'n');
    assert("settings_autostart_note"@[0] == 's' && "log_warp_connect_failed"@[0] == 'l');
    assert("state_disconnected"@[0] == 's' && "log_warp_connected"@[0] == 'l');
    assert("state_disconnected"@[0] == 's' && "log_warp_not_found"@[0] == 'l');
    reveal_with_fuel(position_from, 57);
}


/// Each progress event is written with its own template, in English and in
/// Turkish, with its token (`{e}` or `{n}`) filled in by the event's text or
/// by its number in decimal; a WARP install hint is the command, indented by
/// two spaces.
pub proof fn log_lines(msg: LogMsg)
    ensures
        formatted(Language::English, msg) == (match msg {
            LogMsg::HttpClientBuildFailed(e) => replaced("Failed to build HTTP client: {e}"@, "{e}"@, e@),
            LogMsg::LoggedInOnAttempt(n) => replaced("Logged in on attempt {n}."@, "{n}"@, decimal(n as nat)),
            LogMsg::AttemptNotConfirmed(n) => replaced("Attempt {n} failed: server responded but login not confirmed..."@, "{n}"@, decimal(n as nat)),
            LogMsg::AttemptTimeout(n) => replaced("Attempt {n}: timeout, retrying..."@, "{n}"@, decimal(n as nat)),
            LogMsg::AttemptNetworkError(n) => replaced("Attempt {n}: network error, retrying..."@, "{n}"@, decimal(n as nat)),
            LogMsg::GivingUp(n) => replaced("Giving up after {n} attempts."@, "{n}"@, decimal(n as nat)),
            LogMsg::LoginCancelled => "Login cancelled."@,
            LogMsg::WarpConnected => "Traffic is now tunneled through Cloudflare."@,
            LogMsg::WarpConnectFailed(e) => replaced("WARP connect failed: {e}"@, "{e}"@, e@),
            LogMsg::WarpRunFailed(e) => replaced("Failed to run warp-cli connect: {e}"@, "{e}"@, e@),
            LogMsg::WarpNotFound => "Cloudflare WARP (warp-cli) not found. Install it with:"@,
            LogMsg::WarpInstallHint(cmd) => "  "@ + cmd@,
            LogMsg::WarpInstallFollowup => "After installing, open the WARP app once, then try again."@,
        }),
        formatted(Language::Turkish, msg) == (match msg {
            LogMsg::HttpClientBuildFailed(e) => replaced("HTTP istemcisi oluşturulamadı: {e}"@, "{e}"@, e@),
            LogMsg::LoggedInOnAttempt(n) => replaced("{n}. denemede giriş yapıldı."@, "{n}"@, decimal(n as nat)),
            LogMsg::AttemptNotConfirmed(n) => replaced("{n}. deneme başarısız: sunucu yanıt verdi ama giriş doğrulanmadı..."@, "{n}"@, decimal(n as nat)),
            LogMsg::AttemptTimeout(n) => replaced("{n}. deneme: zaman aşımı, yeniden deneniyor..."@, "{n}"@, decimal(n as nat)),
            LogMsg::AttemptNetworkError(n) => replaced("{n}. deneme: ağ hatası, yeniden deneniyor..."@, "{n}"@, decimal(n as nat)),
            LogMsg::GivingUp(n) => replaced("{n} denemeden sonra vazgeçiliyor."@, "{n}"@, decimal(n as nat)),
            LogMsg::LoginCancelled => "Giriş iptal edildi."@,
            LogMsg::WarpConnected => "Trafik artık Cloudflare üzerinden tünelleniyor."@,
            LogMsg::WarpConnectFailed(e) => replaced("WARP bağlantısı başarısız: {e}"@, "{e}"@, e@),
            LogMsg::WarpRunFailed(e) => replaced("warp-cli connect çalıştırılamadı: {e}"@, "{e}"@, e@),
            LogMsg::WarpNotFound => "Cloudflare WARP (warp-cli) bulunamadı. Şunu kullanarak kurun:"@,
            LogMsg::WarpInstallHint(cmd) => "  "@ + cmd@,
            LogMsg::WarpInstallFollowup => "Kurduktan sonra WARP uygulamasını bir kez açın, ardından tekrar deneyin."@,
        }),
{
    lemma_log_key_positions();
}

} // verus!
