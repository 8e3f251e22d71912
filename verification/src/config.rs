//! The per-user configuration file: what is stored, how it is read back, and
//! how it is rewritten.
//!
//! The file is a small INI text with a `[Credentials]` section
//! (`ENCRYPTED`, `TC_KIMLIK`, `SIFRE`) and a `[Settings]` section
//! (`LANGUAGE`, `AUTOSTART`). Reading and writing the file itself is the
//! shell's job; the functions here take and return its text.

use vstd::prelude::*;
use crate::ini::{
    ini_get, ini_value, is_plain_name, lemma_scan_blank, lemma_scan_empty, lemma_scan_header,
    lemma_scan_kv,
};
use crate::base64::decode;
use crate::secret_store::{
    decrypt, field_text, protect, protect_round_trip, protected, protected_is_plain, unprotected,
    ENCRYPTION_ACTIVE, StoreError,
};
use crate::text::{same_text, eq_ignore_ascii_case, lemma_trim_idempotent, lemma_trim_within, trim, trimmed};

verus! {

/// File name of the credentials file.
pub const CONFIG_FILE: &'static str = "config.ini";

/// Section holding the credential fields.
pub const CREDENTIALS_SECTION: &'static str = "Credentials";

/// Section holding non-secret settings.
pub const SETTINGS_SECTION: &'static str = "Settings";

/// Key whose value `1` marks the stored credentials as being in protected
/// form, to be recovered before use.
pub const ENCRYPTED_KEY: &'static str = "ENCRYPTED";

/// The `ENCRYPTED` value written beside credentials in the form that
/// [`protect`] gives: it tells the loader to recover them with
/// [`crate::secret_store::unprotect`] rather than read them as they stand.
pub const PROTECTED_MARKER: &'static str = "1";

/// Key of the stored TC identity number.
pub const TC_KEY: &'static str = "TC_KIMLIK";

/// Key of the stored password.
pub const PASSWORD_KEY: &'static str = "SIFRE";

/// Key of the stored language code.
pub const LANGUAGE_KEY: &'static str = "LANGUAGE";

/// Key of the stored "start with the OS" preference.
pub const AUTOSTART_KEY: &'static str = "AUTOSTART";

/// Language code used when none is stored.
pub const DEFAULT_LANGUAGE_CODE: &'static str = "tr";

/// Placeholder written into a config template for the TC identity number.
pub const TC_PLACEHOLDER: &'static str = "PUT_YOUR_TC_HERE";

/// Placeholder written into a config template for the password.
pub const PASSWORD_PLACEHOLDER: &'static str = "PUT_YOUR_PASSWORD_HERE";

/// Credentials loaded from, or to be saved to, the config file.
pub struct Credentials {
    pub tc: String,
    pub password: String,
}

impl Clone for Credentials {
    fn clone(&self) -> (res: Self)
        ensures
            res.tc@ == self.tc@,
            res.password@ == self.password@,
    {
        Credentials { tc: self.tc.clone(), password: self.password.clone() }
    }
}

impl Default for Credentials {
    fn default() -> (res: Self)
        ensures
            res.tc@.len() == 0,
            res.password@.len() == 0,
    {
        Credentials { tc: String::new(), password: String::new() }
    }
}

/// The configuration loaded at startup.
pub struct AppConfig {
    /// Credentials for prefilling the UI (empty if unset or placeholder).
    pub creds: Credentials,
    /// Persisted language code; `tr` when none is stored.
    pub language_code: String,
}

/// Snapshot of the configuration handed to the user interface.
pub struct ConfigDto {
    pub tc: String,
    pub password: String,
    pub language: String,
    pub autostart: bool,
}

/// A rewrite of the config file that loading asks for.
pub struct SaveRequest {
    pub creds: Credentials,
    pub language_code: String,
    pub autostart: bool,
}

/// The loaded configuration and, when the file should be rewritten, what to
/// write.
pub struct LoadedConfig {
    pub config: AppConfig,
    pub save: Option<SaveRequest>,
}

/// The stored (raw) value of `key` in `section`, empty when missing.
pub open spec fn stored_value(contents: Seq<char>, section: Seq<char>, key: Seq<char>) -> Seq<char> {
    match ini_value(contents, section, key) {
        Some(v) => v,
        None => seq![],
    }
}

/// Whether `key` in `section` holds the value `1`.
pub open spec fn flag_set(contents: Seq<char>, section: Seq<char>, key: Seq<char>) -> bool {
    ini_value(contents, section, key) matches Some(v) && trim(v) == "1"@
}

/// Whether the stored credentials are marked as encrypted.
pub open spec fn marked_encrypted(contents: Seq<char>) -> bool {
    flag_set(contents, CREDENTIALS_SECTION@, ENCRYPTED_KEY@)
}

/// The stored `AUTOSTART` flag.
pub open spec fn stored_autostart(contents: Seq<char>) -> bool {
    flag_set(contents, SETTINGS_SECTION@, AUTOSTART_KEY@)
}

/// The stored language code, when there is a non-blank one.
pub open spec fn stored_language(contents: Seq<char>) -> Option<Seq<char>> {
    match ini_value(contents, SETTINGS_SECTION@, LANGUAGE_KEY@) {
        Some(v) => if trim(v).len() > 0 {
            Some(trim(v))
        } else {
            None
        },
        None => None,
    }
}

/// The language code in effect: the stored one, else the default.
pub open spec fn effective_language(contents: Seq<char>) -> Seq<char> {
    match stored_language(contents) {
        Some(l) => l,
        None => DEFAULT_LANGUAGE_CODE@,
    }
}

/// What decrypting a stored field gives: empty for an empty field or when
/// it cannot be recovered.
pub open spec fn decrypted(stored: Seq<char>) -> Seq<char> {
    if stored.len() == 0 {
        seq![]
    } else {
        match unprotected(stored) {
            Ok(s) => s,
            Err(_) => seq![],
        }
    }
}

/// `value`, or empty when it is empty or still the placeholder.
pub open spec fn usable(value: Seq<char>, placeholder: Seq<char>) -> Seq<char> {
    if value.len() == 0 || value == placeholder {
        seq![]
    } else {
        value
    }
}

/// The credential field `key` as loading shows it, given how the stored
/// value reads when it is encrypted (`plain`).
pub open spec fn loaded_field(contents: Seq<char>, key: Seq<char>, plain: Seq<char>, placeholder: Seq<char>) -> Seq<char> {
    if marked_encrypted(contents) {
        usable(plain, placeholder)
    } else {
        usable(stored_value(contents, CREDENTIALS_SECTION@, key), placeholder)
    }
}

/// Whether loading asks for the file to be rewritten: plaintext credentials
/// that should be encrypted, or no stored language.
pub open spec fn rewrite_needed(contents: Seq<char>, tc: Seq<char>, password: Seq<char>, encryption_active: bool) -> bool {
    (!marked_encrypted(contents) && encryption_active && (tc.len() > 0 || password.len() > 0))
        || stored_language(contents) is None
}

/// Whether `key` in `section` of `contents` holds `1`.
fn read_flag(contents: &str, section: &str, key: &str) -> (res: bool)
    ensures
        res == flag_set(contents@, section@, key@),
{
    match ini_get(contents, section, key) {
        Some(value) => same_text(trimmed(value.as_str()).as_str(), "1"),
        None => false,
    }
}

/// The stored value of `key` in `section`, empty when missing.
fn read_value(contents: &str, section: &str, key: &str) -> (res: String)
    ensures
        res@ == stored_value(contents@, section@, key@),
{
    match ini_get(contents, section, key) {
        Some(value) => value,
        None => String::new(),
    }
}

/// Reads the `[Settings] AUTOSTART` flag (default `false`).
pub fn read_autostart(contents: &str) -> (res: bool)
    ensures
        res == stored_autostart(contents@),
{
    read_flag(contents, SETTINGS_SECTION, AUTOSTART_KEY)
}

/// The stored language code, when there is a non-blank one.
pub fn read_language(contents: &str) -> (res: Option<String>)
    ensures
        res is Some == stored_language(contents@) is Some,
        res matches Some(l) ==> l@ == stored_language(contents@)->0,
{
    match ini_get(contents, SETTINGS_SECTION, LANGUAGE_KEY) {
        Some(value) => {
            let code = trimmed(value.as_str());
            if code.as_str().is_empty() {
                None
            } else {
                Some(code)
            }
        },
        None => None,
    }
}

/// Decrypts a single stored field, returning an empty string for empty input
/// or on any decryption failure.
pub fn decrypt_field(stored: &str) -> (res: String)
    ensures
        res@ == decrypted(stored@),
{
    let plaintext = match decode(stored) {
        Ok(ciphertext) => match decrypt(ciphertext.as_slice()) {
            Ok(bytes) => Some(bytes),
            Err(_) => None,
        },
        Err(_) => None,
    };
    field_text(stored, plaintext)
}

/// Returns `value` unless it is empty or still the placeholder, in which case
/// an empty string is returned.
pub fn usable_or_empty(value: String, placeholder: &str) -> (res: String)
    ensures
        res@ == usable(value@, placeholder@),
{
    if value.as_str().is_empty() || same_text(value.as_str(), placeholder) {
        String::new()
    } else {
        value
    }
}

/// Builds the loaded configuration from the file text. `tc_plain` and
/// `password_plain` are the stored credential fields decrypted (they are used
/// only when the file marks its credentials as encrypted), and
/// `encryption_active` says whether this build encrypts what it writes.
pub fn resolve_config(contents: &str, tc_plain: String, password_plain: String, encryption_active: bool) -> (res: LoadedConfig)
    ensures
        res.config.creds.tc@ == loaded_field(contents@, TC_KEY@, tc_plain@, TC_PLACEHOLDER@),
        res.config.creds.password@ == loaded_field(contents@, PASSWORD_KEY@, password_plain@, PASSWORD_PLACEHOLDER@),
        res.config.language_code@ == effective_language(contents@),
        res.save is Some == rewrite_needed(contents@, res.config.creds.tc@, res.config.creds.password@, encryption_active),
        res.save matches Some(req) ==> {
            &&& req.creds.tc@ == res.config.creds.tc@
            &&& req.creds.password@ == res.config.creds.password@
            &&& req.language_code@ == res.config.language_code@
            &&& req.autostart == stored_autostart(contents@)
        },
{
    let encrypted = read_flag(contents, CREDENTIALS_SECTION, ENCRYPTED_KEY);
    let stored_language = read_language(contents);
    let language_code = match &stored_language {
        Some(code) => code.clone(),
        None => String::from_str(DEFAULT_LANGUAGE_CODE),
    };
    let autostart = read_autostart(contents);
    let (creds, needs_migration) = if encrypted {
        let creds = Credentials {
            tc: usable_or_empty(tc_plain, TC_PLACEHOLDER),
            password: usable_or_empty(password_plain, PASSWORD_PLACEHOLDER),
        };
        (creds, false)
    } else {
        let raw_tc = read_value(contents, CREDENTIALS_SECTION, TC_KEY);
        let raw_password = read_value(contents, CREDENTIALS_SECTION, PASSWORD_KEY);
        let creds = Credentials {
            tc: usable_or_empty(raw_tc, TC_PLACEHOLDER),
            password: usable_or_empty(raw_password, PASSWORD_PLACEHOLDER),
        };
        let migrate = encryption_active && (!creds.tc.as_str().is_empty()
            || !creds.password.as_str().is_empty());
        (creds, migrate)
    };
    let save = if needs_migration || stored_language.is_none() {
        Some(SaveRequest { creds: creds.clone(), language_code: language_code.clone(), autostart })
    } else {
        None
    };
    LoadedConfig { config: AppConfig { creds, language_code }, save }
}

/// One `key = value` line.
pub open spec fn kv_line(key: Seq<char>, value: Seq<char>) -> Seq<char> {
    key + " = "@ + value + "\n"@
}

/// One `[name]` section header line.
pub open spec fn header_line(name: Seq<char>) -> Seq<char> {
    "["@ + name + "]\n"@
}

/// The text of `1` or `0` for a flag.
pub open spec fn flag_text(flag: bool) -> Seq<char> {
    if flag {
        "1"@
    } else {
        "0"@
    }
}

/// The full config file text for already-stored field values.
pub open spec fn rendered(
    marker: Seq<char>,
    tc: Seq<char>,
    password: Seq<char>,
    language_code: Seq<char>,
    autostart: bool,
) -> Seq<char> {
    header_line(CREDENTIALS_SECTION@) + kv_line(ENCRYPTED_KEY@, marker) + kv_line(TC_KEY@, tc)
        + kv_line(PASSWORD_KEY@, password) + "\n"@ + header_line(SETTINGS_SECTION@) + kv_line(
        LANGUAGE_KEY@,
        trim(language_code),
    ) + kv_line(AUTOSTART_KEY@, flag_text(autostart))
}

/// The `ENCRYPTED` marker value: `1` when values are encrypted, else `0`.
pub open spec fn marker_text(encryption_active: bool) -> Seq<char> {
    flag_text(encryption_active)
}

fn push_header(out: &mut String, name: &str)
    ensures
        final(out)@ == old(out)@ + header_line(name@),
{
    out.append("[");
    out.append(name);
    out.append("]\n");
}

fn push_kv(out: &mut String, key: &str, value: &str)
    ensures
        final(out)@ == old(out)@ + kv_line(key@, value@),
{
    out.append(key);
    out.append(" = ");
    out.append(value);
    out.append("\n");
}

/// Renders the full config file text from already-stored field values.
///
/// `tc` and `password` are expected in their stored (protected) form and
/// `marker` is the matching `ENCRYPTED` value.
pub fn render_config(marker: &str, tc: &str, password: &str, language_code: &str, autostart: bool) -> (res: String)
    ensures
        res@ == rendered(marker@, tc@, password@, language_code@, autostart),
{
    let mut out = String::new();
    push_header(&mut out, CREDENTIALS_SECTION);
    push_kv(&mut out, ENCRYPTED_KEY, marker);
    push_kv(&mut out, TC_KEY, tc);
    push_kv(&mut out, PASSWORD_KEY, password);
    out.append("\n");
    push_header(&mut out, SETTINGS_SECTION);
    let code = trimmed(language_code);
    push_kv(&mut out, LANGUAGE_KEY, code.as_str());
    push_kv(&mut out, AUTOSTART_KEY, if autostart { "1" } else { "0" });
    out
}

/// The `ENCRYPTED` marker value for a build that does (or does not) encrypt.
pub fn encryption_marker(encryption_active: bool) -> (res: &'static str)
    ensures
        res@ == marker_text(encryption_active),
{
    if encryption_active {
        "1"
    } else {
        "0"
    }
}

/// `creds` with both fields trimmed, as they are saved and used.
pub fn trimmed_credentials(creds: &Credentials) -> (res: Credentials)
    ensures
        res.tc@ == trim(creds.tc@),
        res.password@ == trim(creds.password@),
{
    Credentials { tc: trimmed(creds.tc.as_str()), password: trimmed(creds.password.as_str()) }
}

/// The config file text for credentials already in protected form, under the
/// [`PROTECTED_MARKER`] that makes [`load_config`] recover them.
pub fn protected_config_text(tc: &str, password: &str, language_code: &str, autostart: bool) -> (res: String)
    ensures
        res@ == rendered(marker_text(true), tc@, password@, language_code@, autostart),
{
    proof {
        reveal_strlit("1");
    }
    render_config(PROTECTED_MARKER, tc, password, language_code, autostart)
}

/// The config file text that saving `creds`, `language_code` and `autostart`
/// writes: the trimmed credentials protected by [`protect`], under the
/// [`PROTECTED_MARKER`] that makes [`load_config`] recover them.
pub fn save_config_text(creds: &Credentials, language_code: &str, autostart: bool) -> (res: Result<String, StoreError>)
    ensures
        res matches Ok(text) && text@ == rendered(
            marker_text(true),
            protected(trim(creds.tc@)),
            protected(trim(creds.password@)),
            language_code@,
            autostart,
        ),
{
    let plain = trimmed_credentials(creds);
    let tc = protect(plain.tc.as_str())?;
    let password = protect(plain.password.as_str())?;
    Ok(protected_config_text(tc.as_str(), password.as_str(), language_code, autostart))
}

/// The stored marker, or the one for this build when none is stored.
pub open spec fn kept_marker(contents: Seq<char>, encryption_active: bool) -> Seq<char> {
    match ini_value(contents, CREDENTIALS_SECTION@, ENCRYPTED_KEY@) {
        Some(m) => m,
        None => marker_text(encryption_active),
    }
}

/// The config text with only the language changed: the stored marker and
/// credentials are kept verbatim, as is the `AUTOSTART` flag.
pub fn language_update(contents: &str, language_code: &str, encryption_active: bool) -> (res: String)
    ensures
        res@ == rendered(
            kept_marker(contents@, encryption_active),
            stored_value(contents@, CREDENTIALS_SECTION@, TC_KEY@),
            stored_value(contents@, CREDENTIALS_SECTION@, PASSWORD_KEY@),
            language_code@,
            stored_autostart(contents@),
        ),
{
    let marker = match ini_get(contents, CREDENTIALS_SECTION, ENCRYPTED_KEY) {
        Some(m) => m,
        None => String::from_str(encryption_marker(encryption_active)),
    };
    let tc = read_value(contents, CREDENTIALS_SECTION, TC_KEY);
    let password = read_value(contents, CREDENTIALS_SECTION, PASSWORD_KEY);
    let autostart = read_autostart(contents);
    render_config(marker.as_str(), tc.as_str(), password.as_str(), language_code, autostart)
}

/// The config text with only the `AUTOSTART` flag changed: the stored marker,
/// credentials and language are kept (the language falls back to the default
/// when none is stored).
pub fn autostart_update(contents: &str, autostart: bool, encryption_active: bool) -> (res: String)
    ensures
        res@ == rendered(
            kept_marker(contents@, encryption_active),
            stored_value(contents@, CREDENTIALS_SECTION@, TC_KEY@),
            stored_value(contents@, CREDENTIALS_SECTION@, PASSWORD_KEY@),
            effective_language(contents@),
            autostart,
        ),
{
    let marker = match ini_get(contents, CREDENTIALS_SECTION, ENCRYPTED_KEY) {
        Some(m) => m,
        None => String::from_str(encryption_marker(encryption_active)),
    };
    let tc = read_value(contents, CREDENTIALS_SECTION, TC_KEY);
    let password = read_value(contents, CREDENTIALS_SECTION, PASSWORD_KEY);
    let language_code = match read_language(contents) {
        Some(code) => code,
        None => String::from_str(DEFAULT_LANGUAGE_CODE),
    };
    render_config(marker.as_str(), tc.as_str(), password.as_str(), language_code.as_str(), autostart)
}

/// Loads the configuration from the file text with this library's ciphers:
/// encrypted fields are recovered with [`decrypt_field`].
pub fn load_config(contents: &str) -> (res: LoadedConfig)
    ensures
        res.config.creds.tc@ == loaded_field(
            contents@,
            TC_KEY@,
            decrypted(stored_value(contents@, CREDENTIALS_SECTION@, TC_KEY@)),
            TC_PLACEHOLDER@,
        ),
        res.config.creds.password@ == loaded_field(
            contents@,
            PASSWORD_KEY@,
            decrypted(stored_value(contents@, CREDENTIALS_SECTION@, PASSWORD_KEY@)),
            PASSWORD_PLACEHOLDER@,
        ),
        res.config.language_code@ == effective_language(contents@),
        res.save is Some == rewrite_needed(
            contents@,
            res.config.creds.tc@,
            res.config.creds.password@,
            ENCRYPTION_ACTIVE,
        ),
        res.save matches Some(req) ==> {
            &&& req.creds.tc@ == res.config.creds.tc@
            &&& req.creds.password@ == res.config.creds.password@
            &&& req.language_code@ == res.config.language_code@
            &&& req.autostart == stored_autostart(contents@)
        },
{
    let (tc_plain, password_plain) = if read_flag(contents, CREDENTIALS_SECTION, ENCRYPTED_KEY) {
        (
            decrypt_field(read_value(contents, CREDENTIALS_SECTION, TC_KEY).as_str()),
            decrypt_field(read_value(contents, CREDENTIALS_SECTION, PASSWORD_KEY).as_str()),
        )
    } else {
        (String::new(), String::new())
    };
    resolve_config(contents, tc_plain, password_plain, ENCRYPTION_ACTIVE)
}

/// Whether a config found only at the legacy location should be copied to
/// the current one: the new file is missing and the legacy one exists.
pub fn should_migrate_legacy(new_exists: bool, legacy_exists: bool) -> (res: bool)
    ensures
        res == (!new_exists && legacy_exists),
{
    !new_exists && legacy_exists
}

/// The snapshot shown to the user interface: the loaded configuration and the
/// actual "start with the OS" state.
pub fn config_dto(config: AppConfig, autostart: bool) -> (res: ConfigDto)
    ensures
        res.tc@ == config.creds.tc@,
        res.password@ == config.creds.password@,
        res.language@ == config.language_code@,
        res.autostart == autostart,
{
    ConfigDto {
        tc: config.creds.tc,
        password: config.creds.password,
        language: config.language_code,
        autostart,
    }
}

/// No line break in `s`.
pub open spec fn single_line(s: Seq<char>) -> bool {
    forall|j: int| 0 <= j < s.len() ==> s[j] != '\n'
}

proof fn lemma_names()
    ensures
        is_plain_name(CREDENTIALS_SECTION@),
        is_plain_name(SETTINGS_SECTION@),
        is_plain_name(ENCRYPTED_KEY@),
        is_plain_name(TC_KEY@),
        is_plain_name(PASSWORD_KEY@),
        is_plain_name(LANGUAGE_KEY@),
        is_plain_name(AUTOSTART_KEY@),
        forall|j: int| 0 <= j < CREDENTIALS_SECTION@.len() ==> CREDENTIALS_SECTION@[j] != ']',
        forall|j: int| 0 <= j < SETTINGS_SECTION@.len() ==> SETTINGS_SECTION@[j] != ']',
        !eq_ignore_ascii_case(CREDENTIALS_SECTION@, SETTINGS_SECTION@),
        !eq_ignore_ascii_case(SETTINGS_SECTION@, CREDENTIALS_SECTION@),
        !eq_ignore_ascii_case(ENCRYPTED_KEY@, TC_KEY@),
        !eq_ignore_ascii_case(ENCRYPTED_KEY@, PASSWORD_KEY@),
        !eq_ignore_ascii_case(TC_KEY@, PASSWORD_KEY@),
        !eq_ignore_ascii_case(LANGUAGE_KEY@, AUTOSTART_KEY@),
{
    reveal_strlit("Credentials");
    reveal_strlit("Settings");
    reveal_strlit("ENCRYPTED");
    reveal_strlit("TC_KIMLIK");
    reveal_strlit("SIFRE");
    reveal_strlit("LANGUAGE");
    reveal_strlit("AUTOSTART");
    assert(ENCRYPTED_KEY@[0] != TC_KEY@[0]);
}

/// Where each line of a rendered config file starts.
proof fn lemma_rendered_layout(
    marker: Seq<char>,
    tc: Seq<char>,
    password: Seq<char>,
    language_code: Seq<char>,
    autostart: bool,
)
    ensures
        ({
            let nl = seq!['\n'];
            let eq = seq![' ', '=', ' '];
            rendered(marker, tc, password, language_code, autostart) == seq!['['] + CREDENTIALS_SECTION@
                + seq![']'] + nl + (ENCRYPTED_KEY@ + eq + marker + nl + (TC_KEY@ + eq + tc + nl + (
            PASSWORD_KEY@ + eq + password + nl + (nl + (seq!['['] + SETTINGS_SECTION@ + seq![']'] + nl
                + (LANGUAGE_KEY@ + eq + trim(language_code) + nl + (AUTOSTART_KEY@ + eq + flag_text(
                autostart,
            ) + nl + seq![])))))))
        }),
{
    reveal_strlit("[");
    reveal_strlit("]\n");
    reveal_strlit(" = ");
    reveal_strlit("\n");
    let nl = seq!['\n'];
    let eq = seq![' ', '=', ' '];
    assert(rendered(marker, tc, password, language_code, autostart) =~= seq!['['] + CREDENTIALS_SECTION@
        + seq![']'] + nl + (ENCRYPTED_KEY@ + eq + marker + nl + (TC_KEY@ + eq + tc + nl + (
    PASSWORD_KEY@ + eq + password + nl + (nl + (seq!['['] + SETTINGS_SECTION@ + seq![']'] + nl + (
    LANGUAGE_KEY@ + eq + trim(language_code) + nl + (AUTOSTART_KEY@ + eq + flag_text(autostart) + nl
        + seq![]))))))));
}

/// Reading any key of any section from a rendered config file.
proof fn lemma_rendered_scan(
    marker: Seq<char>,
    tc: Seq<char>,
    password: Seq<char>,
    language_code: Seq<char>,
    autostart: bool,
    section: Seq<char>,
    key: Seq<char>,
)
    requires
        single_line(marker),
        single_line(tc),
        single_line(password),
        single_line(language_code),
    ensures
        ({
            let cred = eq_ignore_ascii_case(CREDENTIALS_SECTION@, section);
            let set = eq_ignore_ascii_case(SETTINGS_SECTION@, section);
            ini_value(rendered(marker, tc, password, language_code, autostart), section, key) == if cred
                && eq_ignore_ascii_case(ENCRYPTED_KEY@, key) {
                Some(trim(marker))
            } else if cred && eq_ignore_ascii_case(TC_KEY@, key) {
                Some(trim(tc))
            } else if cred && eq_ignore_ascii_case(PASSWORD_KEY@, key) {
                Some(trim(password))
            } else if set && eq_ignore_ascii_case(LANGUAGE_KEY@, key) {
                Some(trim(trim(language_code)))
            } else if set && eq_ignore_ascii_case(AUTOSTART_KEY@, key) {
                Some(trim(flag_text(autostart)))
            } else {
                None
            }
        }),
{
    lemma_names();
    lemma_rendered_layout(marker, tc, password, language_code, autostart);
    reveal_strlit("1");
    reveal_strlit("0");
    let nl = seq!['\n'];
    let eq = seq![' ', '=', ' '];
    let cred = eq_ignore_ascii_case(CREDENTIALS_SECTION@, section);
    let set = eq_ignore_ascii_case(SETTINGS_SECTION@, section);
    let f = flag_text(autostart);
    let l = trim(language_code);
    lemma_trim_within(language_code, '\n');
    let r8: Seq<char> = seq![];
    let r7 = AUTOSTART_KEY@ + eq + f + nl + r8;
    let r6 = LANGUAGE_KEY@ + eq + l + nl + r7;
    let r5 = seq!['['] + SETTINGS_SECTION@ + seq![']'] + nl + r6;
    let r4 = nl + r5;
    let r3 = PASSWORD_KEY@ + eq + password + nl + r4;
    let r2 = TC_KEY@ + eq + tc + nl + r3;
    let r1 = ENCRYPTED_KEY@ + eq + marker + nl + r2;
    lemma_scan_empty(section, key, set);
    lemma_scan_kv(AUTOSTART_KEY@, f, r8, section, key, set);
    lemma_scan_kv(LANGUAGE_KEY@, l, r7, section, key, set);
    lemma_scan_header(SETTINGS_SECTION@, r6, section, key, cred);
    lemma_scan_blank(r5, section, key, cred);
    lemma_scan_kv(PASSWORD_KEY@, password, r4, section, key, cred);
    lemma_scan_kv(TC_KEY@, tc, r3, section, key, cred);
    lemma_scan_kv(ENCRYPTED_KEY@, marker, r2, section, key, cred);
    lemma_scan_header(CREDENTIALS_SECTION@, r1, section, key, false);
}

/// A rendered config file reads back the values it was rendered from: the
/// trimmed marker and credential fields, the trimmed language code and the
/// `AUTOSTART` flag (values must each fit on one line).
pub proof fn rendered_reads_back(
    marker: Seq<char>,
    tc: Seq<char>,
    password: Seq<char>,
    language_code: Seq<char>,
    autostart: bool,
)
    requires
        single_line(marker),
        single_line(tc),
        single_line(password),
        single_line(language_code),
    ensures
        ({
            let text = rendered(marker, tc, password, language_code, autostart);
            &&& ini_value(text, CREDENTIALS_SECTION@, ENCRYPTED_KEY@) == Some(trim(marker))
            &&& ini_value(text, CREDENTIALS_SECTION@, TC_KEY@) == Some(trim(tc))
            &&& ini_value(text, CREDENTIALS_SECTION@, PASSWORD_KEY@) == Some(trim(password))
            &&& ini_value(text, SETTINGS_SECTION@, LANGUAGE_KEY@) == Some(trim(language_code))
            &&& ini_value(text, SETTINGS_SECTION@, AUTOSTART_KEY@) == Some(flag_text(autostart))
            &&& stored_autostart(text) == autostart
        }),
{
    lemma_names();
    reveal_strlit("1");
    reveal_strlit("0");
    lemma_trim_idempotent(language_code);
    crate::text::lemma_trim_fixed(flag_text(autostart));
    let c = CREDENTIALS_SECTION@;
    let st = SETTINGS_SECTION@;
    assert(eq_ignore_ascii_case(c, c));
    assert(eq_ignore_ascii_case(st, st));
    assert(eq_ignore_ascii_case(ENCRYPTED_KEY@, ENCRYPTED_KEY@));
    assert(eq_ignore_ascii_case(TC_KEY@, TC_KEY@));
    assert(eq_ignore_ascii_case(PASSWORD_KEY@, PASSWORD_KEY@));
    assert(eq_ignore_ascii_case(LANGUAGE_KEY@, LANGUAGE_KEY@));
    assert(eq_ignore_ascii_case(AUTOSTART_KEY@, AUTOSTART_KEY@));
    lemma_rendered_scan(marker, tc, password, language_code, autostart, c, ENCRYPTED_KEY@);
    lemma_rendered_scan(marker, tc, password, language_code, autostart, c, TC_KEY@);
    lemma_rendered_scan(marker, tc, password, language_code, autostart, c, PASSWORD_KEY@);
    lemma_rendered_scan(marker, tc, password, language_code, autostart, st, LANGUAGE_KEY@);
    lemma_rendered_scan(marker, tc, password, language_code, autostart, st, AUTOSTART_KEY@);
    crate::text::lemma_trim_fixed(trim(flag_text(autostart)));
}

proof fn lemma_protected_field(x: Seq<char>)
    ensures
        single_line(protected(x)),
        trim(protected(x)) == protected(x),
        decrypted(protected(x)) == x,
{
    protected_is_plain(x);
    protect_round_trip(x);
    let p = protected(x);
    assert forall|j: int| 0 <= j < p.len() implies p[j] != '\n' by {
        assert(!crate::text::is_white_space(p[j]));
    }
    if p.len() > 0 {
        assert(!crate::text::is_white_space(p[0]));
        assert(!crate::text::is_white_space(p[p.len() - 1]));
    }
    crate::text::lemma_trim_fixed(p);
}

/// The language that loading shows after saving `language_code`.
pub open spec fn language_after_save(language_code: Seq<char>) -> Seq<char> {
    if trim(language_code).len() > 0 {
        trim(language_code)
    } else {
        DEFAULT_LANGUAGE_CODE@
    }
}

/// What saving writes loads back: the trimmed credentials (empty when they
/// are a placeholder), the saved language (the default when it is blank) and
/// the saved `AUTOSTART` flag; loading asks for no rewrite unless the saved
/// language is blank.
pub proof fn saved_config_loads_back(tc: Seq<char>, password: Seq<char>, language_code: Seq<char>, autostart: bool)
    requires
        single_line(language_code),
    ensures
        ({
            let text = rendered(
                marker_text(true),
                protected(trim(tc)),
                protected(trim(password)),
                language_code,
                autostart,
            );
            let loaded_tc = loaded_field(
                text,
                TC_KEY@,
                decrypted(stored_value(text, CREDENTIALS_SECTION@, TC_KEY@)),
                TC_PLACEHOLDER@,
            );
            let loaded_password = loaded_field(
                text,
                PASSWORD_KEY@,
                decrypted(stored_value(text, CREDENTIALS_SECTION@, PASSWORD_KEY@)),
                PASSWORD_PLACEHOLDER@,
            );
            &&& marked_encrypted(text)
            &&& loaded_tc == usable(trim(tc), TC_PLACEHOLDER@)
            &&& loaded_password == usable(trim(password), PASSWORD_PLACEHOLDER@)
            &&& effective_language(text) == language_after_save(language_code)
            &&& stored_autostart(text) == autostart
            &&& rewrite_needed(text, loaded_tc, loaded_password, ENCRYPTION_ACTIVE) == (trim(
                language_code,
            ).len() == 0)
        }),
{
    reveal_strlit("1");
    lemma_trim_idempotent(language_code);
    lemma_protected_field(trim(tc));
    lemma_protected_field(trim(password));
    crate::text::lemma_trim_fixed(marker_text(true));
    rendered_reads_back(marker_text(true), protected(trim(tc)), protected(trim(password)), language_code, autostart);
}

proof fn lemma_stored_value_plain(contents: Seq<char>, section: Seq<char>, key: Seq<char>)
    ensures
        single_line(stored_value(contents, section, key)),
        trim(stored_value(contents, section, key)) == stored_value(contents, section, key),
{
    crate::ini::lemma_scan_result(contents, section, key, false);
    if ini_value(contents, section, key) is None {
        let empty: Seq<char> = seq![];
        assert(crate::text::trim_end(empty) == empty && crate::text::trim_start(empty) == empty);
    }
}

proof fn lemma_kept_marker_plain(contents: Seq<char>, encryption_active: bool)
    ensures
        single_line(kept_marker(contents, encryption_active)),
        trim(kept_marker(contents, encryption_active)) == kept_marker(contents, encryption_active),
        ini_value(contents, CREDENTIALS_SECTION@, ENCRYPTED_KEY@) is Some ==> (flag_set(
            contents,
            CREDENTIALS_SECTION@,
            ENCRYPTED_KEY@,
        ) <==> trim(kept_marker(contents, encryption_active)) == "1"@),
{
    reveal_strlit("0");
    reveal_strlit("1");
    crate::ini::lemma_scan_result(contents, CREDENTIALS_SECTION@, ENCRYPTED_KEY@, false);
    crate::text::lemma_trim_fixed(marker_text(encryption_active));
}

/// Changing the language keeps the stored credentials and marker verbatim
/// (a missing marker becomes the one for this build) and the `AUTOSTART`
/// flag; the new language is the trimmed code.
pub proof fn language_update_keeps_the_rest(contents: Seq<char>, language_code: Seq<char>, encryption_active: bool)
    requires
        single_line(language_code),
    ensures
        ({
            let text = rendered(
                kept_marker(contents, encryption_active),
                stored_value(contents, CREDENTIALS_SECTION@, TC_KEY@),
                stored_value(contents, CREDENTIALS_SECTION@, PASSWORD_KEY@),
                language_code,
                stored_autostart(contents),
            );
            &&& ini_value(text, CREDENTIALS_SECTION@, ENCRYPTED_KEY@) == Some(
                kept_marker(contents, encryption_active),
            )
            &&& stored_value(text, CREDENTIALS_SECTION@, TC_KEY@) == stored_value(
                contents,
                CREDENTIALS_SECTION@,
                TC_KEY@,
            )
            &&& stored_value(text, CREDENTIALS_SECTION@, PASSWORD_KEY@) == stored_value(
                contents,
                CREDENTIALS_SECTION@,
                PASSWORD_KEY@,
            )
            &&& ini_value(contents, CREDENTIALS_SECTION@, ENCRYPTED_KEY@) is Some ==> marked_encrypted(
                text,
            ) == marked_encrypted(contents)
            &&& stored_autostart(text) == stored_autostart(contents)
            &&& effective_language(text) == language_after_save(language_code)
        }),
{
    lemma_trim_idempotent(language_code);
    lemma_stored_value_plain(contents, CREDENTIALS_SECTION@, TC_KEY@);
    lemma_stored_value_plain(contents, CREDENTIALS_SECTION@, PASSWORD_KEY@);
    lemma_kept_marker_plain(contents, encryption_active);
    rendered_reads_back(
        kept_marker(contents, encryption_active),
        stored_value(contents, CREDENTIALS_SECTION@, TC_KEY@),
        stored_value(contents, CREDENTIALS_SECTION@, PASSWORD_KEY@),
        language_code,
        stored_autostart(contents),
    );
}

/// Changing the `AUTOSTART` flag keeps the stored credentials and marker
/// verbatim (a missing marker becomes the one for this build) and the
/// language in effect.
pub proof fn autostart_update_keeps_the_rest(contents: Seq<char>, autostart: bool, encryption_active: bool)
    ensures
        ({
            let text = rendered(
                kept_marker(contents, encryption_active),
                stored_value(contents, CREDENTIALS_SECTION@, TC_KEY@),
                stored_value(contents, CREDENTIALS_SECTION@, PASSWORD_KEY@),
                effective_language(contents),
                autostart,
            );
            &&& ini_value(text, CREDENTIALS_SECTION@, ENCRYPTED_KEY@) == Some(
                kept_marker(contents, encryption_active),
            )
            &&& stored_value(text, CREDENTIALS_SECTION@, TC_KEY@) == stored_value(
                contents,
                CREDENTIALS_SECTION@,
                TC_KEY@,
            )
            &&& stored_value(text, CREDENTIALS_SECTION@, PASSWORD_KEY@) == stored_value(
                contents,
                CREDENTIALS_SECTION@,
                PASSWORD_KEY@,
            )
            &&& ini_value(contents, CREDENTIALS_SECTION@, ENCRYPTED_KEY@) is Some ==> marked_encrypted(
                text,
            ) == marked_encrypted(contents)
            &&& stored_autostart(text) == autostart
            &&& effective_language(text) == effective_language(contents)
        }),
{
    reveal_strlit("tr");
    lemma_stored_value_plain(contents, CREDENTIALS_SECTION@, TC_KEY@);
    lemma_stored_value_plain(contents, CREDENTIALS_SECTION@, PASSWORD_KEY@);
    lemma_kept_marker_plain(contents, encryption_active);
    let lang = effective_language(contents);
    crate::ini::lemma_scan_result(contents, SETTINGS_SECTION@, LANGUAGE_KEY@, false);
    if let Some(v) = ini_value(contents, SETTINGS_SECTION@, LANGUAGE_KEY@) {
        lemma_trim_within(v, '\n');
        lemma_trim_idempotent(v);
    }
    assert(single_line(lang));
    crate::text::lemma_trim_fixed(DEFAULT_LANGUAGE_CODE@);
    lemma_trim_idempotent(lang);
    rendered_reads_back(
        kept_marker(contents, encryption_active),
        stored_value(contents, CREDENTIALS_SECTION@, TC_KEY@),
        stored_value(contents, CREDENTIALS_SECTION@, PASSWORD_KEY@),
        lang,
        autostart,
    );
}

} // verus!
