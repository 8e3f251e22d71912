//! The window's state and the decisions behind its controls, apart from the
//! drawing: checking the credentials before a login, the log, the results a
//! worker reports, the auto-start toggle, saving, and the log panel.
//!
//! The shell draws the state, performs the outside work a control asks for
//! (starting a worker, writing the registry or the config file) and hands the
//! outcome back to the methods here.

use vstd::prelude::*;
use crate::alert::{Alert, AlertKind};
use crate::config::{trimmed_credentials, Credentials};
use crate::i18n::{format_log, formatted, t, translated, Language};
use crate::login::LogMsg;
use crate::text::{replace_all, replaced, trim};

verus! {

/// How long the "fill in your credentials" alert stays up, in milliseconds.
pub const CREDENTIALS_ALERT_MS: u64 = 4000;

/// The page shown in the central panel.
#[derive(Debug, Clone, Copy, PartialEq, Eq, Structural)]
pub enum Nav {
    Home,
    Settings,
    About,
}

/// The Home action in progress, whose button shows a spinner.
#[derive(Debug, Clone, Copy, PartialEq, Eq, Structural)]
pub enum HomeAction {
    Connect,
    ConnectWarp,
}

/// What a worker reports back to the window.
pub enum WorkerMsg {
    /// A progress event to translate and append to the log.
    Status(LogMsg),
    /// The final login result.
    LoginResult(bool),
    /// The final WARP result.
    WarpResult(bool),
    /// The worker has finished.
    Done,
}

/// The window's state.
pub struct GuiState {
    pub nav: Nav,
    pub language: Language,
    pub tc: String,
    pub password: String,
    pub log: String,
    /// Whether the log panel is expanded.
    pub log_visible: bool,
    /// Whether "start with the OS" is on.
    pub autostart: bool,
    /// Whether a worker is running (the action buttons are disabled).
    pub is_busy: bool,
    pub running: Option<HomeAction>,
    pub login_ok: bool,
    pub warp_ok: bool,
    pub alert: Option<Alert>,
}

/// Whether both credential fields hold something besides whitespace.
pub open spec fn credentials_complete(tc: Seq<char>, password: Seq<char>) -> bool {
    trim(tc).len() > 0 && trim(password).len() > 0
}

impl GuiState {
    /// The form: language and credential fields.
    pub open spec fn same_form(self, other: Self) -> bool {
        &&& self.language == other.language
        &&& self.tc@ == other.tc@
        &&& self.password@ == other.password@
    }

    /// The progress of the current work and its results.
    pub open spec fn same_status(self, other: Self) -> bool {
        &&& self.is_busy == other.is_busy
        &&& self.running == other.running
        &&& self.login_ok == other.login_ok
        &&& self.warp_ok == other.warp_ok
    }

    /// Everything but the log.
    pub open spec fn same_but_log(self, other: Self) -> bool {
        &&& self.same_form(other)
        &&& self.same_status(other)
        &&& self.nav == other.nav
        &&& self.log_visible == other.log_visible
        &&& self.autostart == other.autostart
        &&& self.alert == other.alert
    }

    /// Everything.
    pub open spec fn same_as(self, other: Self) -> bool {
        self.same_but_log(other) && self.log@ == other.log@
    }

    /// The state at startup: the loaded credentials and language, the actual
    /// auto-start state, the Home page, an empty expanded log, no work and
    /// both indicators off.
    pub fn new(creds: Credentials, language: Language, autostart: bool) -> (res: Self)
        ensures
            res.nav == Nav::Home,
            res.language == language,
            res.tc@ == creds.tc@,
            res.password@ == creds.password@,
            res.log@.len() == 0,
            res.log_visible,
            res.autostart == autostart,
            !res.is_busy,
            res.running is None,
            !res.login_ok,
            !res.warp_ok,
            res.alert is None,
    {
        GuiState {
            nav: Nav::Home,
            language,
            tc: creds.tc,
            password: creds.password,
            log: String::new(),
            log_visible: true,
            autostart,
            is_busy: false,
            running: None,
            login_ok: false,
            warp_ok: false,
            alert: None,
        }
    }

    /// Appends a line to the log.
    pub fn append_log(&mut self, line: &str)
        ensures
            final(self).log@ == old(self).log@ + line@ + "\n"@,
            final(self).same_but_log(*old(self)),
    {
        self.log.append(line);
        self.log.append("\n");
    }

    /// The trimmed credentials when both are filled in. Otherwise the log
    /// gets a hint, the Settings page (where the fields are) is shown and a
    /// warning alert is raised at `now_ms` for [`CREDENTIALS_ALERT_MS`].
    pub fn validated_credentials(&mut self, now_ms: u64) -> (res: Option<Credentials>)
        ensures
            credentials_complete(old(self).tc@, old(self).password@) ==> {
                &&& res matches Some(c) && c.tc@ == trim(old(self).tc@) && c.password@ == trim(
                    old(self).password@,
                )
                &&& final(self).same_as(*old(self))
            },
            !credentials_complete(old(self).tc@, old(self).password@) ==> {
                &&& res is None
                &&& final(self).log@ == old(self).log@ + translated(
                    old(self).language,
                    "log_credentials_empty_hint"@,
                ) + "\n"@
                &&& final(self).nav == Nav::Settings
                &&& final(self).alert matches Some(a) && a.message_view() == translated(
                    old(self).language,
                    "alert_fill_credentials"@,
                ) && a.kind_view() == AlertKind::Warning && a.created_view() == now_ms
                    && a.auto_dismiss_view() == Some(CREDENTIALS_ALERT_MS)
                &&& final(self).same_form(*old(self))
                &&& final(self).same_status(*old(self))
                &&& final(self).log_visible == old(self).log_visible
                &&& final(self).autostart == old(self).autostart
            },
    {
        let creds = trimmed_credentials(&Credentials { tc: self.tc.clone(), password: self.password.clone() });
        if creds.tc.as_str().is_empty() || creds.password.as_str().is_empty() {
            let hint = t(self.language, "log_credentials_empty_hint");
            self.append_log(hint);
            self.nav = Nav::Settings;
            let message = String::from_str(t(self.language, "alert_fill_credentials"));
            self.alert = Some(Alert::new(message, AlertKind::Warning, Some(CREDENTIALS_ALERT_MS), now_ms));
            None
        } else {
            Some(creds)
        }
    }

    /// Takes in what a worker reported: a progress event becomes a log line
    /// in the current language, a result sets its indicator, and the end of
    /// the work re-enables the actions.
    pub fn apply_worker_msg(&mut self, msg: WorkerMsg)
        ensures
            match msg {
                WorkerMsg::Status(event) => {
                    &&& final(self).log@ == old(self).log@ + formatted(old(self).language, event) + "\n"@
                    &&& final(self).same_but_log(*old(self))
                },
                WorkerMsg::LoginResult(ok) => {
                    &&& final(self).login_ok == ok
                    &&& final(self).warp_ok == old(self).warp_ok
                    &&& final(self).is_busy == old(self).is_busy
                    &&& final(self).running == old(self).running
                    &&& final(self).log@ == old(self).log@
                },
                WorkerMsg::WarpResult(ok) => {
                    &&& final(self).warp_ok == ok
                    &&& final(self).login_ok == old(self).login_ok
                    &&& final(self).is_busy == old(self).is_busy
                    &&& final(self).running == old(self).running
                    &&& final(self).log@ == old(self).log@
                },
                WorkerMsg::Done => {
                    &&& !final(self).is_busy
                    &&& final(self).running is None
                    &&& final(self).login_ok == old(self).login_ok
                    &&& final(self).warp_ok == old(self).warp_ok
                    &&& final(self).log@ == old(self).log@
                },
            },
            final(self).same_form(*old(self)),
            final(self).nav == old(self).nav,
            final(self).log_visible == old(self).log_visible,
            final(self).autostart == old(self).autostart,
            final(self).alert == old(self).alert,
    {
        match msg {
            WorkerMsg::Status(event) => {
                let line = format_log(self.language, event);
                self.append_log(line.as_str());
            },
            WorkerMsg::LoginResult(ok) => {
                self.login_ok = ok;
            },
            WorkerMsg::WarpResult(ok) => {
                self.warp_ok = ok;
            },
            WorkerMsg::Done => {
                self.is_busy = false;
                self.running = None;
            },
        }
    }

    /// The auto-start entry was written or removed as asked: the toggle
    /// takes the new value and the log says which.
    pub fn autostart_applied(&mut self, enabled: bool)
        ensures
            final(self).autostart == enabled,
            final(self).log@ == old(self).log@ + translated(
                old(self).language,
                if enabled {
                    "log_autostart_enabled"@
                } else {
                    "log_autostart_disabled"@
                },
            ) + "\n"@,
            final(self).same_form(*old(self)),
            final(self).same_status(*old(self)),
            final(self).nav == old(self).nav,
            final(self).log_visible == old(self).log_visible,
            final(self).alert == old(self).alert,
    {
        self.autostart = enabled;
        let line = if enabled {
            t(self.language, "log_autostart_enabled")
        } else {
            t(self.language, "log_autostart_disabled")
        };
        self.append_log(line);
    }

    /// Changing the auto-start entry failed with `error`: the toggle shows
    /// the `actual` state read back, and the log gives the error.
    pub fn autostart_failed(&mut self, error: &str, actual: bool)
        ensures
            final(self).autostart == actual,
            final(self).log@ == old(self).log@ + replaced(
                translated(old(self).language, "log_autostart_failed"@),
                "{e}"@,
                error@,
            ) + "\n"@,
            final(self).same_form(*old(self)),
            final(self).same_status(*old(self)),
            final(self).nav == old(self).nav,
            final(self).log_visible == old(self).log_visible,
            final(self).alert == old(self).alert,
    {
        proof {
            reveal_strlit("{e}");
        }
        self.autostart = actual;
        let line = replace_all(t(self.language, "log_autostart_failed"), "{e}", error);
        self.append_log(line.as_str());
    }

    /// The credentials that Save writes: the fields, trimmed.
    pub fn credentials_to_save(&self) -> (res: Credentials)
        ensures
            res.tc@ == trim(self.tc@),
            res.password@ == trim(self.password@),
    {
        trimmed_credentials(&Credentials { tc: self.tc.clone(), password: self.password.clone() })
    }

    /// Saving succeeded: the log names where the file is.
    pub fn credentials_saved(&mut self, location: &str)
        ensures
            final(self).log@ == old(self).log@ + replaced(
                translated(old(self).language, "log_credentials_saved"@),
                "{path}"@,
                location@,
            ) + "\n"@,
            final(self).same_but_log(*old(self)),
    {
        proof {
            reveal_strlit("{path}");
        }
        let line = replace_all(t(self.language, "log_credentials_saved"), "{path}", location);
        self.append_log(line.as_str());
    }

    /// Saving failed with `error`: the log gives it.
    pub fn credentials_save_failed(&mut self, error: &str)
        ensures
            final(self).log@ == old(self).log@ + replaced(
                translated(old(self).language, "log_credentials_save_failed"@),
                "{e}"@,
                error@,
            ) + "\n"@,
            final(self).same_but_log(*old(self)),
    {
        proof {
            reveal_strlit("{e}");
        }
        let line = replace_all(t(self.language, "log_credentials_save_failed"), "{e}", error);
        self.append_log(line.as_str());
    }

    /// A WARP check starts: the log says so and the actions are disabled.
    pub fn begin_warp_check(&mut self)
        ensures
            final(self).log@ == old(self).log@ + translated(old(self).language, "log_checking_warp"@)
                + "\n"@,
            final(self).is_busy,
            final(self).running == old(self).running,
            final(self).login_ok == old(self).login_ok,
            final(self).warp_ok == old(self).warp_ok,
            final(self).same_form(*old(self)),
            final(self).nav == old(self).nav,
            final(self).log_visible == old(self).log_visible,
            final(self).autostart == old(self).autostart,
            final(self).alert == old(self).alert,
    {
        let line = t(self.language, "log_checking_warp");
        self.append_log(line);
        self.is_busy = true;
    }

    /// Picks the display language; says whether it changed (the shell then
    /// saves it and retitles the window).
    pub fn select_language(&mut self, language: Language) -> (changed: bool)
        ensures
            changed == (language != old(self).language),
            final(self).language == language,
            final(self).tc@ == old(self).tc@,
            final(self).password@ == old(self).password@,
            final(self).same_status(*old(self)),
            final(self).log@ == old(self).log@,
            final(self).nav == old(self).nav,
            final(self).log_visible == old(self).log_visible,
            final(self).autostart == old(self).autostart,
            final(self).alert == old(self).alert,
    {
        let changed = match (self.language, language) {
            (Language::Turkish, Language::Turkish) => false,
            (Language::English, Language::English) => false,
            _ => true,
        };
        self.language = language;
        changed
    }

    /// Expands or collapses the log panel.
    pub fn toggle_log_panel(&mut self)
        ensures
            final(self).log_visible == !old(self).log_visible,
            final(self).same_form(*old(self)),
            final(self).same_status(*old(self)),
            final(self).log@ == old(self).log@,
            final(self).nav == old(self).nav,
            final(self).autostart == old(self).autostart,
            final(self).alert == old(self).alert,
    {
        self.log_visible = !self.log_visible;
    }

    /// Empties the log.
    pub fn clear_log(&mut self)
        ensures
            final(self).log@.len() == 0,
            final(self).same_but_log(*old(self)),
    {
        self.log = String::new();
    }

    /// Removes the alert once it has expired at `now_ms`.
    pub fn expire_alert(&mut self, now_ms: u64)
        ensures
            final(self).alert == (match old(self).alert {
                Some(a) => if a.expired_at(now_ms) {
                    None
                } else {
                    Some(a)
                },
                None => None,
            }),
            final(self).same_form(*old(self)),
            final(self).same_status(*old(self)),
            final(self).log@ == old(self).log@,
            final(self).nav == old(self).nav,
            final(self).log_visible == old(self).log_visible,
            final(self).autostart == old(self).autostart,
    {
        let expired = match &self.alert {
            Some(a) => a.is_expired(now_ms),
            None => false,
        };
        if expired {
            self.alert = None;
        }
    }
}

} // verus!
