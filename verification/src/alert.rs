//! A dismissible alert banner: its message, severity and auto-dismiss
//! timing. Time is given in milliseconds on a monotonic clock read by the
//! caller.

use vstd::prelude::*;

verus! {

/// Severity of an [`Alert`], selecting its accent color.
#[derive(Clone, Copy, PartialEq, Eq, Debug, Structural)]
pub enum AlertKind {
    Info,
    Success,
    Warning,
    Error,
}

/// The accent color (red, green, blue) of a severity.
pub open spec fn accent_rgb(kind: AlertKind) -> (u8, u8, u8) {
    match kind {
        AlertKind::Info => (0x2F, 0x7E, 0xF0),
        AlertKind::Success => (0x37, 0xB6, 0x5A),
        AlertKind::Warning => (0xE0, 0x8A, 0x1E),
        AlertKind::Error => (0xE5, 0x53, 0x53),
    }
}

impl AlertKind {
    /// Accent color used for the banner border and its tinted background.
    pub fn accent(self) -> (res: (u8, u8, u8))
        ensures
            res == accent_rgb(self),
    {
        match self {
            AlertKind::Info => (0x2F, 0x7E, 0xF0),
            AlertKind::Success => (0x37, 0xB6, 0x5A),
            AlertKind::Warning => (0xE0, 0x8A, 0x1E),
            AlertKind::Error => (0xE5, 0x53, 0x53),
        }
    }
}

/// A dismissible banner.
pub struct Alert {
    message: String,
    kind: AlertKind,
    created_ms: u64,
    auto_dismiss_ms: Option<u64>,
}

/// Milliseconds from `created` to `now` (zero if the clock reads earlier).
pub open spec fn elapsed_ms(created: u64, now: u64) -> int {
    if now >= created {
        now - created
    } else {
        0
    }
}

impl Alert {
    /// The message text.
    pub closed spec fn message_view(&self) -> Seq<char> {
        self.message@
    }

    /// The severity.
    pub closed spec fn kind_view(&self) -> AlertKind {
        self.kind
    }

    /// When the alert was created.
    pub closed spec fn created_view(&self) -> u64 {
        self.created_ms
    }

    /// After how long the alert removes itself, if it does.
    pub closed spec fn auto_dismiss_view(&self) -> Option<u64> {
        self.auto_dismiss_ms
    }

    /// Whether the alert has expired at `now`.
    pub open spec fn expired_at(&self, now: u64) -> bool {
        match self.auto_dismiss_view() {
            Some(d) => elapsed_ms(self.created_view(), now) >= d,
            None => false,
        }
    }

    /// Creates an alert at time `now_ms`. `auto_dismiss_ms = Some(d)` makes a
    /// banner that expires `d` milliseconds later; `None` one that stays
    /// until it is closed.
    pub fn new(message: String, kind: AlertKind, auto_dismiss_ms: Option<u64>, now_ms: u64) -> (res: Self)
        ensures
            res.message_view() == message@,
            res.kind_view() == kind,
            res.created_view() == now_ms,
            res.auto_dismiss_view() == auto_dismiss_ms,
    {
        Alert { message, kind, created_ms: now_ms, auto_dismiss_ms }
    }

    /// The message text.
    pub fn message(&self) -> (res: &str)
        ensures
            res@ == self.message_view(),
    {
        self.message.as_str()
    }

    /// The severity.
    pub fn kind(&self) -> (res: AlertKind)
        ensures
            res == self.kind_view(),
    {
        self.kind
    }

    /// True once an auto-dismiss duration has elapsed at `now_ms`.
    pub fn is_expired(&self, now_ms: u64) -> (res: bool)
        ensures
            res == self.expired_at(now_ms),
    {
        match self.auto_dismiss_ms {
            Some(d) => {
                let elapsed = if now_ms >= self.created_ms { now_ms - self.created_ms } else { 0 };
                elapsed >= d
            },
            None => false,
        }
    }

    /// For an auto-dismissing alert, the time left until it expires at
    /// `now_ms` (zero once expired): when the banner must be redrawn.
    pub fn remaining_ms(&self, now_ms: u64) -> (res: Option<u64>)
        ensures
            match self.auto_dismiss_view() {
                Some(d) => res == Some(
                    (if d >= elapsed_ms(self.created_view(), now_ms) {
                        d - elapsed_ms(self.created_view(), now_ms)
                    } else {
                        0
                    }) as u64,
                ),
                None => res is None,
            },
    {
        match self.auto_dismiss_ms {
            Some(d) => {
                let elapsed = if now_ms >= self.created_ms { now_ms - self.created_ms } else { 0 };
                Some(if d >= elapsed { d - elapsed } else { 0 })
            },
            None => None,
        }
    }
}

/// Once an alert has expired it stays expired, and an alert without
/// auto-dismiss never expires.
pub proof fn expiry_is_final(alert: Alert, earlier: u64, later: u64)
    requires
        earlier <= later,
    ensures
        alert.expired_at(earlier) ==> alert.expired_at(later),
        alert.auto_dismiss_view() is None ==> !alert.expired_at(later),
{
}

} // verus!
