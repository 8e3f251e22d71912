//! The captive-portal login policy: the form body, what counts as a
//! successful response, the bounded retry schedule with capped exponential
//! backoff, and the decisions around a login run and Cloudflare WARP.
//!
//! The shell performs the outside work (HTTP requests, sleeping, running
//! `warp-cli`) and feeds the results to the functions here, which decide what
//! happens next and which progress events to report.

use vstd::prelude::*;
use vstd::arithmetic::power2::{lemma2_to64, lemma_pow2_strictly_increases, pow2};
use vstd::bits::lemma_u64_shl_is_mul;
use vstd::utf8::encode_utf8;
use crate::config::Credentials;
use crate::text::{same_text, chars_of, eq_ignore_ascii_case, push_char, range_eq_ignore_case, trim, trimmed};

verus! {

/// Captive portal login endpoint.
pub const LOGIN_URL: &'static str = "https://wifi.gsb.gov.tr/j_spring_security_check";

/// Browser-like User-Agent so the portal treats the client like a browser.
pub const USER_AGENT: &'static str = "Mozilla/5.0 (Windows NT 10.0; Win64; x64) AppleWebKit/537.36 (KHTML, like Gecko) Chrome/120.0.0.0 Safari/537.36";

/// Text that a successful login page holds (matched up to case).
pub const SUCCESS_MARKER: &'static str = "login successful";

/// Maximum number of login attempts before giving up.
pub const MAX_ATTEMPTS: u32 = 15;

/// Per-request HTTP timeout, in seconds.
pub const REQUEST_TIMEOUT_SECS: u64 = 4;

/// Base delay of the exponential backoff, in milliseconds.
pub const BASE_DELAY_MS: u64 = 300;

/// Cap of the exponential backoff, in milliseconds.
pub const MAX_DELAY_MS: u64 = 3000;

/// Maximum jitter added on top of the backoff delay, in milliseconds.
pub const MAX_JITTER_MS: u64 = 250;

/// A progress/status event of the login and WARP routines.
#[derive(Debug)]
pub enum LogMsg {
    /// The HTTP client could not be built; carries the error text.
    HttpClientBuildFailed(String),
    /// Login succeeded on the given (1-based) attempt number.
    LoggedInOnAttempt(u32),
    /// The server responded but login was not confirmed on this attempt.
    AttemptNotConfirmed(u32),
    /// The request timed out on this attempt.
    AttemptTimeout(u32),
    /// A non-timeout network error occurred on this attempt.
    AttemptNetworkError(u32),
    /// All attempts were exhausted; carries the attempt count.
    GivingUp(u32),
    /// The login was cancelled by the user.
    LoginCancelled,
    /// WARP connected successfully.
    WarpConnected,
    /// `warp-cli connect` ran but failed; carries the trimmed stderr.
    WarpConnectFailed(String),
    /// `warp-cli connect` could not be executed; carries the error text.
    WarpRunFailed(String),
    /// `warp-cli` was not found.
    WarpNotFound,
    /// A platform-specific install command or URL.
    WarpInstallHint(String),
    /// Follow-up instruction shown after the install hint.
    WarpInstallFollowup,
}

/* Form encoding */

/// Bytes that pass through form encoding unchanged.
pub open spec fn is_unreserved(b: u8) -> bool {
    (65 <= b <= 90) || (97 <= b <= 122) || (48 <= b <= 57) || b == 45 || b == 95 || b == 46 || b
        == 126
}

/// Upper-case hexadecimal digit for `d < 16`.
pub open spec fn hex_digit(d: u8) -> char {
    if d < 10 {
        (48 + d) as u8 as char
    } else {
        (55 + d) as u8 as char
    }
}

/// The form encoding of one byte.
pub open spec fn encoded_byte(b: u8) -> Seq<char> {
    if is_unreserved(b) {
        seq![b as char]
    } else {
        seq!['%', hex_digit(b / 16), hex_digit(b % 16)]
    }
}

/// The `application/x-www-form-urlencoded` form of the bytes `b`.
pub open spec fn url_encoded(b: Seq<u8>) -> Seq<char>
    decreases b.len(),
{
    if b.len() == 0 {
        seq![]
    } else {
        url_encoded(b.drop_last()) + encoded_byte(b.last())
    }
}

fn hex_char(d: u8) -> (c: char)
    requires
        d < 16,
    ensures
        c == hex_digit(d),
{
    if d < 10 {
        (48 + d) as char
    } else {
        (55 + d) as char
    }
}

proof fn lemma_url_encoded_safe(b: Seq<u8>)
    ensures
        forall|i: int|
            0 <= i < url_encoded(b).len() ==> #[trigger] url_encoded(b)[i] != '&' && url_encoded(b)[i]
                != '=',
    decreases b.len(),
{
    if b.len() > 0 {
        lemma_url_encoded_safe(b.drop_last());
        let prev = url_encoded(b.drop_last());
        let last = encoded_byte(b.last());
        assert forall|i: int| 0 <= i < url_encoded(b).len() implies #[trigger] url_encoded(b)[i]
            != '&' && url_encoded(b)[i] != '=' by {
            if i < prev.len() {
                assert(url_encoded(b)[i] == prev[i]);
            } else {
                assert(url_encoded(b)[i] == last[i - prev.len()]);
            }
        }
    }
}

/// The characters that a byte may stand for itself as in a form body:
/// ASCII letters and digits, `-`, `_`, `.` and `~`.
pub open spec fn plain_char(c: char) -> bool {
    ||| 'A' <= c <= 'Z'
    ||| 'a' <= c <= 'z'
    ||| '0' <= c <= '9'
    ||| c == '-' || c == '_' || c == '.' || c == '~'
}

/// The upper-case hexadecimal digits, in order of value.
pub open spec fn upper_hex() -> Seq<char> {
    "0123456789ABCDEF"@
}

/// The value of a hexadecimal digit of either case (zero for anything else).
pub open spec fn hex_value(c: char) -> int {
    if '0' <= c <= '9' {
        c as int - '0' as int
    } else if 'A' <= c <= 'F' {
        c as int - 'A' as int + 10
    } else if 'a' <= c <= 'f' {
        c as int - 'a' as int + 10
    } else {
        0
    }
}

/// The bytes a server reads from a form-encoded value, left to right: `%`
/// and two hex digits is the byte of that value, `+` is a space, and any
/// other character is the byte of its code.
pub open spec fn form_decoded(s: Seq<char>) -> Seq<u8>
    decreases s.len(),
{
    if s.len() == 0 {
        seq![]
    } else if s[0] == '%' && s.len() >= 3 {
        seq![(hex_value(s[1]) * 16 + hex_value(s[2])) as u8] + form_decoded(s.skip(3))
    } else if s[0] == '+' {
        seq![32u8] + form_decoded(s.drop_first())
    } else {
        seq![s[0] as u8] + form_decoded(s.drop_first())
    }
}

/// Form encoding works byte by byte: encoding `a` followed by `c` gives the
/// encoding of `a` followed by that of `c`.
pub proof fn url_encoding_concatenates(a: Seq<u8>, c: Seq<u8>)
    ensures
        url_encoded(a + c) == url_encoded(a) + url_encoded(c),
    decreases c.len(),
{
    if c.len() == 0 {
        assert(a + c == a);
        assert(url_encoded(a) + url_encoded(c) == url_encoded(a));
    } else {
        url_encoding_concatenates(a, c.drop_last());
        assert((a + c).drop_last() == a + c.drop_last());
        assert((a + c).last() == c.last());
    }
}

/// A byte is written as itself when it is an ASCII letter or digit, `-`,
/// `_`, `.` or `~`; every other byte (`+`, a space, `%`, `&`, any byte of a
/// non-ASCII character) as `%` and its value in two upper-case hex digits.
pub proof fn url_encoding_of_a_byte(b: u8)
    ensures
        url_encoded(seq![b]) == (if plain_char(b as char) {
            seq![b as char]
        } else {
            seq!['%', upper_hex()[b as int / 16], upper_hex()[b as int % 16]]
        }),
{
    reveal_strlit("0123456789ABCDEF");
    let one: Seq<u8> = seq![b];
    assert(one.drop_last() == Seq::<u8>::empty());
    assert(one.last() == b);
    assert(url_encoded(Seq::<u8>::empty()) == Seq::<char>::empty());
    assert(Seq::<char>::empty() + encoded_byte(b) == encoded_byte(b));
    assert(hex_digit(b / 16) == upper_hex()[b as int / 16]);
    assert(hex_digit(b % 16) == upper_hex()[b as int % 16]);
}

proof fn lemma_hex_round_trip(d: u8)
    requires
        d < 16,
    ensures
        hex_value(hex_digit(d)) == d,
        hex_digit(d) != '%',
        hex_digit(d) != '+',
{
}

/// A server that form-decodes the encoding of some bytes reads back exactly
/// those bytes: a `+` in a password arrives as `+`, not as a space.
pub proof fn url_encoding_decodes_back(b: Seq<u8>)
    ensures
        form_decoded(url_encoded(b)) == b,
    decreases b.len(),
{
    if b.len() > 0 {
        let first = b[0];
        let rest = b.drop_first();
        assert(seq![first] + rest == b);
        url_encoding_concatenates(seq![first], rest);
        let one: Seq<u8> = seq![first];
        assert(one.drop_last() == Seq::<u8>::empty());
        assert(one.last() == first);
        assert(url_encoded(Seq::<u8>::empty()) == Seq::<char>::empty());
        assert(Seq::<char>::empty() + encoded_byte(first) == encoded_byte(first));
        assert(url_encoded(one) == encoded_byte(first));
        url_encoding_decodes_back(rest);
        let s = url_encoded(b);
        let e = encoded_byte(first);
        assert(s == e + url_encoded(rest));
        if is_unreserved(first) {
            assert(s[0] == first as char);
            assert(s.drop_first() == url_encoded(rest));
        } else {
            lemma_hex_round_trip(first / 16);
            lemma_hex_round_trip(first % 16);
            assert(s[0] == '%' && s[1] == hex_digit(first / 16) && s[2] == hex_digit(first % 16));
            assert(s.skip(3) == url_encoded(rest));
        }
    }
}

/// Percent-encodes a string for an `application/x-www-form-urlencoded`
/// body: unreserved bytes pass through, every other byte of the UTF-8 text
/// (a space too) becomes `%XX`. The result holds no `&` or `=`.
pub fn url_encode(input: &str) -> (res: String)
    ensures
        res@ == url_encoded(encode_utf8(input@)),
        forall|i: int| 0 <= i < res@.len() ==> #[trigger] res@[i] != '&' && res@[i] != '=',
{
    let bytes = input.as_bytes();
    let mut out = String::new();
    let mut i: usize = 0;
    while i < bytes.len()
        invariant
            i <= bytes@.len(),
            bytes@ == encode_utf8(input@),
            out@ == url_encoded(bytes@.take(i as int)),
        decreases bytes@.len() - i,
    {
        let byte = bytes[i];
        assert(bytes@.take(i + 1).drop_last() == bytes@.take(i as int));
        if (65 <= byte && byte <= 90) || (97 <= byte && byte <= 122) || (48 <= byte && byte <= 57)
            || byte == 45 || byte == 95 || byte == 46 || byte == 126 {
            push_char(&mut out, byte as char);
        } else {
            push_char(&mut out, '%');
            push_char(&mut out, hex_char(byte / 16));
            push_char(&mut out, hex_char(byte % 16));
        }
        i += 1;
    }
    assert(bytes@.take(bytes@.len() as int) == bytes@);
    proof {
        lemma_url_encoded_safe(bytes@);
    }
    out
}

/// The form body posted to the portal.
pub open spec fn form_body(tc: Seq<char>, password: Seq<char>) -> Seq<char> {
    "j_username="@ + url_encoded(encode_utf8(tc)) + "&j_password="@ + url_encoded(
        encode_utf8(password),
    )
}

/// Builds the login form body from the credentials.
pub fn login_form_body(creds: &Credentials) -> (res: String)
    ensures
        res@ == form_body(creds.tc@, creds.password@),
{
    let mut out = String::from_str("j_username=");
    out.append(url_encode(creds.tc.as_str()).as_str());
    out.append("&j_password=");
    out.append(url_encode(creds.password.as_str()).as_str());
    out
}

/* Response classification */

/// `text` holds `pattern` somewhere, compared up to ASCII case.
pub open spec fn contains_ignore_ascii_case(text: Seq<char>, pattern: Seq<char>) -> bool {
    exists|i: int|
        0 <= i && i + pattern.len() <= text.len() && #[trigger] eq_ignore_ascii_case(
            text.subrange(i, i + pattern.len()),
            pattern,
        )
}

/// Whether a response confirms the login: a redirect (302) that names a
/// location, or a 200 page holding [`SUCCESS_MARKER`] up to case.
pub open spec fn confirms_login(status: u16, has_location: bool, body: Seq<char>) -> bool {
    (status == 302 && has_location) || (status == 200 && contains_ignore_ascii_case(
        body,
        SUCCESS_MARKER@,
    ))
}

/// Whether `text` holds `pattern` up to ASCII case.
pub fn find_ignore_ascii_case(text: &str, pattern: &str) -> (res: bool)
    ensures
        res == contains_ignore_ascii_case(text@, pattern@),
{
    let t = chars_of(text);
    let p = chars_of(pattern);
    if p.len() > t.len() {
        return false;
    }
    let mut i: usize = 0;
    while i <= t.len() - p.len()
        invariant
            t@ == text@,
            p@ == pattern@,
            p@.len() <= t@.len(),
            i <= t@.len() - p@.len() + 1,
            forall|j: int|
                0 <= j < i ==> !#[trigger] eq_ignore_ascii_case(
                    t@.subrange(j, j + p@.len()),
                    p@,
                ),
        decreases t@.len() - i,
    {
        if range_eq_ignore_case(&t, i, i + p.len(), &p) {
            return true;
        }
        i += 1;
    }
    false
}

/// Classifies a portal response; the body is only looked at for a 200
/// response. The marker is compared up to ASCII case. Lower-casing a page
/// turns only ASCII capitals, the Kelvin sign (into `k`) and `İ` (into `i`
/// and a combining dot) into ASCII letters; the marker holds no `k` and its
/// `i` is followed by `n`, so this finds the marker exactly where searching
/// the lower-cased page does.
pub fn response_confirms_login(status: u16, has_location: bool, body: &str) -> (res: bool)
    ensures
        res == confirms_login(status, has_location, body@),
{
    if status == 302 && has_location {
        return true;
    }
    if status == 200 {
        return find_ignore_ascii_case(body, SUCCESS_MARKER);
    }
    false
}

/// A text holds a pattern up to ASCII case wherever a piece of it equals the
/// pattern up to ASCII case: at the start, in the middle or at the very end
/// (`before` and `after` may be empty, so a text equal to the pattern holds
/// it too).
pub proof fn found_wherever_it_stands(
    before: Seq<char>,
    piece: Seq<char>,
    after: Seq<char>,
    pattern: Seq<char>,
)
    requires
        eq_ignore_ascii_case(piece, pattern),
    ensures
        contains_ignore_ascii_case(before + piece + after, pattern),
{
    let text = before + piece + after;
    let at = before.len() as int;
    assert(text.subrange(at, at + pattern.len()) == piece);
    assert(eq_ignore_ascii_case(text.subrange(at, at + pattern.len()), pattern));
}

/// How a portal response is judged: a 302 that names a location confirms
/// the login, a 302 without one does not, a 200 page confirms it wherever it
/// holds "login successful" in any ASCII case, and no other status ever
/// confirms it.
pub proof fn response_judgement(
    status: u16,
    has_location: bool,
    before: Seq<char>,
    piece: Seq<char>,
    after: Seq<char>,
)
    ensures
        confirms_login(302, true, before + piece + after),
        !confirms_login(302, false, before + piece + after),
        eq_ignore_ascii_case(piece, "login successful"@) ==> confirms_login(
            200,
            has_location,
            before + piece + after,
        ),
        status != 200 && status != 302 ==> !confirms_login(status, has_location, before + piece + after),
{
    if eq_ignore_ascii_case(piece, "login successful"@) {
        found_wherever_it_stands(before, piece, after, "login successful"@);
    }
}

/* Backoff */

/// The backoff before the attempt after `attempt`, without jitter:
/// `BASE_DELAY_MS * 2^(attempt - 1)` (the exponent capped at 20), capped at
/// `MAX_DELAY_MS`.
pub open spec fn backoff_base(attempt: u32) -> int {
    let e: nat = if attempt - 1 < 20 { (attempt - 1) as nat } else { 20 };
    let exponential = BASE_DELAY_MS * pow2(e);
    if exponential < MAX_DELAY_MS {
        exponential
    } else {
        MAX_DELAY_MS as int
    }
}

/// The backoff delay in milliseconds after the (1-based) attempt `attempt`:
/// [`backoff_base`] plus a jitter of `clock_sample % (MAX_JITTER_MS + 1)`,
/// where `clock_sample` is a clock reading (its sub-second nanoseconds).
pub fn backoff_delay(attempt: u32, clock_sample: u64) -> (res: u64)
    requires
        attempt >= 1,
    ensures
        res == backoff_base(attempt) + clock_sample % ((MAX_JITTER_MS + 1) as u64),
        BASE_DELAY_MS <= res <= MAX_DELAY_MS + MAX_JITTER_MS,
{
    let shift: u32 = if attempt - 1 < 20 { attempt - 1 } else { 20 };
    proof {
        lemma2_to64();
        if shift < 20 {
            lemma_pow2_strictly_increases(shift as nat, 20);
        }
        lemma_u64_shl_is_mul(1, shift as u64);
        assert(BASE_DELAY_MS * pow2(shift as nat) <= 300 * 1048576) by (nonlinear_arith)
            requires
                pow2(shift as nat) <= 1048576,
        ;
        assert(BASE_DELAY_MS * pow2(shift as nat) >= 300) by (nonlinear_arith)
            requires
                pow2(shift as nat) >= 1,
        ;
    }
    let factor: u64 = 1u64 << (shift as u64);
    let exponential = BASE_DELAY_MS * factor;
    let capped = if exponential < MAX_DELAY_MS { exponential } else { MAX_DELAY_MS };
    let jitter = clock_sample % (MAX_JITTER_MS + 1);
    capped + jitter
}

/// Without jitter the wait after the first four attempts is 300, 600, 1200
/// and 2400 ms, and after every later attempt the cap of 3000 ms: it doubles
/// until it reaches the cap and never shrinks as attempts go on.
pub proof fn backoff_schedule(attempt: u32)
    requires
        attempt >= 1,
    ensures
        backoff_base(attempt) == (if attempt == 1 {
            300
        } else if attempt == 2 {
            600
        } else if attempt == 3 {
            1200
        } else if attempt == 4 {
            2400
        } else {
            3000int
        }),
        attempt < u32::MAX ==> backoff_base(attempt) <= backoff_base((attempt + 1) as u32),
{
    lemma2_to64();
    let e: nat = if attempt - 1 < 20 { (attempt - 1) as nat } else { 20 };
    if e > 4 {
        lemma_pow2_strictly_increases(4, e);
    }
    if attempt < u32::MAX {
        let next = (attempt + 1) as u32;
        let f: nat = if next - 1 < 20 { (next - 1) as nat } else { 20 };
        if f > 4 {
            lemma_pow2_strictly_increases(4, f);
        }
    }
}

/* Waiting between attempts */

/// Granularity of an interruptible wait, in milliseconds: small enough that
/// a Stop request feels instant.
pub const WAIT_SLICE_MS: u64 = 50;

/// The next move of a wait that a Stop request can cut short.
#[derive(Debug, Clone, Copy, PartialEq, Eq)]
pub enum WaitAction {
    /// Sleep `ms` milliseconds, after which `remaining_ms` are left.
    Sleep { ms: u64, remaining_ms: u64 },
    /// The wait is over; `cancelled` says whether a Stop request ended it.
    Done { cancelled: bool },
}

/// The move after a Stop check that read `cancelled`, with `remaining_ms`
/// of the wait left: a Stop request or an elapsed wait ends it, else the next
/// slice is at most [`WAIT_SLICE_MS`].
pub open spec fn next_wait(remaining_ms: u64, cancelled: bool) -> WaitAction {
    if remaining_ms == 0 || cancelled {
        WaitAction::Done { cancelled }
    } else {
        let ms = if remaining_ms < WAIT_SLICE_MS {
            remaining_ms
        } else {
            WAIT_SLICE_MS
        };
        WaitAction::Sleep { ms, remaining_ms: (remaining_ms - ms) as u64 }
    }
}

/// One step of an interruptible wait: `remaining_ms` of it are left and the
/// Stop check just read `cancelled`.
pub fn wait_step(remaining_ms: u64, cancelled: bool) -> (res: WaitAction)
    ensures
        res == next_wait(remaining_ms, cancelled),
        res matches WaitAction::Sleep { ms, remaining_ms: left } ==> 0 < ms <= WAIT_SLICE_MS && left
            + ms == remaining_ms,
{
    if remaining_ms == 0 || cancelled {
        WaitAction::Done { cancelled }
    } else {
        let ms = if remaining_ms < WAIT_SLICE_MS {
            remaining_ms
        } else {
            WAIT_SLICE_MS
        };
        WaitAction::Sleep { ms, remaining_ms: remaining_ms - ms }
    }
}

/// A wait of `remaining_ms` whose successive Stop checks read `checks`: the
/// time it sleeps, and how it ends (`None` while it has not ended when the
/// checks run out).
pub open spec fn wait_run(remaining_ms: u64, checks: Seq<bool>) -> (int, Option<bool>)
    decreases checks.len(),
{
    if checks.len() == 0 {
        (0, None)
    } else {
        match next_wait(remaining_ms, checks[0]) {
            WaitAction::Done { cancelled } => (0, Some(cancelled)),
            WaitAction::Sleep { ms, remaining_ms: left } => {
                let rest = wait_run(left, checks.drop_first());
                (ms + rest.0, rest.1)
            },
        }
    }
}

/// A wait never sleeps longer than its delay; one that no Stop request
/// interrupts sleeps exactly its delay and ends uncancelled, and one whose
/// first check reads a Stop request ends at once, cancelled.
pub proof fn wait_sleeps_its_delay(delay_ms: u64, checks: Seq<bool>)
    ensures
        0 <= wait_run(delay_ms, checks).0 <= delay_ms,
        (checks.len() > delay_ms && forall|i: int| 0 <= i < checks.len() ==> !#[trigger] checks[i])
            ==> wait_run(delay_ms, checks) == (delay_ms as int, Some(false)),
        (checks.len() > 0 && checks[0]) ==> wait_run(delay_ms, checks) == (0int, Some(true)),
    decreases checks.len(),
{
    if checks.len() > 0 {
        if let WaitAction::Sleep { ms, remaining_ms: left } = next_wait(delay_ms, checks[0]) {
            let rest = checks.drop_first();
            wait_sleeps_its_delay(left, rest);
            if checks.len() > delay_ms && forall|i: int| 0 <= i < checks.len() ==> !#[trigger] checks[i] {
                assert forall|i: int| 0 <= i < rest.len() implies !#[trigger] rest[i] by {
                    assert(rest[i] == checks[i + 1]);
                }
            }
        }
    }
}

/* The login run */

/// What one attempt brought back.
pub enum AttemptOutcome {
    /// The portal answered; `confirmed` is [`response_confirms_login`].
    Response { confirmed: bool },
    /// The request timed out.
    Timeout,
    /// Another network error.
    NetworkError,
}

/// Where a login run stands.
#[derive(Clone, Copy, Debug, PartialEq, Eq, Structural)]
pub enum LoginPhase {
    /// The HTTP client is being built.
    Starting,
    /// About to start the attempt (after checking for a Stop request).
    BeforeAttempt,
    /// The attempt's request is in flight.
    AwaitingOutcome,
    /// Waiting out the backoff after the attempt.
    BackingOff,
    /// The run is over.
    Finished,
}

/// The state of a login run: the current (1-based) attempt and the phase.
#[derive(Clone, Copy, Debug, PartialEq, Eq, Structural)]
pub struct LoginState {
    pub attempt: u32,
    pub phase: LoginPhase,
}

/// What the shell reports back to the run.
pub enum LoginEvent {
    /// Building the HTTP client finished; `error` holds its error text.
    ClientBuilt { error: Option<String> },
    /// Whether a Stop was requested, checked before an attempt.
    Checked { cancelled: bool },
    /// The attempt's outcome.
    Outcome(AttemptOutcome),
    /// The backoff wait ended; `cancelled` when a Stop cut it short.
    Waited { cancelled: bool },
}

/// What the shell does next.
#[derive(Clone, Copy, Debug, PartialEq, Eq, Structural)]
pub enum LoginAction {
    /// Build the HTTP client (no redirects, [`REQUEST_TIMEOUT_SECS`]).
    BuildClient,
    /// Check whether a Stop was requested.
    CheckCancel,
    /// Post the form for the given attempt.
    Send { attempt: u32 },
    /// Wait [`backoff_delay`] for the given attempt, watching for a Stop.
    Wait { attempt: u32 },
    /// The run is over; `success` is its result.
    Finish { success: bool },
}

/// The outcome of one step: the next state, the events to report (in
/// order) and the next action.
pub struct LoginStep {
    pub state: LoginState,
    pub reports: Vec<LogMsg>,
    pub action: LoginAction,
}

impl LoginState {
    /// A reachable state: the attempt is within `1..=MAX_ATTEMPTS`, and a
    /// backoff wait never follows the last attempt.
    pub open spec fn wf(self) -> bool {
        &&& 1 <= self.attempt <= MAX_ATTEMPTS
        &&& self.phase == LoginPhase::BackingOff ==> self.attempt < MAX_ATTEMPTS
    }

    /// The event that the run expects in its phase.
    pub open spec fn expects(self, event: LoginEvent) -> bool {
        match self.phase {
            LoginPhase::Starting => event is ClientBuilt,
            LoginPhase::BeforeAttempt => event is Checked,
            LoginPhase::AwaitingOutcome => event is Outcome,
            LoginPhase::BackingOff => event is Waited,
            LoginPhase::Finished => false,
        }
    }
}

/// The event reported for an attempt that did not log in.
pub open spec fn failed_attempt_report(attempt: u32, outcome: AttemptOutcome) -> LogMsg {
    match outcome {
        AttemptOutcome::Timeout => LogMsg::AttemptTimeout(attempt),
        AttemptOutcome::NetworkError => LogMsg::AttemptNetworkError(attempt),
        AttemptOutcome::Response { .. } => LogMsg::AttemptNotConfirmed(attempt),
    }
}

/// Whether the event ends the run.
pub open spec fn ends_run(state: LoginState, event: LoginEvent) -> bool {
    match event {
        LoginEvent::ClientBuilt { error } => error is Some,
        LoginEvent::Checked { cancelled } => cancelled,
        LoginEvent::Outcome(outcome) => outcome matches AttemptOutcome::Response { confirmed: true }
            || state.attempt >= MAX_ATTEMPTS,
        LoginEvent::Waited { cancelled } => cancelled,
    }
}

/// The state after an expected event.
pub open spec fn next_state(state: LoginState, event: LoginEvent) -> LoginState {
    if ends_run(state, event) {
        LoginState { attempt: state.attempt, phase: LoginPhase::Finished }
    } else {
        match event {
            LoginEvent::ClientBuilt { .. } => LoginState { attempt: 1, phase: LoginPhase::BeforeAttempt },
            LoginEvent::Checked { .. } => LoginState {
                attempt: state.attempt,
                phase: LoginPhase::AwaitingOutcome,
            },
            LoginEvent::Outcome(_) => LoginState { attempt: state.attempt, phase: LoginPhase::BackingOff },
            LoginEvent::Waited { .. } => LoginState {
                attempt: (state.attempt + 1) as u32,
                phase: LoginPhase::BeforeAttempt,
            },
        }
    }
}

/// The action after an expected event.
pub open spec fn next_action(state: LoginState, event: LoginEvent) -> LoginAction {
    if ends_run(state, event) {
        LoginAction::Finish {
            success: event matches LoginEvent::Outcome(AttemptOutcome::Response { confirmed: true }),
        }
    } else {
        match event {
            LoginEvent::Checked { .. } => LoginAction::Send { attempt: state.attempt },
            LoginEvent::Outcome(_) => LoginAction::Wait { attempt: state.attempt },
            _ => LoginAction::CheckCancel,
        }
    }
}

/// The events reported on an expected event.
pub open spec fn step_reports(state: LoginState, event: LoginEvent) -> Seq<LogMsg> {
    match event {
        LoginEvent::ClientBuilt { error } => match error {
            Some(e) => seq![LogMsg::HttpClientBuildFailed(e)],
            None => seq![],
        },
        LoginEvent::Checked { cancelled } => if cancelled {
            seq![LogMsg::LoginCancelled]
        } else {
            seq![]
        },
        LoginEvent::Outcome(outcome) => if outcome matches AttemptOutcome::Response { confirmed: true } {
            seq![LogMsg::LoggedInOnAttempt(state.attempt)]
        } else if state.attempt < MAX_ATTEMPTS {
            seq![failed_attempt_report(state.attempt, outcome)]
        } else {
            seq![failed_attempt_report(state.attempt, outcome), LogMsg::GivingUp(MAX_ATTEMPTS)]
        },
        LoginEvent::Waited { cancelled } => if cancelled {
            seq![LogMsg::LoginCancelled]
        } else {
            seq![]
        },
    }
}

fn one_report(msg: LogMsg) -> (res: Vec<LogMsg>)
    ensures
        res@ == seq![msg],
{
    let mut v = Vec::new();
    v.push(msg);
    v
}

fn two_reports(first: LogMsg, second: LogMsg) -> (res: Vec<LogMsg>)
    ensures
        res@ == seq![first, second],
{
    let mut v = Vec::new();
    v.push(first);
    v.push(second);
    v
}

/// The start of a run: the client is built first.
pub fn login_start() -> (res: (LoginState, LoginAction))
    ensures
        res.0 == (LoginState { attempt: 1, phase: LoginPhase::Starting }),
        res.0.wf(),
        res.1 == LoginAction::BuildClient,
{
    (LoginState { attempt: 1, phase: LoginPhase::Starting }, LoginAction::BuildClient)
}

/// One step of the run: the client is built once; each attempt is preceded by
/// a Stop check; a confirmed response ends the run with success; any other
/// outcome is reported and, unless it was the last of [`MAX_ATTEMPTS`]
/// attempts, followed by a backoff wait; a Stop before an attempt or during a
/// wait ends the run without success.
pub fn login_step(state: LoginState, event: LoginEvent) -> (res: LoginStep)
    requires
        state.wf(),
        state.expects(event),
    ensures
        res.state == next_state(state, event),
        res.state.wf(),
        res.action == next_action(state, event),
        res.reports@ == step_reports(state, event),
{
    let attempt = state.attempt;
    let finished = LoginState { attempt, phase: LoginPhase::Finished };
    match event {
        LoginEvent::ClientBuilt { error } => match error {
            Some(e) => LoginStep {
                state: finished,
                reports: one_report(LogMsg::HttpClientBuildFailed(e)),
                action: LoginAction::Finish { success: false },
            },
            None => LoginStep {
                state: LoginState { attempt: 1, phase: LoginPhase::BeforeAttempt },
                reports: Vec::new(),
                action: LoginAction::CheckCancel,
            },
        },
        LoginEvent::Checked { cancelled } => {
            if cancelled {
                LoginStep {
                    state: finished,
                    reports: one_report(LogMsg::LoginCancelled),
                    action: LoginAction::Finish { success: false },
                }
            } else {
                LoginStep {
                    state: LoginState { attempt, phase: LoginPhase::AwaitingOutcome },
                    reports: Vec::new(),
                    action: LoginAction::Send { attempt },
                }
            }
        },
        LoginEvent::Outcome(outcome) => {
            let msg = match outcome {
                AttemptOutcome::Response { confirmed } => {
                    if confirmed {
                        return LoginStep {
                            state: finished,
                            reports: one_report(LogMsg::LoggedInOnAttempt(attempt)),
                            action: LoginAction::Finish { success: true },
                        };
                    }
                    LogMsg::AttemptNotConfirmed(attempt)
                },
                AttemptOutcome::Timeout => LogMsg::AttemptTimeout(attempt),
                AttemptOutcome::NetworkError => LogMsg::AttemptNetworkError(attempt),
            };
            if attempt < MAX_ATTEMPTS {
                LoginStep {
                    state: LoginState { attempt, phase: LoginPhase::BackingOff },
                    reports: one_report(msg),
                    action: LoginAction::Wait { attempt },
                }
            } else {
                LoginStep {
                    state: finished,
                    reports: two_reports(msg, LogMsg::GivingUp(MAX_ATTEMPTS)),
                    action: LoginAction::Finish { success: false },
                }
            }
        },
        LoginEvent::Waited { cancelled } => {
            if cancelled {
                LoginStep {
                    state: finished,
                    reports: one_report(LogMsg::LoginCancelled),
                    action: LoginAction::Finish { success: false },
                }
            } else {
                LoginStep {
                    state: LoginState { attempt: attempt + 1, phase: LoginPhase::BeforeAttempt },
                    reports: Vec::new(),
                    action: LoginAction::CheckCancel,
                }
            }
        },
    }
}

/// The attempts posted along a run from `state` driven by `events`; the run
/// stops at the first event it does not expect (in particular once it is
/// over).
pub open spec fn run_sends(state: LoginState, events: Seq<LoginEvent>) -> Seq<u32>
    decreases events.len(),
{
    if events.len() == 0 || !state.expects(events[0]) {
        seq![]
    } else {
        let rest = run_sends(next_state(state, events[0]), events.drop_first());
        match next_action(state, events[0]) {
            LoginAction::Send { attempt } => seq![attempt] + rest,
            _ => rest,
        }
    }
}

/// The attempt that the next post from `state` carries.
pub open spec fn first_send(state: LoginState) -> int {
    match state.phase {
        LoginPhase::Starting => 1,
        LoginPhase::BeforeAttempt => state.attempt as int,
        LoginPhase::Finished => MAX_ATTEMPTS + 1,
        _ => state.attempt + 1,
    }
}

proof fn lemma_run_sends(state: LoginState, events: Seq<LoginEvent>)
    requires
        state.wf(),
    ensures
        first_send(state) + run_sends(state, events).len() <= MAX_ATTEMPTS + 1,
        forall|i: int|
            0 <= i < run_sends(state, events).len() ==> #[trigger] run_sends(state, events)[i]
                == first_send(state) + i,
    decreases events.len(),
{
    if events.len() > 0 && state.expects(events[0]) {
        let next = next_state(state, events[0]);
        lemma_run_sends(next, events.drop_first());
        let rest = run_sends(next, events.drop_first());
        if let LoginAction::Send { attempt } = next_action(state, events[0]) {
            assert forall|i: int|
                0 <= i < run_sends(state, events).len() implies #[trigger] run_sends(state, events)[i]
                == first_send(state) + i by {
                if i > 0 {
                    assert(run_sends(state, events)[i] == rest[i - 1]);
                }
            }
        }
    }
}

/// A login run posts at most [`MAX_ATTEMPTS`] attempts, numbered
/// 1, 2, 3, ... in order, whatever the portal answers and whenever Stop is
/// pressed.
pub proof fn login_attempts_are_bounded(events: Seq<LoginEvent>)
    ensures
        ({
            let sends = run_sends(LoginState { attempt: 1, phase: LoginPhase::Starting }, events);
            &&& sends.len() <= MAX_ATTEMPTS
            &&& forall|i: int| 0 <= i < sends.len() ==> #[trigger] sends[i] == i + 1
        }),
{
    lemma_run_sends(LoginState { attempt: 1, phase: LoginPhase::Starting }, events);
}

/* After the login, and Cloudflare WARP */

/// What follows a finished login run.
pub struct AfterLogin {
    /// The login result to publish; `None` leaves the indicator unchanged.
    pub login_result: Option<bool>,
    /// Whether to go on and connect WARP.
    pub run_warp: bool,
}

/// After a login run: a cancelled run publishes nothing and stops; otherwise
/// the result is published and WARP follows a successful login when asked.
pub fn after_login(cancelled: bool, login_ok: bool, with_warp: bool) -> (res: AfterLogin)
    ensures
        res.login_result == (if cancelled {
            None
        } else {
            Some(login_ok)
        }),
        res.run_warp == (!cancelled && with_warp && login_ok),
{
    if cancelled {
        AfterLogin { login_result: None, run_warp: false }
    } else {
        AfterLogin { login_result: Some(login_ok), run_warp: with_warp && login_ok }
    }
}

/// What running `warp-cli connect` gave.
pub enum WarpConnect {
    /// It succeeded.
    Connected,
    /// It ran and failed; `stderr` is its error output.
    Failed { stderr: String },
    /// It could not be run; `error` is the error text.
    RunError { error: String },
}

/// The events to report after a WARP connect attempt, and whether WARP is
/// connected.
pub struct WarpReport {
    pub reports: Vec<LogMsg>,
    pub connected: bool,
}

/// The install command or page for `warp-cli` on the operating system `os`
/// (as `std::env::consts::OS` names it).
pub open spec fn install_hint(os: Seq<char>) -> Seq<char> {
    if os == "windows"@ {
        "winget install -e --id Cloudflare.Warp"@
    } else if os == "macos"@ {
        "brew install --cask cloudflare-warp"@
    } else {
        "https://pkg.cloudflareclient.com"@
    }
}

/// The install command or page for `warp-cli` on `os`.
pub fn warp_install_hint(os: &str) -> (res: &'static str)
    ensures
        res@ == install_hint(os@),
{
    if same_text(os, "windows") {
        "winget install -e --id Cloudflare.Warp"
    } else if same_text(os, "macos") {
        "brew install --cask cloudflare-warp"
    } else {
        "https://pkg.cloudflareclient.com"
    }
}

/// Decides what a WARP connect reports. `connect` is `None` when `warp-cli`
/// is not installed (then the install hint for `os` is reported), otherwise
/// what running `warp-cli connect` gave.
pub fn warp_outcome(connect: Option<WarpConnect>, os: &str) -> (res: WarpReport)
    ensures
        res.connected == (connect matches Some(WarpConnect::Connected)),
        match connect {
            None => {
                &&& res.reports@.len() == 3
                &&& res.reports@[0] is WarpNotFound
                &&& res.reports@[1] matches LogMsg::WarpInstallHint(h) && h@ == install_hint(os@)
                &&& res.reports@[2] is WarpInstallFollowup
            },
            Some(WarpConnect::Connected) => res.reports@ == seq![LogMsg::WarpConnected],
            Some(WarpConnect::Failed { stderr }) => {
                &&& res.reports@.len() == 1
                &&& res.reports@[0] matches LogMsg::WarpConnectFailed(e) && e@ == trim(stderr@)
            },
            Some(WarpConnect::RunError { error }) => res.reports@ == seq![LogMsg::WarpRunFailed(error)],
        },
{
    match connect {
        Some(WarpConnect::Connected) => WarpReport { reports: one_report(LogMsg::WarpConnected), connected: true },
        Some(WarpConnect::Failed { stderr }) => WarpReport {
            reports: one_report(LogMsg::WarpConnectFailed(trimmed(stderr.as_str()))),
            connected: false,
        },
        Some(WarpConnect::RunError { error }) => WarpReport {
            reports: one_report(LogMsg::WarpRunFailed(error)),
            connected: false,
        },
        None => {
            let mut reports = Vec::new();
            reports.push(LogMsg::WarpNotFound);
            reports.push(LogMsg::WarpInstallHint(String::from_str(warp_install_hint(os))));
            reports.push(LogMsg::WarpInstallFollowup);
            WarpReport { reports, connected: false }
        },
    }
}

} // verus!
