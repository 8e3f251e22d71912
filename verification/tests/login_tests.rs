use gsb_connect::config::Credentials;
use gsb_connect::login::{
    after_login, backoff_delay, login_form_body, login_start, login_step, response_confirms_login,
    url_encode, wait_step, warp_install_hint, warp_outcome, AttemptOutcome, LogMsg, LoginAction,
    LoginEvent, LoginPhase, WaitAction, WarpConnect, MAX_ATTEMPTS, WAIT_SLICE_MS,
};

#[test]
fn url_encoding() {
    assert_eq!(url_encode("aZ09-_.~"), "aZ09-_.~");
    assert_eq!(url_encode("a b&c=d"), "a%20b%26c%3Dd");
    assert_eq!(url_encode("ş!"), "%C5%9F%21");
    assert_eq!(url_encode(""), "");
}

#[test]
fn form_body() {
    let creds = Credentials { tc: "123".to_string(), password: "p&w d".to_string() };
    assert_eq!(login_form_body(&creds), "j_username=123&j_password=p%26w%20d");
}

#[test]
fn response_classification() {
    assert!(response_confirms_login(302, true, ""));
    assert!(!response_confirms_login(302, false, "login successful"));
    assert!(response_confirms_login(200, false, "<p>LOGIN Successful!</p>"));
    assert!(!response_confirms_login(200, false, "login failed"));
    assert!(!response_confirms_login(500, true, "login successful"));
}

#[test]
fn backoff_schedule() {
    assert_eq!(backoff_delay(1, 0), 300);
    assert_eq!(backoff_delay(2, 0), 600);
    assert_eq!(backoff_delay(3, 0), 1200);
    assert_eq!(backoff_delay(4, 0), 2400);
    assert_eq!(backoff_delay(5, 0), 3000);
    assert_eq!(backoff_delay(14, 0), 3000);
    assert_eq!(backoff_delay(1, 250), 550);
    assert_eq!(backoff_delay(1, 251), 300);
    assert_eq!(backoff_delay(30, 999_999_999), 3000 + 999_999_999 % 251);
}

fn drive(outcomes: &[AttemptOutcome], cancel_before: Option<u32>) -> (bool, Vec<String>, u32) {
    let (mut state, mut action) = login_start();
    let mut log = Vec::new();
    let mut sends = 0;
    let mut next = 0;
    loop {
        let event = match action {
            LoginAction::BuildClient => LoginEvent::ClientBuilt { error: None },
            LoginAction::CheckCancel => LoginEvent::Checked { cancelled: cancel_before == Some(state.attempt) },
            LoginAction::Send { attempt } => {
                sends += 1;
                assert_eq!(attempt, sends);
                let o = match outcomes.get(next) {
                    Some(AttemptOutcome::Response { confirmed }) => AttemptOutcome::Response { confirmed: *confirmed },
                    Some(AttemptOutcome::Timeout) => AttemptOutcome::Timeout,
                    _ => AttemptOutcome::NetworkError,
                };
                next += 1;
                LoginEvent::Outcome(o)
            }
            LoginAction::Wait { attempt } => {
                assert!(attempt < MAX_ATTEMPTS);
                LoginEvent::Waited { cancelled: false }
            }
            LoginAction::Finish { success } => return (success, log, sends),
        };
        let step = login_step(state, event);
        for msg in step.reports {
            log.push(format!("{msg:?}"));
        }
        state = step.state;
        action = step.action;
    }
}

#[test]
fn login_succeeds_on_third_attempt() {
    let outcomes = [
        AttemptOutcome::Timeout,
        AttemptOutcome::Response { confirmed: false },
        AttemptOutcome::Response { confirmed: true },
    ];
    let (ok, log, sends) = drive(&outcomes, None);
    assert!(ok);
    assert_eq!(sends, 3);
    assert_eq!(log, vec!["AttemptTimeout(1)", "AttemptNotConfirmed(2)", "LoggedInOnAttempt(3)"]);
}

#[test]
fn login_gives_up_after_fifteen_attempts() {
    let (ok, log, sends) = drive(&[], None);
    assert!(!ok);
    assert_eq!(sends, 15);
    assert_eq!(log.len(), 16);
    assert_eq!(log[14], "AttemptNetworkError(15)");
    assert_eq!(log[15], "GivingUp(15)");
}

#[test]
fn login_stops_when_cancelled() {
    let (ok, log, sends) = drive(&[], Some(2));
    assert!(!ok);
    assert_eq!(sends, 1);
    assert_eq!(log, vec!["AttemptNetworkError(1)", "LoginCancelled"]);
    let (state, _) = login_start();
    let step = login_step(state, LoginEvent::ClientBuilt { error: Some("tls".to_string()) });
    assert_eq!(step.action, LoginAction::Finish { success: false });
    assert_eq!(step.state.phase, LoginPhase::Finished);
    assert!(matches!(&step.reports[..], [LogMsg::HttpClientBuildFailed(e)] if e == "tls"));
}

#[test]
fn cancelled_wait_ends_the_run() {
    let (state, _) = login_start();
    let step = login_step(state, LoginEvent::ClientBuilt { error: None });
    let step = login_step(step.state, LoginEvent::Checked { cancelled: false });
    let step = login_step(step.state, LoginEvent::Outcome(AttemptOutcome::Timeout));
    assert_eq!(step.action, LoginAction::Wait { attempt: 1 });
    let step = login_step(step.state, LoginEvent::Waited { cancelled: true });
    assert_eq!(step.action, LoginAction::Finish { success: false });
    assert!(matches!(&step.reports[..], [LogMsg::LoginCancelled]));
}

#[test]
fn after_login_decisions() {
    let a = after_login(true, true, true);
    assert_eq!(a.login_result, None);
    assert!(!a.run_warp);
    let b = after_login(false, true, true);
    assert_eq!(b.login_result, Some(true));
    assert!(b.run_warp);
    let c = after_login(false, false, true);
    assert_eq!(c.login_result, Some(false));
    assert!(!c.run_warp);
}

#[test]
fn warp_reports() {
    assert_eq!(warp_install_hint("windows"), "winget install -e --id Cloudflare.Warp");
    assert_eq!(warp_install_hint("macos"), "brew install --cask cloudflare-warp");
    assert_eq!(warp_install_hint("linux"), "https://pkg.cloudflareclient.com");
    let missing = warp_outcome(None, "linux");
    assert!(!missing.connected);
    assert!(matches!(&missing.reports[..], [LogMsg::WarpNotFound, LogMsg::WarpInstallHint(h), LogMsg::WarpInstallFollowup] if h == "https://pkg.cloudflareclient.com"));
    let ok = warp_outcome(Some(WarpConnect::Connected), "linux");
    assert!(ok.connected);
    let failed = warp_outcome(Some(WarpConnect::Failed { stderr: "  denied \n".to_string() }), "linux");
    assert!(!failed.connected);
    assert!(matches!(&failed.reports[..], [LogMsg::WarpConnectFailed(e)] if e == "denied"));
    let run = warp_outcome(Some(WarpConnect::RunError { error: "no such file".to_string() }), "linux");
    assert!(matches!(&run.reports[..], [LogMsg::WarpRunFailed(e)] if e == "no such file"));
}

#[test]
fn wait_steps_in_slices() {
    assert_eq!(wait_step(120, false), WaitAction::Sleep { ms: 50, remaining_ms: 70 });
    assert_eq!(wait_step(20, false), WaitAction::Sleep { ms: 20, remaining_ms: 0 });
    assert_eq!(wait_step(0, false), WaitAction::Done { cancelled: false });
    assert_eq!(wait_step(120, true), WaitAction::Done { cancelled: true });
    assert_eq!(wait_step(0, true), WaitAction::Done { cancelled: true });
    assert_eq!(WAIT_SLICE_MS, 50);
}

#[test]
fn uninterrupted_wait_sleeps_its_delay() {
    for delay in [0u64, 1, 49, 50, 51, 320, 3250] {
        let mut remaining = delay;
        let mut slept = 0u64;
        let mut slices = 0u32;
        let cancelled = loop {
            match wait_step(remaining, false) {
                WaitAction::Sleep { ms, remaining_ms } => {
                    assert!(ms > 0 && ms <= WAIT_SLICE_MS);
                    slept += ms;
                    slices += 1;
                    remaining = remaining_ms;
                }
                WaitAction::Done { cancelled } => break cancelled,
            }
        };
        assert!(!cancelled);
        assert_eq!(slept, delay);
        assert_eq!(u64::from(slices), (delay + WAIT_SLICE_MS - 1) / WAIT_SLICE_MS);
    }
}
