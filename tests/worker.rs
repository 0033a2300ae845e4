use zinharo::{Action, Command, Event, Halt, Phase, ReportReason, Worker, ZinharoError};

fn logged_in(signup_allowed: bool) -> Worker {
    let (mut w, first) = Worker::new(signup_allowed);
    assert!(matches!(first.command, Command::Login));
    assert_eq!(first.delay_secs, 0);
    let a = w.step(Event::Done);
    assert!(matches!(a.command, Command::Lease));
    w
}

fn is_lease(a: &Action) -> bool {
    matches!(a.command, Command::Lease)
}

#[test]
fn no_work_polls_again_after_long_cooldown() {
    let mut w = logged_in(false);
    let a = w.step(Event::Failed(ZinharoError::NoJobsAvailable));
    assert!(is_lease(&a));
    assert_eq!(a.delay_secs, 120);
    assert!(matches!(w.phase, Phase::Polling));
}

#[test]
fn cracked_job_is_submitted_then_new_lease() {
    let mut w = logged_in(false);
    let a = w.step(Event::Leased(7));
    assert!(matches!(a.command, Command::Execute(7)));
    let a = w.step(Event::Cracked);
    assert!(matches!(a.command, Command::Submit(7)));
    let a = w.step(Event::Done);
    assert!(is_lease(&a));
    assert_eq!(a.delay_secs, 0);
    assert!(matches!(w.phase, Phase::Polling));
}

#[test]
fn uncracked_job_report_retried_once() {
    let mut w = logged_in(false);
    w.step(Event::Leased(9));
    let a = w.step(Event::NotCracked);
    assert!(matches!(a.command, Command::Report(9, ReportReason::NotCracked)));
    let a = w.step(Event::Failed(ZinharoError::Ratelimited));
    assert!(matches!(a.command, Command::Report(9, ReportReason::NotCracked)));
    assert!(a.delay_secs > 0);
    let a = w.step(Event::Done);
    assert!(is_lease(&a));
}

#[test]
fn bad_credentials_is_fatal_without_signup() {
    let (mut w, _) = Worker::new(false);
    let a = w.step(Event::Failed(ZinharoError::BadCredentials));
    assert!(matches!(a.command, Command::Exit));
    assert!(matches!(w.phase, Phase::Halted(Halt::Refused(ZinharoError::BadCredentials))));
}

#[test]
fn rate_limited_login_retries() {
    let (mut w, _) = Worker::new(false);
    let a = w.step(Event::Failed(ZinharoError::Ratelimited));
    assert!(matches!(a.command, Command::Login));
    assert_eq!(a.delay_secs, 30);
    let a = w.step(Event::Failed(ZinharoError::ReqwestError("refused".to_string())));
    assert!(matches!(a.command, Command::Login));
    assert_eq!(a.delay_secs, 30);
}

#[test]
fn bad_credentials_falls_back_to_signup_when_allowed() {
    let (mut w, _) = Worker::new(true);
    let a = w.step(Event::Failed(ZinharoError::BadCredentials));
    assert!(matches!(a.command, Command::Signup));
    let a = w.step(Event::Failed(ZinharoError::Ratelimited));
    assert!(matches!(a.command, Command::Signup));
    assert_eq!(a.delay_secs, 3600);
    let a = w.step(Event::Failed(ZinharoError::UsernameTaken));
    assert!(matches!(a.command, Command::Exit));
    assert!(matches!(w.phase, Phase::Halted(Halt::Refused(ZinharoError::UsernameTaken))));
}

#[test]
fn fatal_login_outcomes() {
    for e in [ZinharoError::ApiVersionInadequate, ZinharoError::FirewallBlock, ZinharoError::UnknownStatusCode(500)] {
        let (mut w, _) = Worker::new(true);
        let a = w.step(Event::Failed(e));
        assert!(matches!(a.command, Command::Exit));
    }
}

#[test]
fn lease_rate_limit_and_unknown_status() {
    let mut w = logged_in(false);
    let a = w.step(Event::Failed(ZinharoError::Ratelimited));
    assert!(is_lease(&a));
    assert_eq!(a.delay_secs, 60);
    let a = w.step(Event::Failed(ZinharoError::UnknownStatusCode(401)));
    assert!(matches!(a.command, Command::Exit));
}

#[test]
fn submit_failures() {
    let mut w = logged_in(false);
    w.step(Event::Leased(3));
    w.step(Event::Cracked);
    let a = w.step(Event::Failed(ZinharoError::Ratelimited));
    assert!(matches!(a.command, Command::Submit(3)));
    assert_eq!(a.delay_secs, 30);
    let a = w.step(Event::Failed(ZinharoError::ReqwestError("reset".to_string())));
    assert!(matches!(a.command, Command::Submit(3)));
    assert_eq!(a.delay_secs, 10);
    let a = w.step(Event::Failed(ZinharoError::UnknownStatusCode(500)));
    assert!(is_lease(&a));
    assert_eq!(a.delay_secs, 30);
}

#[test]
fn collaborator_outcomes() {
    let mut w = logged_in(false);
    w.step(Event::Leased(4));
    let a = w.step(Event::CapNotSaved);
    assert!(matches!(a.command, Command::Report(4, ReportReason::CapNotSaved)));
    let a = w.step(Event::Failed(ZinharoError::UnknownStatusCode(500)));
    assert!(is_lease(&a));
    w.step(Event::Leased(5));
    let a = w.step(Event::SecretUnreadable);
    assert!(matches!(a.command, Command::Report(5, ReportReason::SecretUnreadable)));
    w.step(Event::Done);
    let a = w.step(Event::Undecodable(6));
    assert!(matches!(a.command, Command::Report(6, ReportReason::Undecodable)));
    w.step(Event::Done);
    w.step(Event::Leased(8));
    let a = w.step(Event::ToolFailed);
    assert!(matches!(a.command, Command::Exit));
    assert!(matches!(w.phase, Phase::Halted(Halt::ToolFailed)));
}

#[test]
fn accepts_only_answers() {
    let (w, _) = Worker::new(false);
    assert!(w.accepts(&Event::Done));
    assert!(!w.accepts(&Event::Cracked));
    let mut w = logged_in(false);
    assert!(w.accepts(&Event::Leased(1)));
    assert!(!w.accepts(&Event::Done));
    w.step(Event::Leased(1));
    assert!(w.accepts(&Event::NotCracked));
    assert!(!w.accepts(&Event::Leased(2)));
    w.step(Event::ToolFailed);
    assert!(!w.accepts(&Event::Done));
}

#[test]
fn report_texts() {
    assert_eq!(ReportReason::NotCracked.info(), "Could not crack using standardised wordlist");
    assert_eq!(ReportReason::CapNotSaved.info(), "Could not save to file, possibly invalid cap");
}
