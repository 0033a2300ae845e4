use vstd::prelude::*;
use crate::error::ZinharoError;
use crate::policy::{decide, decision, retry_delay, retryable, Decision, Operation, RESULT_COOLDOWN};

verus! {

/// Why a leased job is reported instead of solved.
#[derive(Debug, Clone, Copy, PartialEq, Eq, Structural)]
pub enum ReportReason {
    /// The capture could not be written out for the cracking tool.
    CapNotSaved,
    /// The tool went through the whole wordlist without a match.
    NotCracked,
    /// The tool found a password, but its output was not readable text.
    SecretUnreadable,
    /// The leased job's payload or timestamp could not be decoded.
    Undecodable,
}

impl ReportReason {
    /// The fixed text filed with the report.
    pub fn info(&self) -> (r: &'static str)
        ensures
            *self == ReportReason::CapNotSaved ==> r@ == "Could not save to file, possibly invalid cap"@,
            *self == ReportReason::NotCracked ==> r@ == "Could not crack using standardised wordlist"@,
            *self == ReportReason::SecretUnreadable ==> r@
                == "Could not read the found password, possibly invalid utf-8"@,
            *self == ReportReason::Undecodable ==> r@ == "Could not decode the job, possibly invalid cap"@,
    {
        match self {
            ReportReason::CapNotSaved => "Could not save to file, possibly invalid cap",
            ReportReason::NotCracked => "Could not crack using standardised wordlist",
            ReportReason::SecretUnreadable => "Could not read the found password, possibly invalid utf-8",
            ReportReason::Undecodable => "Could not decode the job, possibly invalid cap",
        }
    }
}

/// Why the worker stops for good.
#[derive(Debug, Clone)]
pub enum Halt {
    /// A call failed in a way that no retry can mend.
    Refused(ZinharoError),
    /// The cracking tool could not be run, or exited abnormally.
    ToolFailed,
}

/// Where the worker stands; a job id is held from its lease until the
/// answer to its submit or report.
#[derive(Debug, Clone)]
pub enum Phase {
    /// Waiting for the answer to a login.
    LoggingIn,
    /// Waiting for the answer to a signup.
    SigningUp,
    /// Waiting for the answer to a lease.
    Polling,
    /// The cracking tool works on this job.
    Executing(i32),
    /// Waiting for the answer to the submit of this job's password.
    Submitting(i32),
    /// Waiting for the answer to the report on this job.
    Reporting(i32, ReportReason),
    /// Stopped.
    Halted(Halt),
}

/// The work that the worker asks its driver to do next.
#[derive(Debug, Clone)]
pub enum Command {
    Login,
    Signup,
    Lease,
    /// Run the cracking tool on the leased job.
    Execute(i32),
    /// Submit the password found for this job.
    Submit(i32),
    /// File a report on this job with the reason's text.
    Report(i32, ReportReason),
    /// End the process with a non-zero status; the worker's phase says why.
    Exit,
}

/// A command, to be carried out after sleeping `delay_secs` seconds.
#[derive(Debug, Clone)]
pub struct Action {
    pub delay_secs: u64,
    pub command: Command,
}

/// What came of the last command.
#[derive(Debug, Clone)]
pub enum Event {
    /// The login, signup, submit or report succeeded.
    Done,
    /// The login, signup, lease, submit or report failed with this error.
    Failed(ZinharoError),
    /// The lease gave the job with this id.
    Leased(i32),
    /// The lease gave the job with this id, but its payload could not be decoded.
    Undecodable(i32),
    /// The tool found the password, and it was read back.
    Cracked,
    /// The tool found no password.
    NotCracked,
    /// The capture could not be written out for the tool.
    CapNotSaved,
    /// The tool found a password that could not be read as text.
    SecretUnreadable,
    /// The tool failed.
    ToolFailed,
}

pub open spec fn act(delay_secs: u64, command: Command) -> Action {
    Action { delay_secs, command }
}

/// The events that answer the command of each phase.
pub open spec fn answers(phase: Phase, event: Event) -> bool {
    match phase {
        Phase::LoggingIn | Phase::SigningUp | Phase::Submitting(_) | Phase::Reporting(_, _) => {
            event is Done || event is Failed
        },
        Phase::Polling => event is Failed || event is Leased || event is Undecodable,
        Phase::Executing(_) => {
            ||| event is Cracked
            ||| event is NotCracked
            ||| event is CapNotSaved
            ||| event is SecretUnreadable
            ||| event is ToolFailed
        },
        Phase::Halted(_) => false,
    }
}

pub open spec fn outcome(event: Event) -> Result<(), ZinharoError> {
    match event {
        Event::Failed(e) => Err(e),
        _ => Ok(()),
    }
}

pub open spec fn halt(e: ZinharoError) -> (Phase, Action) {
    (Phase::Halted(Halt::Refused(e)), act(0, Command::Exit))
}

pub open spec fn poll_after(delay_secs: u64) -> (Phase, Action) {
    (Phase::Polling, act(delay_secs, Command::Lease))
}

pub open spec fn report(id: i32, reason: ReportReason) -> (Phase, Action) {
    (Phase::Reporting(id, reason), act(0, Command::Report(id, reason)))
}

/// The transition table: the next phase and action after `event` in `phase`.
pub open spec fn next(phase: Phase, signup_allowed: bool, event: Event) -> (Phase, Action) {
    match phase {
        Phase::LoggingIn => match decision(Operation::Login, outcome(event)) {
            Decision::Proceed => poll_after(0),
            Decision::RetryAfter(d) => (Phase::LoggingIn, act(d, Command::Login)),
            Decision::GiveUp => if signup_allowed && event matches Event::Failed(
                ZinharoError::BadCredentials,
            ) {
                (Phase::SigningUp, act(0, Command::Signup))
            } else {
                halt(outcome(event)->Err_0)
            },
        },
        Phase::SigningUp => match decision(Operation::Signup, outcome(event)) {
            Decision::Proceed => poll_after(0),
            Decision::RetryAfter(d) => (Phase::SigningUp, act(d, Command::Signup)),
            Decision::GiveUp => halt(outcome(event)->Err_0),
        },
        Phase::Polling => match event {
            Event::Leased(id) => (Phase::Executing(id), act(0, Command::Execute(id))),
            Event::Undecodable(id) => report(id, ReportReason::Undecodable),
            _ => match decision(Operation::Lease, outcome(event)) {
                Decision::RetryAfter(d) => poll_after(d),
                _ => halt(outcome(event)->Err_0),
            },
        },
        Phase::Executing(id) => match event {
            Event::Cracked => (Phase::Submitting(id), act(0, Command::Submit(id))),
            Event::NotCracked => report(id, ReportReason::NotCracked),
            Event::CapNotSaved => report(id, ReportReason::CapNotSaved),
            Event::SecretUnreadable => report(id, ReportReason::SecretUnreadable),
            _ => (Phase::Halted(Halt::ToolFailed), act(0, Command::Exit)),
        },
        Phase::Submitting(id) => match decision(Operation::Submit, outcome(event)) {
            Decision::Proceed => poll_after(0),
            Decision::RetryAfter(d) => (Phase::Submitting(id), act(d, Command::Submit(id))),
            Decision::GiveUp => poll_after(RESULT_COOLDOWN),
        },
        Phase::Reporting(id, reason) => match decision(Operation::Report, outcome(event)) {
            Decision::RetryAfter(d) => (
                Phase::Reporting(id, reason),
                act(d, Command::Report(id, reason)),
            ),
            _ => poll_after(RESULT_COOLDOWN),
        },
        Phase::Halted(h) => (Phase::Halted(h), act(0, Command::Exit)),
    }
}

/// The call whose answer a phase waits for.
pub open spec fn pending(phase: Phase) -> Option<Command> {
    match phase {
        Phase::LoggingIn => Some(Command::Login),
        Phase::SigningUp => Some(Command::Signup),
        Phase::Polling => Some(Command::Lease),
        Phase::Submitting(id) => Some(Command::Submit(id)),
        Phase::Reporting(id, reason) => Some(Command::Report(id, reason)),
        _ => None,
    }
}

/// The retried operation of a phase that waits for a call.
pub open spec fn operation(phase: Phase) -> Operation {
    match phase {
        Phase::LoggingIn => Operation::Login,
        Phase::SigningUp => Operation::Signup,
        Phase::Polling => Operation::Lease,
        Phase::Submitting(_) => Operation::Submit,
        _ => Operation::Report,
    }
}

/// The job that a phase holds, from its lease to the answer to its submit or report.
pub open spec fn held_job(phase: Phase) -> Option<i32> {
    match phase {
        Phase::Executing(id) => Some(id),
        Phase::Submitting(id) => Some(id),
        Phase::Reporting(id, _) => Some(id),
        _ => None,
    }
}

/// After a transient failure (rate limit, transport failure, an empty queue
/// on a lease) the worker stays where it was and makes the same call again
/// after a positive cooldown; after any other failure it does not make that
/// call again.
pub proof fn lemma_failures_retry_or_stop(phase: Phase, signup_allowed: bool, e: ZinharoError)
    requires
        pending(phase) is Some,
    ensures
        retryable(operation(phase), e) ==> {
            &&& next(phase, signup_allowed, Event::Failed(e)) == (
                phase,
                act(retry_delay(operation(phase), e), pending(phase)->0),
            )
            &&& retry_delay(operation(phase), e) > 0
        },
        !retryable(operation(phase), e) ==> next(phase, signup_allowed, Event::Failed(e)).1.command
            != pending(phase)->0,
{
}

/// At most one lease is outstanding, and none is dropped silently: a lease is
/// asked for only with no job held; a job being cracked goes on to its submit,
/// its report, or a halt; and a held job is let go only by the answer to its
/// submit or report, or by a halt.
pub proof fn lemma_one_lease_at_a_time(phase: Phase, signup_allowed: bool, event: Event)
    requires
        answers(phase, event),
    ensures
        ({
            let (q, a) = next(phase, signup_allowed, event);
            &&& a.command is Lease ==> q == Phase::Polling && held_job(q) is None
            &&& q is Executing ==> phase == Phase::Polling && event is Leased
            &&& phase is Executing ==> (q is Submitting || q is Reporting || q is Halted)
            &&& held_job(phase) is Some ==> {
                ||| held_job(q) == held_job(phase)
                ||| q is Halted
                ||| q == Phase::Polling && (phase is Submitting || phase is Reporting)
            }
        }),
{
}

/// The decisions of a worker that logs in, then leases, cracks and submits or
/// reports jobs one at a time until a fatal failure. Its driver carries out
/// each action and hands back the event that came of it.
pub struct Worker {
    pub phase: Phase,
    /// Whether a refused login may be followed by a signup with the same
    /// credentials.
    pub signup_allowed: bool,
}

impl Worker {
    /// A worker about to log in, and its first action.
    pub fn new(signup_allowed: bool) -> (r: (Worker, Action))
        ensures
            r.0.phase == Phase::LoggingIn,
            r.0.signup_allowed == signup_allowed,
            r.1 == act(0, Command::Login),
    {
        (Worker { phase: Phase::LoggingIn, signup_allowed }, Action { delay_secs: 0, command: Command::Login })
    }

    /// Whether `event` answers the command that the worker gave last.
    pub fn accepts(&self, event: &Event) -> (r: bool)
        ensures
            r == answers(self.phase, *event),
    {
        match self.phase {
            Phase::LoggingIn | Phase::SigningUp | Phase::Submitting(_) | Phase::Reporting(_, _) => {
                match event {
                    Event::Done | Event::Failed(_) => true,
                    _ => false,
                }
            },
            Phase::Polling => match event {
                Event::Failed(_) | Event::Leased(_) | Event::Undecodable(_) => true,
                _ => false,
            },
            Phase::Executing(_) => match event {
                Event::Cracked | Event::NotCracked | Event::CapNotSaved | Event::SecretUnreadable
                | Event::ToolFailed => true,
                _ => false,
            },
            Phase::Halted(_) => false,
        }
    }

    /// Takes the event that came of the last action and gives the next one.
    pub fn step(&mut self, event: Event) -> (r: Action)
        requires
            answers(old(self).phase, event),
        ensures
            (final(self).phase, r) == next(old(self).phase, old(self).signup_allowed, event),
            final(self).signup_allowed == old(self).signup_allowed,
    {
        let (phase, action) = match &self.phase {
            Phase::LoggingIn => {
                let refused = matches!(event, Event::Failed(ZinharoError::BadCredentials));
                let out = outcome_of(event);
                match decide(Operation::Login, &out) {
                    Decision::Proceed => (Phase::Polling, Action { delay_secs: 0, command: Command::Lease }),
                    Decision::RetryAfter(d) => (Phase::LoggingIn, Action { delay_secs: d, command: Command::Login }),
                    Decision::GiveUp => {
                        if self.signup_allowed && refused {
                            (Phase::SigningUp, Action { delay_secs: 0, command: Command::Signup })
                        } else {
                            halted(out)
                        }
                    },
                }
            },
            Phase::SigningUp => {
                let out = outcome_of(event);
                match decide(Operation::Signup, &out) {
                    Decision::Proceed => (Phase::Polling, Action { delay_secs: 0, command: Command::Lease }),
                    Decision::RetryAfter(d) => (Phase::SigningUp, Action { delay_secs: d, command: Command::Signup }),
                    Decision::GiveUp => halted(out),
                }
            },
            Phase::Polling => match event {
                Event::Leased(id) => (Phase::Executing(id), Action { delay_secs: 0, command: Command::Execute(id) }),
                Event::Undecodable(id) => reporting(id, ReportReason::Undecodable),
                other => {
                    let out = outcome_of(other);
                    match decide(Operation::Lease, &out) {
                        Decision::RetryAfter(d) => (Phase::Polling, Action { delay_secs: d, command: Command::Lease }),
                        _ => halted(out),
                    }
                },
            },
            Phase::Executing(id) => {
                let id = *id;
                match event {
                    Event::Cracked => (Phase::Submitting(id), Action { delay_secs: 0, command: Command::Submit(id) }),
                    Event::NotCracked => reporting(id, ReportReason::NotCracked),
                    Event::CapNotSaved => reporting(id, ReportReason::CapNotSaved),
                    Event::SecretUnreadable => reporting(id, ReportReason::SecretUnreadable),
                    _ => (Phase::Halted(Halt::ToolFailed), Action { delay_secs: 0, command: Command::Exit }),
                }
            },
            Phase::Submitting(id) => {
                let id = *id;
                let out = outcome_of(event);
                match decide(Operation::Submit, &out) {
                    Decision::Proceed => (Phase::Polling, Action { delay_secs: 0, command: Command::Lease }),
                    Decision::RetryAfter(d) => (Phase::Submitting(id), Action { delay_secs: d, command: Command::Submit(id) }),
                    Decision::GiveUp => (Phase::Polling, Action { delay_secs: RESULT_COOLDOWN, command: Command::Lease }),
                }
            },
            Phase::Reporting(id, reason) => {
                let id = *id;
                let reason = *reason;
                let out = outcome_of(event);
                match decide(Operation::Report, &out) {
                    Decision::RetryAfter(d) => (Phase::Reporting(id, reason), Action { delay_secs: d, command: Command::Report(id, reason) }),
                    _ => (Phase::Polling, Action { delay_secs: RESULT_COOLDOWN, command: Command::Lease }),
                }
            },
            Phase::Halted(_) => {
                // unreachable: no event answers a halted worker
                (Phase::Halted(Halt::ToolFailed), Action { delay_secs: 0, command: Command::Exit })
            },
        };
        self.phase = phase;
        action
    }
}

fn outcome_of(event: Event) -> (r: Result<(), ZinharoError>)
    ensures
        r == outcome(event),
{
    match event {
        Event::Failed(e) => Err(e),
        _ => Ok(()),
    }
}

fn halted(out: Result<(), ZinharoError>) -> (r: (Phase, Action))
    requires
        out is Err,
    ensures
        r == halt(out->Err_0),
{
    let e = match out {
        Err(e) => e,
        Ok(()) => ZinharoError::InvalidResponse,
    };
    (Phase::Halted(Halt::Refused(e)), Action { delay_secs: 0, command: Command::Exit })
}

fn reporting(id: i32, reason: ReportReason) -> (r: (Phase, Action))
    ensures
        r == report(id, reason),
{
    (Phase::Reporting(id, reason), Action { delay_secs: 0, command: Command::Report(id, reason) })
}

} // verus!
