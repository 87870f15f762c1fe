use vstd::prelude::*;
use vstd::string::*;
use crate::text::{decimal, decimal_text, lower_of, occurs_at, text_contains, trim, trimmed};
use crate::pairing::{output_reports_failure, reports_failure};
use crate::error::{ErrorKind, SetupError};

verus! {

/// Readiness probes made before giving up.
pub const PROBE_ATTEMPTS: u64 = 8;

/// Pause after stopping a running instance, in milliseconds.
pub const STOP_SETTLE_MS: u64 = 2000;

/// Pause between starting the service and the first probe, in milliseconds.
pub const WARMUP_MS: u64 = 5000;

/// Pause between two probes, in milliseconds.
pub const PROBE_INTERVAL_MS: u64 = 3000;

/// The loopback port the service is probed on.
pub const SERVICE_PORT: u16 = 18789;

/// Where a start attempt stands.
#[derive(PartialEq, Eq, Structural, Clone, Copy, Debug)]
pub enum Phase {
    Idle,
    Stopping,
    Snapshotting,
    Installing,
    Reconciling,
    Starting,
    Probing,
    CheckingStatus,
    FinalCheck,
    Ready,
    Failed,
}

/// Outside work the caller performs for the session.
#[derive(PartialEq, Eq, Structural, Clone, Copy, Debug)]
pub enum Operation {
    /// Stop a running instance; the outcome does not matter.
    StopService,
    /// Read the configuration file as it is before installing.
    ReadSnapshot,
    /// Run the service's install command with its force flag.
    InstallService,
    /// Put the snapshot's sections back into the installer's configuration.
    Reconcile,
    /// Run the service's start command.
    StartService,
    /// Try to open a connection to the service port.
    ProbePort,
    /// Run the service's status command.
    QueryStatus,
}

/// What the caller reports back after performing an operation.
#[derive(Debug, PartialEq)]
pub enum Event {
    Begin,
    Stopped,
    /// Whether a configuration file existed, or why it could not be read.
    SnapshotRead(Result<bool, String>),
    /// The install command's output, or its failure text.
    Installed(Result<String, String>),
    /// Whether putting the snapshot back worked.
    Reconciled(Result<(), SetupError>),
    /// The start command's output, or its failure text.
    ServiceStarted(Result<String, String>),
    /// Whether the probe connected.
    Probed(bool),
    /// The status command's output, or its failure text.
    Status(Result<String, String>),
}

/// What the session asks of the caller next.
#[derive(Debug, PartialEq)]
pub enum Action {
    /// Wait `delay_ms` milliseconds, then perform `op`.
    Run { delay_ms: u64, op: Operation },
    /// The attempt is over: the confirmed port, or why it failed.
    Finish(Result<u16, SetupError>),
    /// The event does not belong to the current phase; nothing to do.
    Ignore,
}

/// The mathematical value of an action.
pub enum ActionModel {
    Run(nat, Operation),
    Finish(Result<nat, (ErrorKind, Seq<char>)>),
    Ignore,
}

impl Action {
    pub open spec fn model(&self) -> ActionModel {
        match self {
            Action::Run { delay_ms, op } => ActionModel::Run(*delay_ms as nat, *op),
            Action::Finish(Ok(p)) => ActionModel::Finish(Ok(*p as nat)),
            Action::Finish(Err(e)) => ActionModel::Finish(Err((e.kind(), e.detail_view()))),
            Action::Ignore => ActionModel::Ignore,
        }
    }
}

/// One install-start-probe attempt. It lives for a single start and is
/// dropped after `Ready` or `Failed`.
pub struct GatewaySession {
    phase: Phase,
    attempts: u64,
    had_snapshot: bool,
    last_status: String,
}

/// The mathematical value of a session.
pub struct SessionModel {
    pub phase: Phase,
    /// Probes issued so far.
    pub attempts: nat,
    /// Whether a configuration existed before installing.
    pub had_snapshot: bool,
    /// The diagnostic of the latest failed probe.
    pub last_status: Seq<char>,
}

impl SessionModel {
    /// Probes are counted from one while probing and never pass the budget.
    pub open spec fn wf(self) -> bool {
        &&& self.attempts <= PROBE_ATTEMPTS
        &&& (self.phase == Phase::Probing || self.phase == Phase::CheckingStatus) ==> self.attempts
            >= 1
        &&& self.phase == Phase::FinalCheck ==> self.attempts == PROBE_ATTEMPTS
        &&& (self.phase == Phase::Idle || self.phase == Phase::Stopping || self.phase
            == Phase::Snapshotting || self.phase == Phase::Installing || self.phase
            == Phase::Reconciling || self.phase == Phase::Starting) ==> self.attempts == 0
    }

    pub open spec fn with_phase(self, phase: Phase) -> SessionModel {
        SessionModel { phase, ..self }
    }
}

/// The diagnostic recorded after a failed probe.
pub open spec fn status_line(status: Result<String, String>, attempt: nat) -> Seq<char> {
    match status {
        Ok(s) => "Status: "@ + trimmed(s@) + " | Port 18789: not accessible"@,
        Err(_) => "Gateway status check failed (attempt "@ + decimal(attempt) + "/8)"@,
    }
}

/// The final status text: the command's output, or a placeholder.
pub open spec fn final_status(status: Result<String, String>) -> Seq<char> {
    match status {
        Ok(s) => s@,
        Err(_) => "Unable to get status"@,
    }
}

pub open spec fn checklist() -> Seq<char> {
    "Troubleshooting:\n- run `openclaw gateway status` to see the service state\n- read ~/.openclaw/logs/gateway.log for errors\n- make sure no other program listens on port 18789\n- run `openclaw gateway install --force`, then start again\n"@
}

/// The diagnostic of an exhausted probe budget.
pub open spec fn exhausted_diagnostic(last: Seq<char>, last_query: Seq<char>) -> Seq<char> {
    "Gateway did not become accessible on port 18789 after 24+ seconds.\nLast status: "@ + last
        + "\nFinal gateway status:\n"@ + last_query + "\n"@ + checklist()
}

/// The session after an event.
pub open spec fn next_state(s: SessionModel, e: Event) -> SessionModel {
    match (s.phase, e) {
        (Phase::Idle, Event::Begin) => s.with_phase(Phase::Stopping),
        (Phase::Stopping, Event::Stopped) => s.with_phase(Phase::Snapshotting),
        (Phase::Snapshotting, Event::SnapshotRead(Ok(b))) => SessionModel {
            phase: Phase::Installing,
            had_snapshot: b,
            ..s
        },
        (Phase::Snapshotting, Event::SnapshotRead(Err(_))) => s.with_phase(Phase::Failed),
        (Phase::Installing, Event::Installed(Ok(out))) => if reports_failure(lower_of(out@)) {
            s.with_phase(Phase::Failed)
        } else if s.had_snapshot {
            s.with_phase(Phase::Reconciling)
        } else {
            s.with_phase(Phase::Starting)
        },
        (Phase::Installing, Event::Installed(Err(_))) => s.with_phase(Phase::Failed),
        (Phase::Reconciling, Event::Reconciled(Ok(()))) => s.with_phase(Phase::Starting),
        (Phase::Reconciling, Event::Reconciled(Err(_))) => s.with_phase(Phase::Failed),
        (Phase::Starting, Event::ServiceStarted(Ok(out))) => if reports_failure(lower_of(out@)) {
            s.with_phase(Phase::Failed)
        } else {
            SessionModel { phase: Phase::Probing, attempts: 1, ..s }
        },
        (Phase::Starting, Event::ServiceStarted(Err(_))) => s.with_phase(Phase::Failed),
        (Phase::Probing, Event::Probed(true)) => s.with_phase(Phase::Ready),
        (Phase::Probing, Event::Probed(false)) => s.with_phase(Phase::CheckingStatus),
        (Phase::CheckingStatus, Event::Status(r)) => if s.attempts < PROBE_ATTEMPTS {
            SessionModel {
                phase: Phase::Probing,
                attempts: s.attempts + 1,
                last_status: status_line(r, s.attempts),
                ..s
            }
        } else {
            SessionModel {
                phase: Phase::FinalCheck,
                last_status: status_line(r, s.attempts),
                ..s
            }
        },
        (Phase::FinalCheck, Event::Status(_)) => s.with_phase(Phase::Failed),
        _ => s,
    }
}

/// What the session asks for after an event.
pub open spec fn next_action(s: SessionModel, e: Event) -> ActionModel {
    match (s.phase, e) {
        (Phase::Idle, Event::Begin) => ActionModel::Run(0, Operation::StopService),
        (Phase::Stopping, Event::Stopped) => ActionModel::Run(
            STOP_SETTLE_MS as nat,
            Operation::ReadSnapshot,
        ),
        (Phase::Snapshotting, Event::SnapshotRead(Ok(_))) => ActionModel::Run(
            0,
            Operation::InstallService,
        ),
        (Phase::Snapshotting, Event::SnapshotRead(Err(d))) => ActionModel::Finish(
            Err((ErrorKind::IoFailure, d@)),
        ),
        (Phase::Installing, Event::Installed(Ok(out))) => if reports_failure(lower_of(out@)) {
            ActionModel::Finish(
                Err((ErrorKind::InstallFailed, "Gateway installation may have failed: "@ + out@)),
            )
        } else if s.had_snapshot {
            ActionModel::Run(0, Operation::Reconcile)
        } else {
            ActionModel::Run(0, Operation::StartService)
        },
        (Phase::Installing, Event::Installed(Err(d))) => ActionModel::Finish(
            Err((ErrorKind::InstallFailed, d@)),
        ),
        (Phase::Reconciling, Event::Reconciled(Ok(()))) => ActionModel::Run(
            0,
            Operation::StartService,
        ),
        (Phase::Reconciling, Event::Reconciled(Err(err))) => ActionModel::Finish(
            Err((err.kind(), err.detail_view())),
        ),
        (Phase::Starting, Event::ServiceStarted(Ok(out))) => if reports_failure(lower_of(out@)) {
            ActionModel::Finish(
                Err((ErrorKind::StartFailed, "Gateway start may have failed: "@ + out@)),
            )
        } else {
            ActionModel::Run(WARMUP_MS as nat, Operation::ProbePort)
        },
        (Phase::Starting, Event::ServiceStarted(Err(d))) => ActionModel::Finish(
            Err((ErrorKind::StartFailed, d@)),
        ),
        (Phase::Probing, Event::Probed(true)) => ActionModel::Finish(Ok(SERVICE_PORT as nat)),
        (Phase::Probing, Event::Probed(false)) => ActionModel::Run(0, Operation::QueryStatus),
        (Phase::CheckingStatus, Event::Status(_)) => if s.attempts < PROBE_ATTEMPTS {
            ActionModel::Run(PROBE_INTERVAL_MS as nat, Operation::ProbePort)
        } else {
            ActionModel::Run(0, Operation::QueryStatus)
        },
        (Phase::FinalCheck, Event::Status(r)) => ActionModel::Finish(
            Err((ErrorKind::ProbeExhausted, exhausted_diagnostic(s.last_status, final_status(r)))),
        ),
        _ => ActionModel::Ignore,
    }
}

fn status_text(status: &Result<String, String>, attempt: u64) -> (r: String)
    requires
        attempt <= PROBE_ATTEMPTS,
    ensures
        r@ == status_line(*status, attempt as nat),
{
    match status {
        Ok(s) => String::from_str("Status: ").concat(trim(s.as_str()).as_str()).concat(
            " | Port 18789: not accessible",
        ),
        Err(_) => String::from_str("Gateway status check failed (attempt ").concat(
            decimal_text(attempt).as_str(),
        ).concat("/8)"),
    }
}

fn diagnostic_text(last: &String, status: &Result<String, String>) -> (r: String)
    ensures
        r@ == exhausted_diagnostic(last@, final_status(*status)),
{
    let fin = match status {
        Ok(s) => s.clone(),
        Err(_) => String::from_str("Unable to get status"),
    };
    String::from_str(
        "Gateway did not become accessible on port 18789 after 24+ seconds.\nLast status: ",
    ).concat(last.as_str()).concat("\nFinal gateway status:\n").concat(fin.as_str()).concat(
        "\n",
    ).concat(
        "Troubleshooting:\n- run `openclaw gateway status` to see the service state\n- read ~/.openclaw/logs/gateway.log for errors\n- make sure no other program listens on port 18789\n- run `openclaw gateway install --force`, then start again\n",
    )
}

impl GatewaySession {
    pub closed spec fn model(&self) -> SessionModel {
        SessionModel {
            phase: self.phase,
            attempts: self.attempts as nat,
            had_snapshot: self.had_snapshot,
            last_status: self.last_status@,
        }
    }

    /// A session that has not begun.
    pub fn new() -> (r: GatewaySession)
        ensures
            r.model().phase == Phase::Idle,
            r.model().attempts == 0,
            r.model().wf(),
    {
        GatewaySession {
            phase: Phase::Idle,
            attempts: 0,
            had_snapshot: false,
            last_status: String::new(),
        }
    }

    pub fn phase(&self) -> (r: Phase)
        ensures
            r == self.model().phase,
    {
        self.phase
    }

    /// Probes issued so far.
    pub fn attempts(&self) -> (r: u64)
        ensures
            r == self.model().attempts,
    {
        self.attempts
    }

    /// Whether the attempt is over.
    pub fn is_finished(&self) -> (r: bool)
        ensures
            r == (self.model().phase == Phase::Ready || self.model().phase == Phase::Failed),
    {
        self.phase == Phase::Ready || self.phase == Phase::Failed
    }

    /// Takes in the outcome of the last operation and says what to do next.
    pub fn step(&mut self, e: Event) -> (act: Action)
        requires
            old(self).model().wf(),
        ensures
            final(self).model() == next_state(old(self).model(), e),
            act.model() == next_action(old(self).model(), e),
            final(self).model().wf(),
    {
        match (self.phase, e) {
            (Phase::Idle, Event::Begin) => {
                self.phase = Phase::Stopping;
                Action::Run { delay_ms: 0, op: Operation::StopService }
            },
            (Phase::Stopping, Event::Stopped) => {
                self.phase = Phase::Snapshotting;
                Action::Run { delay_ms: STOP_SETTLE_MS, op: Operation::ReadSnapshot }
            },
            (Phase::Snapshotting, Event::SnapshotRead(Ok(b))) => {
                self.phase = Phase::Installing;
                self.had_snapshot = b;
                Action::Run { delay_ms: 0, op: Operation::InstallService }
            },
            (Phase::Snapshotting, Event::SnapshotRead(Err(d))) => {
                self.phase = Phase::Failed;
                Action::Finish(Err(SetupError::IoFailure(d)))
            },
            (Phase::Installing, Event::Installed(Ok(out))) => {
                if output_reports_failure(out.as_str()) {
                    self.phase = Phase::Failed;
                    Action::Finish(
                        Err(
                            SetupError::InstallFailed(
                                String::from_str("Gateway installation may have failed: ").concat(
                                    out.as_str(),
                                ),
                            ),
                        ),
                    )
                } else if self.had_snapshot {
                    self.phase = Phase::Reconciling;
                    Action::Run { delay_ms: 0, op: Operation::Reconcile }
                } else {
                    self.phase = Phase::Starting;
                    Action::Run { delay_ms: 0, op: Operation::StartService }
                }
            },
            (Phase::Installing, Event::Installed(Err(d))) => {
                self.phase = Phase::Failed;
                Action::Finish(Err(SetupError::InstallFailed(d)))
            },
            (Phase::Reconciling, Event::Reconciled(Ok(()))) => {
                self.phase = Phase::Starting;
                Action::Run { delay_ms: 0, op: Operation::StartService }
            },
            (Phase::Reconciling, Event::Reconciled(Err(err))) => {
                self.phase = Phase::Failed;
                Action::Finish(Err(err))
            },
            (Phase::Starting, Event::ServiceStarted(Ok(out))) => {
                if output_reports_failure(out.as_str()) {
                    self.phase = Phase::Failed;
                    Action::Finish(
                        Err(
                            SetupError::StartFailed(
                                String::from_str("Gateway start may have failed: ").concat(
                                    out.as_str(),
                                ),
                            ),
                        ),
                    )
                } else {
                    self.phase = Phase::Probing;
                    self.attempts = 1;
                    Action::Run { delay_ms: WARMUP_MS, op: Operation::ProbePort }
                }
            },
            (Phase::Starting, Event::ServiceStarted(Err(d))) => {
                self.phase = Phase::Failed;
                Action::Finish(Err(SetupError::StartFailed(d)))
            },
            (Phase::Probing, Event::Probed(reachable)) => {
                if reachable {
                    self.phase = Phase::Ready;
                    Action::Finish(Ok(SERVICE_PORT))
                } else {
                    self.phase = Phase::CheckingStatus;
                    Action::Run { delay_ms: 0, op: Operation::QueryStatus }
                }
            },
            (Phase::CheckingStatus, Event::Status(r)) => {
                self.last_status = status_text(&r, self.attempts);
                if self.attempts < PROBE_ATTEMPTS {
                    self.phase = Phase::Probing;
                    self.attempts = self.attempts + 1;
                    Action::Run { delay_ms: PROBE_INTERVAL_MS, op: Operation::ProbePort }
                } else {
                    self.phase = Phase::FinalCheck;
                    Action::Run { delay_ms: 0, op: Operation::QueryStatus }
                }
            },
            (Phase::FinalCheck, Event::Status(r)) => {
                self.phase = Phase::Failed;
                Action::Finish(Err(SetupError::ProbeExhausted(diagnostic_text(&self.last_status, &r))))
            },
            _ => Action::Ignore,
        }
    }
}

/// The service command line that performs an operation, where it is one.
pub fn command_line(op: Operation) -> (r: Option<String>)
    ensures
        match op {
            Operation::StopService => r is Some && r->0@ == "openclaw gateway stop"@,
            Operation::InstallService => r is Some && r->0@ == "openclaw gateway install --force"@,
            Operation::StartService => r is Some && r->0@ == "openclaw gateway start"@,
            Operation::QueryStatus => r is Some && r->0@ == "openclaw gateway status"@,
            _ => r is None,
        },
{
    match op {
        Operation::StopService => Some(String::from_str("openclaw gateway stop")),
        Operation::InstallService => Some(String::from_str("openclaw gateway install --force")),
        Operation::StartService => Some(String::from_str("openclaw gateway start")),
        Operation::QueryStatus => Some(String::from_str("openclaw gateway status")),
        _ => None,
    }
}

/// The session after a sequence of events.
pub open spec fn run(s: SessionModel, evs: Seq<Event>) -> SessionModel
    decreases evs.len(),
{
    if evs.len() == 0 {
        s
    } else {
        run(next_state(s, evs[0]), evs.drop_first())
    }
}

/// Whether the session answers `e` by asking for a probe.
pub open spec fn asks_probe(s: SessionModel, e: Event) -> bool {
    next_action(s, e) matches ActionModel::Run(_, Operation::ProbePort)
}

/// How many probes the session asks for over a sequence of events.
pub open spec fn probes_asked(s: SessionModel, evs: Seq<Event>) -> nat
    decreases evs.len(),
{
    if evs.len() == 0 {
        0
    } else {
        (if asks_probe(s, evs[0]) {
            1nat
        } else {
            0nat
        }) + probes_asked(next_state(s, evs[0]), evs.drop_first())
    }
}

/// Every step keeps the session well formed, and the probe counter grows by
/// one exactly when a probe is asked for.
pub proof fn lemma_step_counts(s: SessionModel, e: Event)
    requires
        s.wf(),
    ensures
        next_state(s, e).wf(),
        asks_probe(s, e) ==> next_state(s, e).attempts == s.attempts + 1,
        !asks_probe(s, e) ==> next_state(s, e).attempts == s.attempts,
{
}

/// Over any sequence of events a session asks for at most the probe budget,
/// counting the probes it had already asked for.
pub proof fn law_probe_budget(s: SessionModel, evs: Seq<Event>)
    requires
        s.wf(),
    ensures
        s.attempts + probes_asked(s, evs) <= PROBE_ATTEMPTS,
    decreases evs.len(),
{
    if evs.len() > 0 {
        lemma_step_counts(s, evs[0]);
        law_probe_budget(next_state(s, evs[0]), evs.drop_first());
    }
}

/// A finished session stays as it is and asks for nothing, whatever follows.
pub proof fn law_finished_is_terminal(s: SessionModel, evs: Seq<Event>)
    requires
        s.phase == Phase::Ready || s.phase == Phase::Failed,
    ensures
        run(s, evs) == s,
        probes_asked(s, evs) == 0,
    decreases evs.len(),
{
    if evs.len() > 0 {
        law_finished_is_terminal(next_state(s, evs[0]), evs.drop_first());
    }
}

/// The first probe that connects ends the attempt as ready, on that attempt,
/// and no later probe is asked for.
pub proof fn law_probe_early_exit(s: SessionModel, later: Seq<Event>)
    requires
        s.wf(),
        s.phase == Phase::Probing,
    ensures
        next_state(s, Event::Probed(true)).phase == Phase::Ready,
        next_state(s, Event::Probed(true)).attempts == s.attempts,
        next_action(s, Event::Probed(true)) == ActionModel::Finish(Ok(SERVICE_PORT as nat)),
        probes_asked(next_state(s, Event::Probed(true)), later) == 0,
{
    law_finished_is_terminal(next_state(s, Event::Probed(true)), later);
}

/// After the last probe of the budget fails, the session asks for one final
/// status query instead of another probe, and that query's text ends up in
/// the exhaustion diagnostic.
pub proof fn law_probe_exhaustion(s: SessionModel, status: Result<String, String>, last: Result<String, String>)
    requires
        s.wf(),
        s.phase == Phase::CheckingStatus,
        s.attempts == PROBE_ATTEMPTS,
    ensures
        next_action(s, Event::Status(status)) == ActionModel::Run(0, Operation::QueryStatus),
        next_state(s, Event::Status(status)).phase == Phase::FinalCheck,
        ({
            let f = next_state(s, Event::Status(status));
            &&& next_state(f, Event::Status(last)).phase == Phase::Failed
            &&& next_action(f, Event::Status(last)) == ActionModel::Finish(
                Err(
                    (
                        ErrorKind::ProbeExhausted,
                        exhausted_diagnostic(status_line(status, s.attempts), final_status(last)),
                    ),
                ),
            )
        }),
{
}

/// The exhaustion diagnostic holds the final status text and the last
/// probe's diagnostic.
pub proof fn law_diagnostic_contents(last: Seq<char>, last_query: Seq<char>)
    ensures
        text_contains(exhausted_diagnostic(last, last_query), last_query),
        text_contains(exhausted_diagnostic(last, last_query), last),
{
    let head = "Gateway did not become accessible on port 18789 after 24+ seconds.\nLast status: "@;
    let mid = "\nFinal gateway status:\n"@;
    let d = exhausted_diagnostic(last, last_query);
    let i: int = (head.len() + last.len() + mid.len()) as int;
    assert(d.subrange(i, i + last_query.len()) =~= last_query);
    assert(occurs_at(d, last_query, i));
    let h: int = head.len() as int;
    assert(d.subrange(h, h + last.len()) =~= last);
    assert(occurs_at(d, last, head.len() as int));
}

} // verus!
