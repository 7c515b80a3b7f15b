use vstd::prelude::*;
use crate::text::{trim_rel, trimmed};

verus! {

/// Why device monitoring gave up.
#[derive(Clone, Copy, PartialEq, Eq, Structural, Debug)]
pub enum DeviceFailure {
    /// Pushing the signed package to the device failed.
    InstallFailed,
    /// Starting the package's entry point failed.
    LaunchFailed,
    /// A poll reported a running process, but what it returned is not
    /// process-id text; distinct from "not found yet", which is retried.
    UnexpectedProcessState,
}

/// Where the lifecycle monitor stands. The path is linear: install,
/// launch, wait for the process to appear, stream its logs while it
/// lives, then tear the log stream down.
#[derive(Clone, Copy, PartialEq, Eq, Structural, Debug)]
pub enum MonitorState {
    Install,
    Launch,
    /// Polling for the package's process id; `notice_emitted` records
    /// whether the one-time waiting notice has been printed.
    WaitForProcess { notice_emitted: bool },
    /// The log stream is attached and runs for the rest of the session.
    Attached,
    /// The process is gone; the log stream is being torn down.
    Terminating,
    Done,
    Failed { reason: DeviceFailure },
}

/// What the device reported back for the step the current state asked
/// for.
#[derive(Clone, Debug, PartialEq, Eq)]
pub enum MonitorEvent {
    InstallSucceeded,
    InstallFailed,
    LaunchSucceeded,
    LaunchFailed,
    /// The poll ran but found no process yet.
    PollMissing,
    /// The poll found a process; `pid_text` is its reported id decoded
    /// as text, or absent when the bytes were not decodable.
    PollFound { pid_text: Option<String> },
    StillAlive,
    ProcessGone,
    LogStreamKilled,
}

/// What the caller must do next. Every delay is fixed: a quarter second
/// before each process-id poll and before the final kill, a full second
/// between liveness checks.
#[derive(Clone, Debug, PartialEq, Eq)]
pub enum MonitorAction {
    InstallPackage,
    LaunchPackage,
    PollAfterDelay,
    /// Print the one-time waiting notice, then poll after the delay.
    NoticeThenPollAfterDelay,
    /// Spawn the log-streaming subprocess scoped to this process id.
    SpawnLogStream { pid: String },
    CheckAliveAfterDelay,
    /// Wait out the grace period, then kill the log subprocess.
    KillLogAfterGrace,
    Stop,
    Report { reason: DeviceFailure },
}

/// Which reports the current state can be answered with; the finished
/// and the failed monitor take no further events.
pub open spec fn monitor_expects(s: MonitorState, e: MonitorEvent) -> bool {
    match s {
        MonitorState::Install => e is InstallSucceeded || e is InstallFailed,
        MonitorState::Launch => e is LaunchSucceeded || e is LaunchFailed,
        MonitorState::WaitForProcess { .. } => e is PollMissing || e is PollFound,
        MonitorState::Attached => e is StillAlive || e is ProcessGone,
        MonitorState::Terminating => e is LogStreamKilled,
        MonitorState::Done => false,
        MonitorState::Failed { .. } => false,
    }
}

/// The transition relation. Install and launch failures are fatal; a
/// missing process is retried indefinitely; an undecodable process id is
/// fatal; the monitored process's own exit is the sole termination path.
pub open spec fn spec_next(no_logcat: bool, s: MonitorState, e: MonitorEvent) -> MonitorState {
    match s {
        MonitorState::Install => match e {
            MonitorEvent::InstallSucceeded => MonitorState::Launch,
            MonitorEvent::InstallFailed => MonitorState::Failed {
                reason: DeviceFailure::InstallFailed,
            },
            _ => s,
        },
        MonitorState::Launch => match e {
            MonitorEvent::LaunchSucceeded => if no_logcat {
                MonitorState::Done
            } else {
                MonitorState::WaitForProcess { notice_emitted: false }
            },
            MonitorEvent::LaunchFailed => MonitorState::Failed {
                reason: DeviceFailure::LaunchFailed,
            },
            _ => s,
        },
        MonitorState::WaitForProcess { .. } => match e {
            MonitorEvent::PollMissing => MonitorState::WaitForProcess { notice_emitted: true },
            MonitorEvent::PollFound { pid_text } => match pid_text {
                Some(_) => MonitorState::Attached,
                None => MonitorState::Failed { reason: DeviceFailure::UnexpectedProcessState },
            },
            _ => s,
        },
        MonitorState::Attached => match e {
            MonitorEvent::StillAlive => MonitorState::Attached,
            MonitorEvent::ProcessGone => MonitorState::Terminating,
            _ => s,
        },
        MonitorState::Terminating => match e {
            MonitorEvent::LogStreamKilled => MonitorState::Done,
            _ => s,
        },
        _ => s,
    }
}

/// Whether this step prints the waiting notice: only the first
/// unsuccessful poll does, never a later one.
pub open spec fn spec_notices(s: MonitorState, e: MonitorEvent) -> bool {
    &&& s == (MonitorState::WaitForProcess { notice_emitted: false })
    &&& e is PollMissing
}

/// The state after a whole sequence of reports.
pub open spec fn spec_run(no_logcat: bool, s: MonitorState, events: Seq<MonitorEvent>) -> MonitorState
    decreases events.len(),
{
    if events.len() == 0 {
        s
    } else {
        spec_run(no_logcat, spec_next(no_logcat, s, events[0]), events.skip(1))
    }
}

/// How many waiting notices a sequence of reports makes the monitor
/// print.
pub open spec fn spec_notice_count(
    no_logcat: bool,
    s: MonitorState,
    events: Seq<MonitorEvent>,
) -> nat
    decreases events.len(),
{
    if events.len() == 0 {
        0
    } else {
        (if spec_notices(s, events[0]) {
            1nat
        } else {
            0nat
        }) + spec_notice_count(no_logcat, spec_next(no_logcat, s, events[0]), events.skip(1))
    }
}

/// The device process lifecycle monitor. The caller performs each
/// returned action against the device and reports what it observed; the
/// monitor holds every decision.
pub struct Monitor {
    /// When set, log streaming is disabled: the session ends right after
    /// a successful launch and the waiting phase is never entered.
    pub no_logcat: bool,
    pub state: MonitorState,
}

impl Monitor {
    /// A fresh monitor; the caller's first action is installing the
    /// package.
    pub fn new(no_logcat: bool) -> (m: Monitor)
        ensures
            m.no_logcat == no_logcat,
            m.state == MonitorState::Install,
    {
        Monitor { no_logcat, state: MonitorState::Install }
    }

    /// Advance on one report and say what to do next. The one-time
    /// waiting notice is owed exactly when the report is the first
    /// unsuccessful poll; the log stream is spawned exactly on the poll
    /// that finds a decodable process id, with that id trimmed of
    /// surrounding whitespace.
    pub fn step(&mut self, e: MonitorEvent) -> (a: MonitorAction)
        requires
            monitor_expects(old(self).state, e),
        ensures
            final(self).no_logcat == old(self).no_logcat,
            final(self).state == spec_next(old(self).no_logcat, old(self).state, e),
            a is NoticeThenPollAfterDelay <==> spec_notices(old(self).state, e),
            final(self).state is Launch ==> a is LaunchPackage,
            final(self).state matches MonitorState::WaitForProcess { .. } ==> (a
                is PollAfterDelay || a is NoticeThenPollAfterDelay),
            old(self).state matches MonitorState::WaitForProcess { .. } && final(self).state
                is Attached ==> (a matches MonitorAction::SpawnLogStream { pid } && (e
                matches MonitorEvent::PollFound { pid_text } && pid_text matches Some(t)
                && trim_rel(t@, pid@))),
            old(self).state is Attached && final(self).state is Attached ==> a
                is CheckAliveAfterDelay,
            final(self).state is Terminating ==> a is KillLogAfterGrace,
            final(self).state is Done ==> a is Stop,
            final(self).state matches MonitorState::Failed { reason } ==> (a
                matches MonitorAction::Report { reason: r } && r == reason),
    {
        match self.state {
            MonitorState::Install => match e {
                MonitorEvent::InstallSucceeded => {
                    self.state = MonitorState::Launch;
                    MonitorAction::LaunchPackage
                },
                _ => {
                    self.state = MonitorState::Failed { reason: DeviceFailure::InstallFailed };
                    MonitorAction::Report { reason: DeviceFailure::InstallFailed }
                },
            },
            MonitorState::Launch => match e {
                MonitorEvent::LaunchSucceeded => {
                    if self.no_logcat {
                        self.state = MonitorState::Done;
                        MonitorAction::Stop
                    } else {
                        self.state = MonitorState::WaitForProcess { notice_emitted: false };
                        MonitorAction::PollAfterDelay
                    }
                },
                _ => {
                    self.state = MonitorState::Failed { reason: DeviceFailure::LaunchFailed };
                    MonitorAction::Report { reason: DeviceFailure::LaunchFailed }
                },
            },
            MonitorState::WaitForProcess { notice_emitted } => match e {
                MonitorEvent::PollMissing => {
                    self.state = MonitorState::WaitForProcess { notice_emitted: true };
                    if notice_emitted {
                        MonitorAction::PollAfterDelay
                    } else {
                        MonitorAction::NoticeThenPollAfterDelay
                    }
                },
                MonitorEvent::PollFound { pid_text } => match pid_text {
                    Some(t) => {
                        self.state = MonitorState::Attached;
                        MonitorAction::SpawnLogStream { pid: trimmed(t.as_str()) }
                    },
                    None => {
                        self.state = MonitorState::Failed {
                            reason: DeviceFailure::UnexpectedProcessState,
                        };
                        MonitorAction::Report { reason: DeviceFailure::UnexpectedProcessState }
                    },
                },
                _ => {
                    proof {
                        assert(false);
                    }
                    MonitorAction::Stop
                },
            },
            MonitorState::Attached => match e {
                MonitorEvent::StillAlive => MonitorAction::CheckAliveAfterDelay,
                _ => {
                    self.state = MonitorState::Terminating;
                    MonitorAction::KillLogAfterGrace
                },
            },
            MonitorState::Terminating => {
                self.state = MonitorState::Done;
                MonitorAction::Stop
            },
            _ => {
                proof {
                    assert(false);
                }
                MonitorAction::Stop
            },
        }
    }
}

/// From the already-noticed waiting state, polls that keep missing keep
/// the monitor waiting and print nothing further.
proof fn lemma_wait_missing_quiet(no_logcat: bool, events: Seq<MonitorEvent>)
    requires
        forall|i: int| 0 <= i < events.len() ==> events[i] is PollMissing,
    ensures
        spec_run(no_logcat, MonitorState::WaitForProcess { notice_emitted: true }, events) == (
        MonitorState::WaitForProcess { notice_emitted: true }),
        spec_notice_count(no_logcat, MonitorState::WaitForProcess { notice_emitted: true }, events)
            == 0,
    decreases events.len(),
{
    if events.len() > 0 {
        assert(events[0] is PollMissing);
        lemma_wait_missing_quiet(no_logcat, events.skip(1));
    }
}

/// If no poll ever finds the process, the monitor never leaves the
/// waiting phase — in particular it never attaches, so no log stream is
/// ever spawned — and the waiting notice is printed exactly once, on the
/// first unsuccessful poll.
pub proof fn lemma_no_process_never_attaches(no_logcat: bool, events: Seq<MonitorEvent>)
    requires
        forall|i: int| 0 <= i < events.len() ==> events[i] is PollMissing,
    ensures
        spec_run(no_logcat, MonitorState::WaitForProcess { notice_emitted: false }, events)
            matches MonitorState::WaitForProcess { .. },
        spec_notice_count(
            no_logcat,
            MonitorState::WaitForProcess { notice_emitted: false },
            events,
        ) == if events.len() == 0 {
            0int
        } else {
            1int
        },
{
    let start = MonitorState::WaitForProcess { notice_emitted: false };
    if events.len() > 0 {
        assert(events[0] is PollMissing);
        assert(spec_notices(start, events[0]));
        lemma_wait_missing_quiet(no_logcat, events.skip(1));
    }
}

/// From the already-noticed waiting state, misses followed by a
/// successful poll attach quietly.
proof fn lemma_wait_attach_quiet(
    no_logcat: bool,
    misses: Seq<MonitorEvent>,
    found: MonitorEvent,
)
    requires
        forall|i: int| 0 <= i < misses.len() ==> misses[i] is PollMissing,
        found matches MonitorEvent::PollFound { pid_text } && pid_text is Some,
    ensures
        spec_run(no_logcat, MonitorState::WaitForProcess { notice_emitted: true }, misses.push(
            found,
        )) == MonitorState::Attached,
        spec_notice_count(
            no_logcat,
            MonitorState::WaitForProcess { notice_emitted: true },
            misses.push(found),
        ) == 0,
    decreases misses.len(),
{
    let start = MonitorState::WaitForProcess { notice_emitted: true };
    let events = misses.push(found);
    if misses.len() == 0 {
        assert(events[0] == found);
        assert(events.skip(1) =~= Seq::<MonitorEvent>::empty());
        assert(spec_next(no_logcat, start, found) == MonitorState::Attached);
        assert(spec_run(no_logcat, MonitorState::Attached, events.skip(1))
            == MonitorState::Attached);
        assert(spec_notice_count(no_logcat, MonitorState::Attached, events.skip(1)) == 0);
        assert(!spec_notices(start, found));
    } else {
        assert(events[0] == misses[0]);
        assert(events.skip(1) =~= misses.skip(1).push(found));
        assert(forall|i: int|
            0 <= i < misses.skip(1).len() ==> misses.skip(1)[i] == misses[i + 1]);
        lemma_wait_attach_quiet(no_logcat, misses.skip(1), found);
        assert(spec_next(no_logcat, start, events[0]) == start);
        assert(spec_run(no_logcat, start, events.skip(1)) == MonitorState::Attached);
        assert(spec_notice_count(no_logcat, start, events.skip(1)) == 0);
        assert(!spec_notices(start, events[0]));
    }
}

/// If the first polls miss and a later one finds a decodable process id,
/// the monitor attaches exactly then, and the waiting notice was printed
/// exactly once — on the first miss — or not at all when the very first
/// poll succeeded.
pub proof fn lemma_attach_on_success(
    no_logcat: bool,
    misses: Seq<MonitorEvent>,
    found: MonitorEvent,
)
    requires
        forall|i: int| 0 <= i < misses.len() ==> misses[i] is PollMissing,
        found matches MonitorEvent::PollFound { pid_text } && pid_text is Some,
    ensures
        spec_run(no_logcat, MonitorState::WaitForProcess { notice_emitted: false }, misses.push(
            found,
        )) == MonitorState::Attached,
        spec_notice_count(
            no_logcat,
            MonitorState::WaitForProcess { notice_emitted: false },
            misses.push(found),
        ) == if misses.len() == 0 {
            0int
        } else {
            1int
        },
{
    let start = MonitorState::WaitForProcess { notice_emitted: false };
    let noticed = MonitorState::WaitForProcess { notice_emitted: true };
    let events = misses.push(found);
    if misses.len() == 0 {
        assert(events[0] == found);
        assert(events.skip(1) =~= Seq::<MonitorEvent>::empty());
        assert(spec_next(no_logcat, start, found) == MonitorState::Attached);
        assert(spec_run(no_logcat, MonitorState::Attached, events.skip(1))
            == MonitorState::Attached);
        assert(spec_notice_count(no_logcat, MonitorState::Attached, events.skip(1)) == 0);
        assert(!spec_notices(start, found));
    } else {
        assert(events[0] == misses[0]);
        assert(spec_notices(start, events[0]));
        assert(events.skip(1) =~= misses.skip(1).push(found));
        assert(forall|i: int|
            0 <= i < misses.skip(1).len() ==> misses.skip(1)[i] == misses[i + 1]);
        lemma_wait_attach_quiet(no_logcat, misses.skip(1), found);
        assert(spec_next(no_logcat, start, events[0]) == noticed);
        assert(spec_run(no_logcat, noticed, events.skip(1)) == MonitorState::Attached);
        assert(spec_notice_count(no_logcat, noticed, events.skip(1)) == 0);
    }
}

} // verus!
