use vstd::prelude::*;

verus! {

/// Where a build session stands. Targets are compiled strictly in the
/// order they were resolved; each index below refers to that order.
#[derive(Clone, Copy, PartialEq, Eq, Structural, Debug)]
pub enum BuildPhase {
    /// Compile the artifact for the target at this index.
    Compile { idx: usize },
    /// Resolve the compiled artifact's native dependencies and add them
    /// to the package's slot for the target at this index.
    AddLibraries { idx: usize },
    /// Every target's library set is in the package: align and compress
    /// it into an unsigned package.
    Finalize,
    /// The unsigned package is ready for signing.
    Complete,
    /// A step for the target at this index failed; the whole build is
    /// abandoned and no partial package is produced.
    Aborted { idx: usize },
}

/// The outcome of the one external step the current phase asked for.
#[derive(Clone, Copy, PartialEq, Eq, Structural, Debug)]
pub enum BuildEvent {
    CompileSucceeded,
    CompileFailed,
    LibrariesAdded,
    LibrariesFailed,
    Finalized,
}

/// A multi-target build session over `n_targets` resolved targets.
#[derive(Clone, Copy, PartialEq, Eq, Structural, Debug)]
pub struct BuildSession {
    pub n_targets: usize,
    pub phase: BuildPhase,
}

/// A session never points past its target list, and holds at least one
/// target.
pub open spec fn session_wf(s: BuildSession) -> bool {
    &&& s.n_targets > 0
    &&& match s.phase {
        BuildPhase::Compile { idx } => idx < s.n_targets,
        BuildPhase::AddLibraries { idx } => idx < s.n_targets,
        BuildPhase::Aborted { idx } => idx < s.n_targets,
        _ => true,
    }
}

/// Which outcomes the current phase can be answered with; the finished
/// and the aborted session take no further events.
pub open spec fn session_expects(s: BuildSession, e: BuildEvent) -> bool {
    match s.phase {
        BuildPhase::Compile { .. } => e is CompileSucceeded || e is CompileFailed,
        BuildPhase::AddLibraries { .. } => e is LibrariesAdded || e is LibrariesFailed,
        BuildPhase::Finalize => e is Finalized,
        BuildPhase::Complete => false,
        BuildPhase::Aborted { .. } => false,
    }
}

/// The transition relation: success moves to the next step of the same
/// target, then to the next target, then to finalization; any failure
/// moves to the aborted phase for the failing target, which absorbs
/// every later event.
pub open spec fn spec_step(s: BuildSession, e: BuildEvent) -> BuildSession {
    let phase = match s.phase {
        BuildPhase::Compile { idx } => match e {
            BuildEvent::CompileSucceeded => BuildPhase::AddLibraries { idx },
            BuildEvent::CompileFailed => BuildPhase::Aborted { idx },
            _ => s.phase,
        },
        BuildPhase::AddLibraries { idx } => match e {
            BuildEvent::LibrariesAdded => if idx + 1 < s.n_targets {
                BuildPhase::Compile { idx: (idx + 1) as usize }
            } else {
                BuildPhase::Finalize
            },
            BuildEvent::LibrariesFailed => BuildPhase::Aborted { idx },
            _ => s.phase,
        },
        BuildPhase::Finalize => match e {
            BuildEvent::Finalized => BuildPhase::Complete,
            _ => s.phase,
        },
        _ => s.phase,
    };
    BuildSession { n_targets: s.n_targets, phase }
}

/// The session after a whole sequence of outcomes.
pub open spec fn spec_run(s: BuildSession, events: Seq<BuildEvent>) -> BuildSession
    decreases events.len(),
{
    if events.len() == 0 {
        s
    } else {
        spec_run(spec_step(s, events[0]), events.skip(1))
    }
}

impl BuildSession {
    /// A fresh session: the first target's compilation is next.
    pub fn new(n_targets: usize) -> (s: BuildSession)
        requires
            n_targets > 0,
        ensures
            s == (BuildSession { n_targets, phase: BuildPhase::Compile { idx: 0 } }),
            session_wf(s),
    {
        BuildSession { n_targets, phase: BuildPhase::Compile { idx: 0 } }
    }

    /// Record the outcome of the step the current phase asked for.
    pub fn step(&mut self, e: BuildEvent)
        requires
            session_wf(*old(self)),
            session_expects(*old(self), e),
        ensures
            *final(self) == spec_step(*old(self), e),
            session_wf(*final(self)),
    {
        let phase = match self.phase {
            BuildPhase::Compile { idx } => match e {
                BuildEvent::CompileSucceeded => BuildPhase::AddLibraries { idx },
                _ => BuildPhase::Aborted { idx },
            },
            BuildPhase::AddLibraries { idx } => match e {
                BuildEvent::LibrariesAdded => if idx + 1 < self.n_targets {
                    BuildPhase::Compile { idx: idx + 1 }
                } else {
                    BuildPhase::Finalize
                },
                _ => BuildPhase::Aborted { idx },
            },
            BuildPhase::Finalize => BuildPhase::Complete,
            phase => phase,
        };
        self.phase = phase;
    }
}

/// An aborted session absorbs every further event: nothing restarts it.
pub proof fn lemma_aborted_absorbs(s: BuildSession, events: Seq<BuildEvent>)
    requires
        s.phase matches BuildPhase::Aborted { .. },
    ensures
        spec_run(s, events) == s,
    decreases events.len(),
{
    if events.len() > 0 {
        assert(spec_step(s, events[0]) == s);
        lemma_aborted_absorbs(s, events.skip(1));
    }
}

/// A run never changes how many targets the session has.
pub proof fn lemma_run_keeps_targets(s: BuildSession, events: Seq<BuildEvent>)
    ensures
        spec_run(s, events).n_targets == s.n_targets,
    decreases events.len(),
{
    if events.len() > 0 {
        lemma_run_keeps_targets(spec_step(s, events[0]), events.skip(1));
    }
}

/// Running a concatenation of outcome sequences runs the second from
/// where the first left off.
pub proof fn lemma_run_append(s: BuildSession, a: Seq<BuildEvent>, b: Seq<BuildEvent>)
    ensures
        spec_run(s, a + b) == spec_run(spec_run(s, a), b),
    decreases a.len(),
{
    if a.len() == 0 {
        assert(a + b =~= b);
    } else {
        assert((a + b).skip(1) =~= a.skip(1) + b);
        lemma_run_append(spec_step(s, a[0]), a.skip(1), b);
    }
}

/// The outcome sequence of a fully successful session over the targets
/// from `idx` on: each remaining target compiles and has its libraries
/// added, then the package is finalized.
pub open spec fn success_trace(n_targets: nat, idx: nat) -> Seq<BuildEvent>
    decreases n_targets - idx,
{
    if idx >= n_targets {
        seq![BuildEvent::Finalized]
    } else {
        seq![BuildEvent::CompileSucceeded, BuildEvent::LibrariesAdded] + success_trace(
            n_targets,
            idx + 1,
        )
    }
}

/// When every step succeeds, the session runs to completion: every
/// target's library set lands in the package, in order, and
/// finalization follows.
pub proof fn lemma_all_success_completes(s: BuildSession, idx: usize)
    requires
        session_wf(s),
        s.phase == (BuildPhase::Compile { idx }),
    ensures
        spec_run(s, success_trace(s.n_targets as nat, idx as nat)) == (BuildSession {
            n_targets: s.n_targets,
            phase: BuildPhase::Complete,
        }),
    decreases s.n_targets - idx,
{
    let n = s.n_targets;
    let tr = success_trace(n as nat, idx as nat);
    let rest = success_trace(n as nat, idx as nat + 1);
    assert(tr == seq![BuildEvent::CompileSucceeded, BuildEvent::LibrariesAdded] + rest);
    let s1 = spec_step(s, BuildEvent::CompileSucceeded);
    let s2 = spec_step(s1, BuildEvent::LibrariesAdded);
    assert(s1.phase == (BuildPhase::AddLibraries { idx }));
    assert(tr[0] == BuildEvent::CompileSucceeded);
    assert(tr.skip(1) =~= seq![BuildEvent::LibrariesAdded] + rest);
    assert(spec_run(s, tr) == spec_run(s1, tr.skip(1)));
    assert(tr.skip(1)[0] == BuildEvent::LibrariesAdded);
    assert(tr.skip(1).skip(1) =~= rest);
    assert(spec_run(s1, tr.skip(1)) == spec_run(s2, rest));
    if idx + 1 < n {
        assert(s2.phase == (BuildPhase::Compile { idx: (idx + 1) as usize }));
        lemma_all_success_completes(s2, (idx + 1) as usize);
    } else {
        assert(s2.phase == BuildPhase::Finalize);
        assert(rest == seq![BuildEvent::Finalized]);
        assert(rest[0] == BuildEvent::Finalized);
        assert(rest.skip(1) =~= Seq::<BuildEvent>::empty());
        assert(spec_run(s2, rest) == spec_run(spec_step(s2, BuildEvent::Finalized), rest.skip(1)));
        assert(spec_step(s2, BuildEvent::Finalized).phase == BuildPhase::Complete);
    }
}

/// Sequential abort: when the session reaches target `k` and that
/// target's compilation fails, every later state of the session is the
/// aborted state for target `k` — whatever else happens, the build of
/// target `k + 1` never begins and no package is finalized.
pub proof fn lemma_sequential_abort(
    s: BuildSession,
    pre: Seq<BuildEvent>,
    post: Seq<BuildEvent>,
    k: usize,
)
    requires
        spec_run(s, pre).phase == (BuildPhase::Compile { idx: k }),
    ensures
        spec_run(s, pre + seq![BuildEvent::CompileFailed] + post) == (BuildSession {
            n_targets: s.n_targets,
            phase: BuildPhase::Aborted { idx: k },
        }),
{
    let at_k = spec_run(s, pre);
    lemma_run_keeps_targets(s, pre);
    lemma_run_append(s, pre, seq![BuildEvent::CompileFailed] + post);
    lemma_run_append(at_k, seq![BuildEvent::CompileFailed], post);
    assert(pre + seq![BuildEvent::CompileFailed] + post =~= pre + (seq![BuildEvent::CompileFailed]
        + post));
    let failed = spec_step(at_k, BuildEvent::CompileFailed);
    assert(spec_run(at_k, seq![BuildEvent::CompileFailed]) == spec_run(
        failed,
        seq![BuildEvent::CompileFailed].skip(1),
    ));
    assert(seq![BuildEvent::CompileFailed].skip(1) =~= Seq::<BuildEvent>::empty());
    lemma_aborted_absorbs(failed, post);
}

} // verus!
