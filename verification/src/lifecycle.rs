//! The lifecycle coordinator: strictly ordered, fail-fast startup
//! (logger, pool, scheduler, listener), then serving, then an orderly
//! shutdown that stops accepting new connections while letting in-flight
//! requests drain. The coordinator decides; performing each stage's real
//! work and feeding back its outcome is the caller's side effect.

use vstd::prelude::*;

verus! {

/// The externally visible lifecycle state. Transitions are strictly
/// forward; no state is revisited.
#[derive(Clone, Copy, PartialEq, Eq, Structural, Debug)]
pub enum LifecycleState {
    Starting,
    Serving,
    ShuttingDown,
    Stopped,
}

impl LifecycleState {
    /// Rank of a state along the forward-only order.
    pub open spec fn rank(self) -> nat {
        match self {
            LifecycleState::Starting => 0,
            LifecycleState::Serving => 1,
            LifecycleState::ShuttingDown => 2,
            LifecycleState::Stopped => 3,
        }
    }
}

/// The four startup stages, in the order they must run.
#[derive(Clone, Copy, PartialEq, Eq, Structural, Debug)]
pub enum StartupStage {
    InitLogger,
    ConnectPool,
    StartScheduler,
    BindListener,
}

/// Internal phase of the coordinator.
#[derive(Clone, Copy, PartialEq, Eq, Structural, Debug)]
pub enum Phase {
    /// Startup in progress; `next` is the stage that must run next.
    Startup { next: StartupStage },
    /// The listener is bound and serving.
    Serving,
    /// Termination was signalled; draining in-flight requests.
    ShuttingDown,
    /// Clean shutdown finished.
    Stopped,
    /// A startup stage failed; the process aborts with a non-zero status.
    Aborted { failed: StartupStage },
}

/// The lifecycle coordinator.
#[derive(Clone, Copy, PartialEq, Eq, Structural, Debug)]
pub struct Coordinator {
    pub phase: Phase,
    /// Whether the scheduler was ever confirmed started.
    pub scheduler_started: bool,
    /// Whether the listener was ever bound.
    pub listener_bound: bool,
    /// Number of accepted requests not yet finished.
    pub in_flight: u64,
}

/// The phase that follows a successfully completed stage.
pub open spec fn stage_after(stage: StartupStage) -> Phase {
    match stage {
        StartupStage::InitLogger => Phase::Startup { next: StartupStage::ConnectPool },
        StartupStage::ConnectPool => Phase::Startup { next: StartupStage::StartScheduler },
        StartupStage::StartScheduler => Phase::Startup { next: StartupStage::BindListener },
        StartupStage::BindListener => Phase::Serving,
    }
}

impl Coordinator {
    /// The freshly created coordinator: nothing has run yet.
    pub open spec fn spec_new() -> Coordinator {
        Coordinator {
            phase: Phase::Startup { next: StartupStage::InitLogger },
            scheduler_started: false,
            listener_bound: false,
            in_flight: 0,
        }
    }

    /// The externally visible state of a phase.
    pub open spec fn spec_state(self) -> LifecycleState {
        match self.phase {
            Phase::Startup { .. } => LifecycleState::Starting,
            Phase::Serving => LifecycleState::Serving,
            Phase::ShuttingDown => LifecycleState::ShuttingDown,
            Phase::Stopped => LifecycleState::Stopped,
            Phase::Aborted { .. } => LifecycleState::Stopped,
        }
    }

    /// The stage that must run next, while startup is in progress.
    pub open spec fn spec_pending_stage(self) -> Option<StartupStage> {
        match self.phase {
            Phase::Startup { next } => Some(next),
            _ => None,
        }
    }

    /// The process exit status once it is decided: non-zero after a startup
    /// failure, zero after a clean shutdown.
    pub open spec fn spec_exit_code(self) -> Option<i32> {
        match self.phase {
            Phase::Aborted { .. } => Some(1),
            Phase::Stopped => Some(0),
            _ => None,
        }
    }

    /// Effect of completing the pending stage with the given outcome:
    /// success advances to the next stage (recording a confirmed scheduler
    /// start or listener bind), failure aborts startup for good. Outside of
    /// startup nothing changes.
    pub open spec fn spec_complete_stage(self, success: bool) -> Coordinator {
        match self.phase {
            Phase::Startup { next } => if success {
                Coordinator {
                    phase: stage_after(next),
                    scheduler_started: self.scheduler_started || next
                        == StartupStage::StartScheduler,
                    listener_bound: self.listener_bound || next == StartupStage::BindListener,
                    ..self
                }
            } else {
                Coordinator { phase: Phase::Aborted { failed: next }, ..self }
            },
            _ => self,
        }
    }

    /// Creates the coordinator, ready to run the first startup stage.
    pub fn new() -> (r: Coordinator)
        ensures
            r == Coordinator::spec_new(),
    {
        Coordinator {
            phase: Phase::Startup { next: StartupStage::InitLogger },
            scheduler_started: false,
            listener_bound: false,
            in_flight: 0,
        }
    }

    /// The stage the caller must run next, or `None` when startup is over.
    pub fn pending_stage(&self) -> (r: Option<StartupStage>)
        ensures
            r == self.spec_pending_stage(),
    {
        match self.phase {
            Phase::Startup { next } => Some(next),
            _ => None,
        }
    }

    /// The externally visible lifecycle state.
    pub fn state(&self) -> (r: LifecycleState)
        ensures
            r == self.spec_state(),
    {
        match self.phase {
            Phase::Startup { .. } => LifecycleState::Starting,
            Phase::Serving => LifecycleState::Serving,
            Phase::ShuttingDown => LifecycleState::ShuttingDown,
            Phase::Stopped => LifecycleState::Stopped,
            Phase::Aborted { .. } => LifecycleState::Stopped,
        }
    }

    /// The decided exit status, if any.
    pub fn exit_code(&self) -> (r: Option<i32>)
        ensures
            r == self.spec_exit_code(),
    {
        match self.phase {
            Phase::Aborted { .. } => Some(1),
            Phase::Stopped => Some(0),
            _ => None,
        }
    }

    /// Records the outcome of the pending startup stage. Each stage must
    /// fully succeed before the next begins; a failure aborts startup and
    /// decides a non-zero exit status before any later stage runs.
    pub fn complete_stage(&mut self, success: bool)
        requires
            old(self).phase is Startup,
        ensures
            *final(self) == old(self).spec_complete_stage(success),
            final(self).spec_state().rank() >= old(self).spec_state().rank(),
            !success ==> final(self).spec_exit_code() == Some(1i32),
    {
        match self.phase {
            Phase::Startup { next } => {
                if success {
                    if matches!(next, StartupStage::StartScheduler) {
                        self.scheduler_started = true;
                    }
                    if matches!(next, StartupStage::BindListener) {
                        self.listener_bound = true;
                    }
                    self.phase = match next {
                        StartupStage::InitLogger => Phase::Startup {
                            next: StartupStage::ConnectPool,
                        },
                        StartupStage::ConnectPool => Phase::Startup {
                            next: StartupStage::StartScheduler,
                        },
                        StartupStage::StartScheduler => Phase::Startup {
                            next: StartupStage::BindListener,
                        },
                        StartupStage::BindListener => Phase::Serving,
                    };
                } else {
                    self.phase = Phase::Aborted { failed: next };
                }
            },
            _ => {},
        }
    }

    /// Effect of the termination signal.
    pub open spec fn spec_signal_shutdown(self) -> Coordinator {
        Coordinator { phase: Phase::ShuttingDown, ..self }
    }

    /// The termination signal: serving stops accepting and starts draining.
    pub fn signal_shutdown(&mut self)
        requires
            old(self).phase is Serving,
        ensures
            *final(self) == old(self).spec_signal_shutdown(),
            final(self).spec_state().rank() >= old(self).spec_state().rank(),
    {
        self.phase = Phase::ShuttingDown;
    }

    /// Effect of a connection attempt: accepted only while serving.
    pub open spec fn spec_try_accept(self) -> (Coordinator, bool) {
        if self.phase is Serving {
            (Coordinator { in_flight: (self.in_flight + 1) as u64, ..self }, true)
        } else {
            (self, false)
        }
    }

    /// A connection attempt. Accepted if and only if the coordinator is
    /// serving; after the termination signal no new connection is accepted.
    pub fn try_accept(&mut self) -> (accepted: bool)
        requires
            old(self).in_flight < u64::MAX,
        ensures
            (*final(self), accepted) == old(self).spec_try_accept(),
            accepted == (old(self).phase is Serving),
            final(self).spec_state() == old(self).spec_state(),
    {
        match self.phase {
            Phase::Serving => {
                self.in_flight = self.in_flight + 1;
                true
            },
            _ => false,
        }
    }

    /// Effect of finishing one request: delivered whenever one was in
    /// flight, also while shutting down.
    pub open spec fn spec_finish_request(self) -> (Coordinator, bool) {
        if self.in_flight > 0 {
            (Coordinator { in_flight: (self.in_flight - 1) as u64, ..self }, true)
        } else {
            (self, false)
        }
    }

    /// Finishes one in-flight request; its response is delivered even after
    /// the termination signal.
    pub fn finish_request(&mut self) -> (delivered: bool)
        ensures
            (*final(self), delivered) == old(self).spec_finish_request(),
            delivered == (old(self).in_flight > 0),
            final(self).spec_state() == old(self).spec_state(),
    {
        if self.in_flight > 0 {
            self.in_flight = self.in_flight - 1;
            true
        } else {
            false
        }
    }

    /// Completes the drained shutdown: the process exits with status zero.
    pub fn complete_shutdown(&mut self)
        requires
            old(self).phase is ShuttingDown,
            old(self).in_flight == 0,
        ensures
            final(self).phase == Phase::Stopped,
            final(self).spec_exit_code() == Some(0i32),
            final(self).spec_state().rank() >= old(self).spec_state().rank(),
            final(self).in_flight == 0,
            final(self).scheduler_started == old(self).scheduler_started,
            final(self).listener_bound == old(self).listener_bound,
    {
        self.phase = Phase::Stopped;
    }
}

/// Startup ordering: when pool establishment fails, the scheduler is never
/// started and the listener never binds. After the failure no stage is
/// pending, every further outcome leaves the coordinator unchanged, and the
/// decided exit status is non-zero.
pub proof fn lemma_pool_failure_halts_startup()
    ensures
        ({
            let after_logger = Coordinator::spec_new().spec_complete_stage(true);
            let after_pool_failure = after_logger.spec_complete_stage(false);
            &&& !after_pool_failure.scheduler_started
            &&& !after_pool_failure.listener_bound
            &&& after_pool_failure.phase == (Phase::Aborted { failed: StartupStage::ConnectPool })
            &&& after_pool_failure.spec_exit_code() == Some(1i32)
            &&& after_pool_failure.spec_pending_stage() is None
            &&& forall|success: bool|
                #[trigger] after_pool_failure.spec_complete_stage(success) == after_pool_failure
        }),
{
}

/// A fully successful startup visits the four stages in order and only then
/// serves, with the scheduler confirmed started before the listener binds.
pub proof fn lemma_startup_order()
    ensures
        ({
            let c0 = Coordinator::spec_new();
            let c1 = c0.spec_complete_stage(true);
            let c2 = c1.spec_complete_stage(true);
            let c3 = c2.spec_complete_stage(true);
            let c4 = c3.spec_complete_stage(true);
            &&& c0.spec_pending_stage() == Some(StartupStage::InitLogger)
            &&& c1.spec_pending_stage() == Some(StartupStage::ConnectPool)
            &&& c2.spec_pending_stage() == Some(StartupStage::StartScheduler)
            &&& c3.spec_pending_stage() == Some(StartupStage::BindListener)
            &&& !c3.listener_bound && c3.scheduler_started
            &&& c4.phase is Serving && c4.scheduler_started && c4.listener_bound
        }),
{
}

/// Shutdown: after the termination signal no new connection is accepted,
/// while a request already in flight still completes and its response is
/// delivered.
pub proof fn lemma_shutdown_drains(c: Coordinator)
    requires
        c.phase is ShuttingDown,
        c.in_flight > 0,
    ensures
        c.spec_try_accept() == (c, false),
        c.spec_finish_request().1 == true,
        c.spec_finish_request().0.in_flight == c.in_flight - 1,
        c.spec_finish_request().0.phase is ShuttingDown,
{
}

} // verus!
