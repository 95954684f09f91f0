//! The two phases of a launch. No process is created until a marker is
//! durable, and the marker goes only together with the record of the process
//! or with the proof that there is none.

#[allow(unused_imports)]
use vstd::prelude::*;
use crate::config::ValidatedConfig;
#[allow(unused_imports)]
use crate::config::ValidatedConfigView;
#[allow(unused_imports)]
use crate::config_fingerprint::fingerprint_under;
use crate::process::ManagedProcess;
#[allow(unused_imports)]
use crate::process::ManagedProcessView;
use crate::runtime_state::LaunchPending;
#[allow(unused_imports)]
use crate::runtime_state::{LaunchPendingView, RuntimeStateView};
#[allow(unused_imports)]
use super::runtime_durability::persisting;
use super::{
    Effect, Launch, PendingDurableConvergence, RuntimePersistence, SaveThen, StartTrigger,
    Supervisor, Task,
};
#[allow(unused_imports)]
use super::{go_on, DurabilityView, HandView, LaunchView, Next, SupervisorView};

verus! {

/// A launch may be begun.
pub open spec fn may_launch(s: SupervisorView) -> bool {
    &&& s.durable.loaded
    &&& s.durable.reliable
    &&& s.runtime.launch_pending is None
    &&& !s.durable.clear_requested
}

/// The state after a launch could not be begun. Where only its marker is in
/// the way, the launch waits for the marker to be unwound.
pub open spec fn not_launched(s: SupervisorView, trigger: StartTrigger) -> SupervisorView {
    if s.runtime.launch_pending is Some && s.durable.clear_requested && s.durable.retry_pending {
        SupervisorView {
            durable: DurabilityView {
                pending_convergence: Some(PendingDurableConvergence::Start(trigger)),
                ..s.durable
            },
            ..s
        }.failing()
    } else {
        s.failing()
    }
}

/// Begins a launch under a configuration: the marker is written first.
pub open spec fn beginning(
    s: SupervisorView,
    trigger: StartTrigger,
    config: ValidatedConfigView,
) -> Next {
    if !may_launch(s) {
        go_on(not_launched(s, trigger))
    } else {
        let fingerprint = fingerprint_under(s.key, config);
        persisting(
            SupervisorView {
                runtime: RuntimeStateView {
                    launch_pending: Some(
                        LaunchPendingView {
                            executable: config.configured_executable,
                            config_fingerprint: fingerprint,
                        },
                    ),
                    ..s.runtime
                },
                hand: HandView { launch: Some(LaunchView { config, fingerprint }), ..s.hand },
                ..s
            },
            false,
            SaveThen::LaunchMarker(trigger),
        )
    }
}

/// What follows the write of the marker. Only a durable one leads to a start.
pub open spec fn marked(
    s: SupervisorView,
    trigger: StartTrigger,
    persistence: RuntimePersistence,
) -> Next {
    let dropped = SupervisorView { hand: HandView { launch: None, ..s.hand }, ..s };
    match persistence {
        RuntimePersistence::Durable => Next {
            state: s.with_task(Task::Spawned(trigger)),
            effect: Effect::Spawn,
        },
        RuntimePersistence::Failed => go_on(
            not_launched(
                SupervisorView {
                    runtime: RuntimeStateView { launch_pending: None, ..s.runtime },
                    ..dropped
                },
                trigger,
            ),
        ),
        RuntimePersistence::Uncertain => go_on(
            not_launched(
                SupervisorView {
                    durable: DurabilityView { clear_requested: true, ..s.durable },
                    ..dropped
                },
                trigger,
            ),
        ),
    }
}

/// Takes a created process under supervision and replaces the marker by its
/// record in one write.
pub open spec fn committing(s: SupervisorView, process: ManagedProcessView, purpose: SaveThen) -> Next {
    persisting(
        SupervisorView {
            runtime: RuntimeStateView {
                process: Some(process.record()),
                launch_pending: None,
                ..s.runtime
            },
            durable: DurabilityView { clear_requested: true, ..s.durable },
            process: Some(process),
            ..s
        },
        true,
        purpose,
    )
}

/// Clears the marker of a launch that left no process.
pub open spec fn aborting(s: SupervisorView, trigger: StartTrigger) -> Next {
    if s.runtime.launch_pending is None && !s.durable.clear_requested {
        go_on(
            s.with_task(
                Task::Persisted {
                    purpose: SaveThen::LaunchAborted(trigger),
                    persistence: RuntimePersistence::Durable,
                },
            ),
        )
    } else {
        persisting(
            SupervisorView {
                runtime: RuntimeStateView { launch_pending: None, ..s.runtime },
                durable: DurabilityView { clear_requested: true, ..s.durable },
                ..s
            },
            true,
            SaveThen::LaunchAborted(trigger),
        )
    }
}

impl Supervisor {
    fn refuse_launch(&mut self, trigger: StartTrigger)
        ensures
            final(self).model() == not_launched(old(self).model(), trigger),
    {
        if self.runtime.launch_pending.is_some() && self.durable.clear_requested
            && self.durable.retry_pending {
            self.durable.pending_convergence = Some(PendingDurableConvergence::Start(trigger));
        }
        self.fail();
    }

    /// Begins a launch: no process is created until the marker is durable.
    pub(super) fn begin_launch(&mut self, trigger: StartTrigger, config: ValidatedConfig) -> (effect:
        Effect)
        ensures
            (Next { state: final(self).model(), effect }) == beginning(
                old(self).model(),
                trigger,
                config.deep_view(),
            ),
    {
        if !self.durable.loaded || !self.durable.reliable || self.runtime.launch_pending.is_some()
            || self.durable.clear_requested {
            self.refuse_launch(trigger);
            return Effect::Continue;
        }
        let fingerprint = self.config_fingerprint_key.fingerprint(&config);
        self.runtime.launch_pending = Some(
            LaunchPending {
                executable: config.configured_executable.clone(),
                config_fingerprint: fingerprint.clone(),
            },
        );
        self.hand.launch = Some(Launch { config, fingerprint });
        self.persist_runtime(false, SaveThen::LaunchMarker(trigger))
    }

    /// Goes on after the write of the marker.
    pub(super) fn launch_marked(
        &mut self,
        trigger: StartTrigger,
        persistence: RuntimePersistence,
    ) -> (effect: Effect)
        ensures
            (Next { state: final(self).model(), effect }) == marked(
                old(self).model(),
                trigger,
                persistence,
            ),
    {
        match persistence {
            RuntimePersistence::Durable => {
                self.push(Task::Spawned(trigger));
                return Effect::Spawn;
            },
            RuntimePersistence::Failed => {
                self.runtime.launch_pending = None;
            },
            RuntimePersistence::Uncertain => {
                self.durable.clear_requested = true;
            },
        }
        self.hand.launch = None;
        self.refuse_launch(trigger);
        Effect::Continue
    }

    /// Takes a created process under supervision and writes its record.
    pub(super) fn commit_spawned_process(&mut self, process: ManagedProcess, purpose: SaveThen) -> (
        effect: Effect)
        ensures
            (Next { state: final(self).model(), effect }) == committing(
                old(self).model(),
                process.deep_view(),
                purpose,
            ),
    {
        self.runtime.process = Some(process.record().clone());
        self.runtime.launch_pending = None;
        self.durable.clear_requested = true;
        self.process = Some(process);
        self.persist_runtime(true, purpose)
    }

    /// Clears the marker of a launch that left no process.
    pub(super) fn abort_launch(&mut self, trigger: StartTrigger) -> (effect: Effect)
        ensures
            (Next { state: final(self).model(), effect }) == aborting(old(self).model(), trigger),
    {
        if self.runtime.launch_pending.is_none() && !self.durable.clear_requested {
            self.push(
                Task::Persisted {
                    purpose: SaveThen::LaunchAborted(trigger),
                    persistence: RuntimePersistence::Durable,
                },
            );
            return Effect::Continue;
        }
        self.runtime.launch_pending = None;
        self.durable.clear_requested = true;
        self.persist_runtime(true, SaveThen::LaunchAborted(trigger))
    }
}

/// A process is created only after the marker was written durably.
pub proof fn starts_follow_a_durable_marker(
    s: SupervisorView,
    trigger: StartTrigger,
    persistence: RuntimePersistence,
)
    ensures
        marked(s, trigger, persistence).effect is Spawn <==> persistence is Durable,
{
}

/// A marker that could not be written, or may not have been, starts nothing
/// and leaves the server failed; one that may be visible stays in memory.
pub proof fn unwritten_markers_start_nothing(
    s: SupervisorView,
    trigger: StartTrigger,
    persistence: RuntimePersistence,
)
    requires
        !(persistence is Durable),
    ensures
        ({
            let next = marked(s, trigger, persistence);
            &&& next.effect is Continue
            &&& next.state.server.state is Failed
            &&& next.state.tasks == s.tasks
            &&& persistence is Uncertain ==> next.state.runtime.launch_pending
                == s.runtime.launch_pending && next.state.durable.clear_requested
            &&& persistence is Failed ==> next.state.runtime.launch_pending is None
        }),
{
}

} // verus!
