//! Following an owned child from its exit to an empty process group. A child
//! is reaped only after its group is observed empty, so that its process and
//! group identifiers cannot be reused meanwhile.

#[allow(unused_imports)]
use vstd::prelude::*;
use crate::failure::Failure;
use crate::platform::ChildExitObservation;
use crate::process::ExitReason;
use crate::process_group::GroupObservation;

verus! {

/// How long a child whose identity could not be registered may take to stop,
/// in nanoseconds.
pub const UNREGISTERED_CHILD_STOP_GRACE: u64 = 2_000_000_000;

/// The leader exited while members of its group remain.
#[derive(Clone, Copy, Debug, PartialEq, Eq, Structural)]
pub struct PendingGroupCleanup {
    pub leader_exit: ExitReason,
    pub terminate_requested: bool,
    pub signal_allowed: bool,
}

impl PendingGroupCleanup {
    /// A cleanup that has not signaled yet and may.
    pub open spec fn fresh(leader_exit: ExitReason) -> PendingGroupCleanup {
        PendingGroupCleanup { leader_exit, terminate_requested: false, signal_allowed: true }
    }

    /// The same cleanup, never to signal again.
    pub open spec fn refused(self) -> PendingGroupCleanup {
        PendingGroupCleanup { signal_allowed: false, ..self }
    }

    /// The same cleanup after its signal.
    pub open spec fn terminated(self) -> PendingGroupCleanup {
        PendingGroupCleanup { terminate_requested: true, ..self }
    }

    pub fn new(leader_exit: ExitReason) -> (cleanup: PendingGroupCleanup)
        ensures
            cleanup == PendingGroupCleanup::fresh(leader_exit),
    {
        PendingGroupCleanup { leader_exit, terminate_requested: false, signal_allowed: true }
    }

    pub fn leader_exit(&self) -> (exit: ExitReason)
        ensures
            exit == self.leader_exit,
    {
        self.leader_exit
    }

    pub fn terminate_requested(&self) -> (requested: bool)
        ensures
            requested == self.terminate_requested,
    {
        self.terminate_requested
    }

    pub fn mark_terminate_requested(&mut self)
        ensures
            *final(self) == old(self).terminated(),
    {
        self.terminate_requested = true;
    }

    pub fn signal_allowed(&self) -> (allowed: bool)
        ensures
            allowed == self.signal_allowed,
    {
        self.signal_allowed
    }

    pub fn refuse_signals(&mut self)
        ensures
            *final(self) == old(self).refused(),
    {
        self.signal_allowed = false;
    }
}

/// How a child ended, from what was observed without reaping it.
pub open spec fn exit_of(observed: ChildExitObservation) -> ExitReason {
    match observed.code {
        Some(code) => ExitReason::Exited(code),
        None => match observed.signal {
            Some(signal) => ExitReason::Signaled(signal),
            None => ExitReason::Disappeared,
        },
    }
}

/// Names how a child ended, from what was observed without reaping it.
pub fn classify_child_exit(observed: ChildExitObservation) -> (exit: ExitReason)
    ensures
        exit == exit_of(observed),
{
    match observed.code {
        Some(code) => ExitReason::Exited(code),
        None => match observed.signal {
            Some(signal) => ExitReason::Signaled(signal),
            None => ExitReason::Disappeared,
        },
    }
}

/// Names how a child ended, from its wait status.
pub fn classify_exit(code: Option<i32>, signal: Option<i32>) -> (exit: ExitReason)
    ensures
        exit == exit_of(ChildExitObservation { code, signal }),
{
    classify_child_exit(ChildExitObservation { code, signal })
}

/// Why a group is being observed.
#[derive(Clone, Copy, Debug, PartialEq, Eq, Structural)]
pub enum PollOrigin {
    /// The exit of the leader was just seen.
    Fresh,
    /// The child lost its identity earlier: nothing may be signaled.
    IdentityFailed,
    /// The group was already being cleaned up.
    Pending,
}

/// What must be observed or done next to poll an owned child.
#[derive(Clone, Copy, Debug, PartialEq, Eq, Structural)]
pub enum ChildPoll {
    /// Look for an exit without reaping.
    Peek { identity_unconfirmed: bool },
    /// The same for a child whose identity failed.
    PeekFailed,
    /// Compare the live identity with the record.
    Inspect { observed: Option<ChildExitObservation> },
    /// Look for members of the group.
    Observe { pending: PendingGroupCleanup, origin: PollOrigin },
    /// Ask the group to terminate.
    Signal { pending: PendingGroupCleanup },
    /// Reap the child.
    Reap { pending: PendingGroupCleanup, origin: PollOrigin },
}

/// The result of one poll.
#[derive(Debug, PartialEq, Eq)]
pub enum PollStep {
    Continue(ChildPoll),
    Finished { cleanup: Option<PendingGroupCleanup>, exit: Result<Option<ExitReason>, Failure> },
}

/// Where polling an owned child begins.
pub fn poll_owned_child(
    cleanup: Option<PendingGroupCleanup>,
    identity_failed: bool,
    identity_unconfirmed: bool,
) -> (poll: ChildPoll)
    ensures
        poll == (match cleanup {
            Some(pending) => ChildPoll::Observe { pending, origin: PollOrigin::Pending },
            None => if identity_failed {
                ChildPoll::PeekFailed
            } else {
                ChildPoll::Peek { identity_unconfirmed }
            },
        }),
{
    match cleanup {
        Some(pending) => ChildPoll::Observe { pending, origin: PollOrigin::Pending },
        None => if identity_failed {
            ChildPoll::PeekFailed
        } else {
            ChildPoll::Peek { identity_unconfirmed }
        },
    }
}

/// Continues after looking for an exit. A child whose identity was never
/// confirmed is not compared with its record.
pub fn after_peek(
    identity_unconfirmed: bool,
    peek: Result<Option<ChildExitObservation>, Failure>,
) -> (step: PollStep)
    ensures
        step == (match peek {
            Err(error) => PollStep::Finished { cleanup: None, exit: Err(error) },
            Ok(observed) => if !identity_unconfirmed {
                PollStep::Continue(ChildPoll::Inspect { observed })
            } else {
                match observed {
                    None => PollStep::Finished { cleanup: None, exit: Ok(None) },
                    Some(seen) => PollStep::Continue(
                        ChildPoll::Observe {
                            pending: PendingGroupCleanup::fresh(exit_of(seen)),
                            origin: PollOrigin::Fresh,
                        },
                    ),
                }
            },
        }),
{
    match peek {
        Err(error) => PollStep::Finished { cleanup: None, exit: Err(error) },
        Ok(observed) => {
            if !identity_unconfirmed {
                return PollStep::Continue(ChildPoll::Inspect { observed });
            }
            match observed {
                None => PollStep::Finished { cleanup: None, exit: Ok(None) },
                Some(seen) => PollStep::Continue(
                    ChildPoll::Observe {
                        pending: PendingGroupCleanup::new(classify_child_exit(seen)),
                        origin: PollOrigin::Fresh,
                    },
                ),
            }
        },
    }
}

/// Continues after comparing the identity. `identity` is absent where the
/// kernel no longer reports the process; only a reported mismatch counts.
pub fn after_inspect(
    observed: Option<ChildExitObservation>,
    identity: Result<Option<bool>, Failure>,
) -> (step: PollStep)
    ensures
        step == (match identity {
            Err(error) => PollStep::Finished { cleanup: None, exit: Err(error) },
            Ok(Some(false)) => PollStep::Finished {
                cleanup: None,
                exit: Ok(Some(ExitReason::IdentityChanged)),
            },
            Ok(_) => match observed {
                None => PollStep::Finished { cleanup: None, exit: Ok(None) },
                Some(seen) => PollStep::Continue(
                    ChildPoll::Observe {
                        pending: PendingGroupCleanup::fresh(exit_of(seen)),
                        origin: PollOrigin::Fresh,
                    },
                ),
            },
        }),
{
    match identity {
        Err(error) => PollStep::Finished { cleanup: None, exit: Err(error) },
        Ok(Some(false)) => PollStep::Finished {
            cleanup: None,
            exit: Ok(Some(ExitReason::IdentityChanged)),
        },
        Ok(_) => match observed {
            None => PollStep::Finished { cleanup: None, exit: Ok(None) },
            Some(seen) => PollStep::Continue(
                ChildPoll::Observe {
                    pending: PendingGroupCleanup::new(classify_child_exit(seen)),
                    origin: PollOrigin::Fresh,
                },
            ),
        },
    }
}

/// Continues after looking for an exit of a child whose identity failed.
pub fn poll_identity_failed_child(peek: Result<Option<ChildExitObservation>, Failure>) -> (step:
    PollStep)
    ensures
        step == (match peek {
            Err(error) => PollStep::Finished { cleanup: None, exit: Err(error) },
            Ok(None) => PollStep::Finished { cleanup: None, exit: Ok(None) },
            Ok(Some(seen)) => PollStep::Continue(
                ChildPoll::Observe {
                    pending: PendingGroupCleanup::fresh(exit_of(seen)).refused(),
                    origin: PollOrigin::IdentityFailed,
                },
            ),
        }),
{
    match peek {
        Err(error) => PollStep::Finished { cleanup: None, exit: Err(error) },
        Ok(None) => PollStep::Finished { cleanup: None, exit: Ok(None) },
        Ok(Some(seen)) => {
            let mut pending = PendingGroupCleanup::new(classify_child_exit(seen));
            pending.refuse_signals();
            PollStep::Continue(
                ChildPoll::Observe { pending, origin: PollOrigin::IdentityFailed },
            )
        },
    }
}

/// What follows an observation of the group.
pub open spec fn observed_step(
    pending: PendingGroupCleanup,
    origin: PollOrigin,
    group: Result<GroupObservation, Failure>,
) -> PollStep {
    match group {
        Ok(GroupObservation::Empty) => PollStep::Continue(ChildPoll::Reap { pending, origin }),
        Ok(GroupObservation::HasMembers) => if !(origin is IdentityFailed)
            && pending.signal_allowed && !pending.terminate_requested {
            PollStep::Continue(ChildPoll::Signal { pending })
        } else {
            PollStep::Finished { cleanup: Some(pending), exit: Ok(None) }
        },
        Err(error) => PollStep::Finished { cleanup: Some(pending.refused()), exit: Err(error) },
    }
}

/// Continues after observing the group.
pub fn poll_pending_group(
    pending: PendingGroupCleanup,
    origin: PollOrigin,
    group: Result<GroupObservation, Failure>,
) -> (step: PollStep)
    ensures
        step == observed_step(pending, origin, group),
{
    match group {
        Ok(GroupObservation::Empty) => PollStep::Continue(ChildPoll::Reap { pending, origin }),
        Ok(GroupObservation::HasMembers) => {
            let may_signal = match origin {
                PollOrigin::IdentityFailed => false,
                _ => pending.signal_allowed() && !pending.terminate_requested(),
            };
            if may_signal {
                PollStep::Continue(ChildPoll::Signal { pending })
            } else {
                PollStep::Finished { cleanup: Some(pending), exit: Ok(None) }
            }
        },
        Err(error) => {
            let mut pending = pending;
            pending.refuse_signals();
            PollStep::Finished { cleanup: Some(pending), exit: Err(error) }
        },
    }
}

/// Continues after asking the group to terminate.
pub fn after_signal(pending: PendingGroupCleanup, sent: Result<(), Failure>) -> (step: PollStep)
    ensures
        step == (match sent {
            Ok(()) => PollStep::Finished { cleanup: Some(pending.terminated()), exit: Ok(None) },
            Err(error) => PollStep::Finished { cleanup: Some(pending.refused()), exit: Err(error) },
        }),
{
    let mut pending = pending;
    match sent {
        Ok(()) => {
            pending.mark_terminate_requested();
            PollStep::Finished { cleanup: Some(pending), exit: Ok(None) }
        },
        Err(error) => {
            pending.refuse_signals();
            PollStep::Finished { cleanup: Some(pending), exit: Err(error) }
        },
    }
}

/// Finishes after reaping. A failed reap keeps a cleanup that was already
/// pending.
pub fn after_reap(
    pending: PendingGroupCleanup,
    origin: PollOrigin,
    reaped: Result<ExitReason, Failure>,
) -> (step: PollStep)
    ensures
        step == (match reaped {
            Ok(exit) => PollStep::Finished { cleanup: None, exit: Ok(Some(exit)) },
            Err(error) => PollStep::Finished {
                cleanup: if origin is Pending {
                    Some(pending)
                } else {
                    None
                },
                exit: Err(error),
            },
        }),
{
    match reaped {
        Ok(exit) => PollStep::Finished { cleanup: None, exit: Ok(Some(exit)) },
        Err(error) => {
            let cleanup = match origin {
                PollOrigin::Pending => Some(pending),
                _ => None,
            };
            PollStep::Finished { cleanup, exit: Err(error) }
        },
    }
}

/// A refused cleanup never signals again: observing it neither signals nor
/// lifts the refusal.
pub proof fn refused_cleanup_never_signals(
    pending: PendingGroupCleanup,
    origin: PollOrigin,
    group: Result<GroupObservation, Failure>,
)
    requires
        !pending.signal_allowed,
    ensures
        !(observed_step(pending, origin, group) matches PollStep::Continue(
            ChildPoll::Signal { .. },
        )),
        observed_step(pending, origin, group) matches PollStep::Finished {
            cleanup: Some(kept),
            ..
        } ==> !kept.signal_allowed,
{
}

/// A group is asked to terminate at most once, and never after the identity
/// of its leader failed.
pub proof fn termination_is_requested_once(
    pending: PendingGroupCleanup,
    origin: PollOrigin,
    group: Result<GroupObservation, Failure>,
)
    requires
        pending.terminate_requested || origin is IdentityFailed,
    ensures
        !(observed_step(pending, origin, group) matches PollStep::Continue(
            ChildPoll::Signal { .. },
        )),
{
}

/// A child is reaped only after its group was observed empty.
pub proof fn reaping_requires_an_empty_group(
    pending: PendingGroupCleanup,
    origin: PollOrigin,
    group: Result<GroupObservation, Failure>,
)
    ensures
        observed_step(pending, origin, group) matches PollStep::Continue(ChildPoll::Reap { .. })
            ==> group == Ok::<GroupObservation, Failure>(GroupObservation::Empty),
{
}

/// What must be observed or done next to stop a child whose identity could
/// not be registered.
#[derive(Clone, Copy, Debug, PartialEq, Eq, Structural)]
pub enum UnregisteredStop {
    /// Look for an exit without reaping.
    Peek { terminate_requested: bool },
    /// Ask the live child's group to terminate.
    SignalLive,
    /// Look for members of the group.
    Observe { pending: PendingGroupCleanup },
    /// Ask the group of the exited leader to terminate.
    SignalGroup { pending: PendingGroupCleanup },
    /// Reap the child.
    Reap { pending: PendingGroupCleanup },
    /// Wait a moment unless the grace interval is over.
    Rest { cleanup: Option<PendingGroupCleanup>, terminate_requested: bool },
}

/// How stopping an unregistered child ended.
#[derive(Clone, Copy, Debug, PartialEq, Eq, Structural)]
pub enum UnregisteredChildShutdown {
    Reaped(ExitReason),
    Survived { cleanup: Option<PendingGroupCleanup> },
}

/// Progress of stopping an unregistered child.
#[derive(Clone, Copy, Debug, PartialEq, Eq, Structural)]
pub enum StopStep {
    Continue(UnregisteredStop),
    Ended(UnregisteredChildShutdown),
}

/// The answer to an [`UnregisteredStop`].
#[derive(Debug, PartialEq, Eq)]
pub enum StopFact {
    Peeked(Result<Option<ChildExitObservation>, Failure>),
    Observed(Result<GroupObservation, Failure>),
    Signaled(Result<(), Failure>),
    Reaped(Result<ExitReason, Failure>),
    /// Whether the grace interval is over.
    Rested(bool),
}

/// How stopping an unregistered child goes on.
pub open spec fn stop_step(stage: UnregisteredStop, fact: StopFact) -> Option<StopStep> {
    match (stage, fact) {
        (UnregisteredStop::Peek { terminate_requested }, StopFact::Peeked(peek)) => Some(
            match peek {
                Ok(Some(seen)) => StopStep::Continue(
                    UnregisteredStop::Observe {
                        pending: PendingGroupCleanup::fresh(exit_of(seen)),
                    },
                ),
                Ok(None) => if terminate_requested {
                    StopStep::Continue(
                        UnregisteredStop::Rest { cleanup: None, terminate_requested },
                    )
                } else {
                    StopStep::Continue(UnregisteredStop::SignalLive)
                },
                Err(_) => StopStep::Ended(UnregisteredChildShutdown::Survived { cleanup: None }),
            },
        ),
        (UnregisteredStop::SignalLive, StopFact::Signaled(sent)) => Some(
            match sent {
                Ok(()) => StopStep::Continue(
                    UnregisteredStop::Rest { cleanup: None, terminate_requested: true },
                ),
                Err(_) => StopStep::Ended(UnregisteredChildShutdown::Survived { cleanup: None }),
            },
        ),
        (UnregisteredStop::Observe { pending }, StopFact::Observed(group)) => Some(
            match group {
                Ok(GroupObservation::Empty) => StopStep::Continue(
                    UnregisteredStop::Reap { pending },
                ),
                Ok(GroupObservation::HasMembers) => if pending.signal_allowed
                    && !pending.terminate_requested {
                    StopStep::Continue(UnregisteredStop::SignalGroup { pending })
                } else {
                    StopStep::Continue(
                        UnregisteredStop::Rest {
                            cleanup: Some(pending),
                            terminate_requested: true,
                        },
                    )
                },
                Err(_) => StopStep::Ended(
                    UnregisteredChildShutdown::Survived { cleanup: Some(pending.refused()) },
                ),
            },
        ),
        (UnregisteredStop::SignalGroup { pending }, StopFact::Signaled(sent)) => Some(
            match sent {
                Ok(()) => StopStep::Continue(
                    UnregisteredStop::Rest {
                        cleanup: Some(pending.terminated()),
                        terminate_requested: true,
                    },
                ),
                Err(_) => StopStep::Ended(
                    UnregisteredChildShutdown::Survived { cleanup: Some(pending.refused()) },
                ),
            },
        ),
        (UnregisteredStop::Reap { pending }, StopFact::Reaped(reaped)) => Some(
            match reaped {
                Ok(exit) => StopStep::Ended(UnregisteredChildShutdown::Reaped(exit)),
                Err(_) => StopStep::Ended(
                    UnregisteredChildShutdown::Survived { cleanup: Some(pending) },
                ),
            },
        ),
        (
            UnregisteredStop::Rest { cleanup, terminate_requested },
            StopFact::Rested(grace_over),
        ) => Some(
            if grace_over {
                StopStep::Ended(UnregisteredChildShutdown::Survived { cleanup })
            } else {
                match cleanup {
                    Some(pending) => StopStep::Continue(UnregisteredStop::Observe { pending }),
                    None => StopStep::Continue(UnregisteredStop::Peek { terminate_requested }),
                }
            },
        ),
        _ => None,
    }
}

/// Advances stopping an unregistered child by the answer to what was asked.
/// There is no step for an answer to something else.
pub fn shutdown_unregistered_child(stage: UnregisteredStop, fact: StopFact) -> (step: Option<
    StopStep,
>)
    ensures
        step == stop_step(stage, fact),
{
    match (stage, fact) {
        (UnregisteredStop::Peek { terminate_requested }, StopFact::Peeked(peek)) => Some(
            match peek {
                Ok(Some(seen)) => StopStep::Continue(
                    UnregisteredStop::Observe {
                        pending: PendingGroupCleanup::new(classify_child_exit(seen)),
                    },
                ),
                Ok(None) => if terminate_requested {
                    StopStep::Continue(
                        UnregisteredStop::Rest { cleanup: None, terminate_requested },
                    )
                } else {
                    StopStep::Continue(UnregisteredStop::SignalLive)
                },
                Err(_) => StopStep::Ended(UnregisteredChildShutdown::Survived { cleanup: None }),
            },
        ),
        (UnregisteredStop::SignalLive, StopFact::Signaled(sent)) => Some(
            match sent {
                Ok(()) => StopStep::Continue(
                    UnregisteredStop::Rest { cleanup: None, terminate_requested: true },
                ),
                Err(_) => StopStep::Ended(UnregisteredChildShutdown::Survived { cleanup: None }),
            },
        ),
        (UnregisteredStop::Observe { pending }, StopFact::Observed(group)) => Some(
            match group {
                Ok(GroupObservation::Empty) => StopStep::Continue(
                    UnregisteredStop::Reap { pending },
                ),
                Ok(GroupObservation::HasMembers) => if pending.signal_allowed()
                    && !pending.terminate_requested() {
                    StopStep::Continue(UnregisteredStop::SignalGroup { pending })
                } else {
                    StopStep::Continue(
                        UnregisteredStop::Rest {
                            cleanup: Some(pending),
                            terminate_requested: true,
                        },
                    )
                },
                Err(_) => {
                    let mut pending = pending;
                    pending.refuse_signals();
                    StopStep::Ended(
                        UnregisteredChildShutdown::Survived { cleanup: Some(pending) },
                    )
                },
            },
        ),
        (UnregisteredStop::SignalGroup { pending }, StopFact::Signaled(sent)) => {
            let mut pending = pending;
            Some(
                match sent {
                    Ok(()) => {
                        pending.mark_terminate_requested();
                        StopStep::Continue(
                            UnregisteredStop::Rest {
                                cleanup: Some(pending),
                                terminate_requested: true,
                            },
                        )
                    },
                    Err(_) => {
                        pending.refuse_signals();
                        StopStep::Ended(
                            UnregisteredChildShutdown::Survived { cleanup: Some(pending) },
                        )
                    },
                },
            )
        },
        (UnregisteredStop::Reap { pending }, StopFact::Reaped(reaped)) => Some(
            match reaped {
                Ok(exit) => StopStep::Ended(UnregisteredChildShutdown::Reaped(exit)),
                Err(_) => StopStep::Ended(
                    UnregisteredChildShutdown::Survived { cleanup: Some(pending) },
                ),
            },
        ),
        (
            UnregisteredStop::Rest { cleanup, terminate_requested },
            StopFact::Rested(grace_over),
        ) => Some(
            if grace_over {
                StopStep::Ended(UnregisteredChildShutdown::Survived { cleanup })
            } else {
                match cleanup {
                    Some(pending) => StopStep::Continue(UnregisteredStop::Observe { pending }),
                    None => StopStep::Continue(UnregisteredStop::Peek { terminate_requested }),
                }
            },
        ),
        _ => None,
    }
}

/// A child is declared reaped only by reaping it, and a child that outlives
/// its grace interval is reported as a survivor, with its cleanup.
pub proof fn unregistered_children_are_never_lost(stage: UnregisteredStop, fact: StopFact)
    ensures
        stop_step(stage, fact) matches Some(
            StopStep::Ended(UnregisteredChildShutdown::Reaped(exit)),
        ) ==> stage is Reap && fact == StopFact::Reaped(Ok(exit)),
        (stage matches UnregisteredStop::Rest { cleanup, .. } && fact == StopFact::Rested(true))
            ==> stop_step(stage, fact) == Some(
            StopStep::Ended(UnregisteredChildShutdown::Survived { cleanup: stage->Rest_cleanup }),
        ),
{
}

/// A child that ended by itself exited with its code, one that was ended by a
/// signal was signaled with it, and of any other nothing is known.
pub proof fn exits_are_told_apart(observed: ChildExitObservation)
    ensures
        observed.code matches Some(code) ==> exit_of(observed) == ExitReason::Exited(code),
        observed.code is None ==> (observed.signal matches Some(signal) ==> exit_of(observed)
            == ExitReason::Signaled(signal)),
        observed.code is None && observed.signal is None ==> exit_of(observed) is Disappeared,
{
}

/// An exited child is reaped once its group is empty. While members remain they
/// are asked to terminate, once, where that is allowed; a group that cannot be
/// looked at is not signaled any more.
pub proof fn groups_are_cleaned_up(
    pending: PendingGroupCleanup,
    origin: PollOrigin,
    group: Result<GroupObservation, Failure>,
)
    ensures
        ({
            let step = observed_step(pending, origin, group);
            let asks = !(origin is IdentityFailed) && pending.signal_allowed
                && !pending.terminate_requested;
            &&& group matches Ok(GroupObservation::Empty) ==> step == PollStep::Continue(
                ChildPoll::Reap { pending, origin },
            )
            &&& group matches Ok(GroupObservation::HasMembers) ==> (asks ==> step
                == PollStep::Continue(ChildPoll::Signal { pending }))
            &&& group matches Ok(GroupObservation::HasMembers) ==> (!asks ==> step == (
            PollStep::Finished { cleanup: Some(pending), exit: Ok(None) }))
            &&& group matches Err(error) ==> (step matches PollStep::Finished {
                cleanup: Some(kept),
                exit: Err(reported),
            } && !kept.signal_allowed && kept.leader_exit == pending.leader_exit && reported
                == error)
        }),
{
}

/// A child that was not registered is asked to terminate, and its group after
/// it, until it can be reaped or its time is over.
pub proof fn unregistered_children_are_ended(
    seen: ChildExitObservation,
    pending: PendingGroupCleanup,
)
    ensures
        stop_step(
            UnregisteredStop::Peek { terminate_requested: false },
            StopFact::Peeked(Ok(None)),
        ) == Some(StopStep::Continue(UnregisteredStop::SignalLive)),
        stop_step(UnregisteredStop::SignalLive, StopFact::Signaled(Ok(()))) == Some(
            StopStep::Continue(
                UnregisteredStop::Rest { cleanup: None, terminate_requested: true },
            ),
        ),
        stop_step(
            UnregisteredStop::Peek { terminate_requested: true },
            StopFact::Peeked(Ok(Some(seen))),
        ) matches Some(StopStep::Continue(UnregisteredStop::Observe { pending: fresh }))
            && fresh.leader_exit == exit_of(seen) && fresh.signal_allowed
            && !fresh.terminate_requested,
        stop_step(
            UnregisteredStop::Observe { pending },
            StopFact::Observed(Ok(GroupObservation::Empty)),
        ) == Some(StopStep::Continue(UnregisteredStop::Reap { pending })),
        pending.signal_allowed && !pending.terminate_requested ==> stop_step(
            UnregisteredStop::Observe { pending },
            StopFact::Observed(Ok(GroupObservation::HasMembers)),
        ) == Some(StopStep::Continue(UnregisteredStop::SignalGroup { pending })),
        stop_step(
            UnregisteredStop::Rest { cleanup: None, terminate_requested: true },
            StopFact::Rested(false),
        ) == Some(
            StopStep::Continue(UnregisteredStop::Peek { terminate_requested: true }),
        ),
        stop_step(
            UnregisteredStop::Rest { cleanup: Some(pending), terminate_requested: true },
            StopFact::Rested(false),
        ) == Some(StopStep::Continue(UnregisteredStop::Observe { pending })),
{
}

} // verus!
