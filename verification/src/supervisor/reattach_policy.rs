//! Whether a process recorded by an earlier agent is taken over. The decision
//! is made from facts alone, in two phases: the health check connects to the
//! recorded process, so it is asked for only after the first phase.

#[allow(unused_imports)]
use vstd::prelude::*;
use crate::config::ValidatedConfig;
use crate::process::RecordIdentity;
use super::credential::CredentialState;

verus! {

/// What the health check found.
#[derive(Clone, Copy, Debug, PartialEq, Eq)]
pub enum HealthVerdict<'a> {
    Healthy { version: &'a str },
    Unhealthy,
    Failed,
}

/// The decision before any health check.
#[derive(PartialEq, Eq)]
pub enum InitialAction {
    DiscardStaleRecord { reason: &'static str },
    MarkUnverified { reason: &'static str },
    AttachUnconfirmed { reason: &'static str },
    AttachStaleConfig { reason: &'static str },
    /// Check the health under this configuration and inspect the identity
    /// again.
    NeedsHealthCheck { config: ValidatedConfig },
}

/// The decision after the health check.
#[derive(PartialEq, Eq)]
pub enum FinalAction {
    ReattachHealthy { version: String, config: ValidatedConfig },
    DiscardStaleRecord { reason: &'static str },
    MarkUnverified { reason: &'static str },
    AttachUnconfirmed { reason: &'static str },
}

/// What a decision does, apart from its reason.
#[derive(Clone, Copy, Debug, PartialEq, Eq, Structural)]
pub enum Disposition {
    Discard,
    Unverified,
    Unconfirmed,
    StaleConfig,
    CheckHealth,
    Reattach,
}

/// The identity allows a takeover.
pub open spec fn verified(identity: Result<RecordIdentity, ()>) -> bool {
    identity is Ok && (identity->Ok_0 is Current || identity->Ok_0 is ExecutableVanished)
}

/// The first decision. A record that was never confirmed authorizes nothing;
/// without a configuration nothing more can be verified; and a verified
/// process whose configuration changed is kept under supervision.
pub open spec fn initial_disposition(
    identity_unconfirmed: bool,
    identity: Result<RecordIdentity, ()>,
    has_config: bool,
    config_matches: bool,
) -> Disposition {
    if identity_unconfirmed {
        if identity == Ok::<RecordIdentity, ()>(RecordIdentity::Missing) {
            Disposition::Discard
        } else {
            Disposition::Unverified
        }
    } else {
        match identity {
            Err(_) => Disposition::Unverified,
            Ok(RecordIdentity::Missing) => Disposition::Discard,
            Ok(RecordIdentity::Mismatched) => Disposition::Discard,
            Ok(RecordIdentity::ExecutableMismatch) => Disposition::Unconfirmed,
            Ok(RecordIdentity::GroupEscaped) => Disposition::Unverified,
            Ok(_) => if !has_config {
                Disposition::Unverified
            } else if !config_matches {
                Disposition::StaleConfig
            } else {
                Disposition::CheckHealth
            },
        }
    }
}

/// The reason that goes with the first decision.
pub open spec fn initial_reason(
    identity_unconfirmed: bool,
    identity: Result<RecordIdentity, ()>,
    has_config: bool,
    credential_state: CredentialState,
) -> Seq<char> {
    if identity_unconfirmed {
        if identity == Ok::<RecordIdentity, ()>(RecordIdentity::Missing) {
            "the unconfirmed recorded PID is no longer running"@
        } else {
            "the recorded process identity was never confirmed after spawn"@
        }
    } else {
        match identity {
            Err(_) => "process identity could not be inspected"@,
            Ok(RecordIdentity::Missing) => "recorded PID is no longer running"@,
            Ok(RecordIdentity::Mismatched) =>
                "recorded PID no longer has the recorded process identity"@,
            Ok(RecordIdentity::ExecutableMismatch) => "executable identity could not be confirmed"@,
            Ok(RecordIdentity::GroupEscaped) =>
                "the process kept its identity but abandoned its dedicated process group"@,
            Ok(_) => if !has_config {
                "configuration is unavailable"@
            } else if credential_state is AccessPending {
                "grant Keychain access, then restart"@
            } else {
                "restart to apply the changes"@
            },
        }
    }
}

/// Decides what becomes of a recorded process before any health check.
pub fn decide_initial(
    identity_unconfirmed: bool,
    identity: Result<RecordIdentity, ()>,
    config: Option<ValidatedConfig>,
    config_matches: bool,
    credential_state: CredentialState,
) -> (action: InitialAction)
    ensures
        ({
            let disposition = initial_disposition(
                identity_unconfirmed,
                identity,
                config is Some,
                config_matches,
            );
            let why = initial_reason(
                identity_unconfirmed,
                identity,
                config is Some,
                credential_state,
            );
            match action {
                InitialAction::DiscardStaleRecord { reason } => disposition is Discard && reason@
                    == why,
                InitialAction::MarkUnverified { reason } => disposition is Unverified && reason@
                    == why,
                InitialAction::AttachUnconfirmed { reason } => disposition is Unconfirmed
                    && reason@ == why,
                InitialAction::AttachStaleConfig { reason } => disposition is StaleConfig
                    && reason@ == why,
                InitialAction::NeedsHealthCheck { config: checked } => disposition is CheckHealth
                    && config == Some(checked),
            }
        }),
{
    if identity_unconfirmed {
        return match identity {
            Ok(RecordIdentity::Missing) => InitialAction::DiscardStaleRecord {
                reason: "the unconfirmed recorded PID is no longer running",
            },
            _ => InitialAction::MarkUnverified {
                reason: "the recorded process identity was never confirmed after spawn",
            },
        };
    }
    match identity {
        Ok(RecordIdentity::Missing) => {
            return InitialAction::DiscardStaleRecord {
                reason: "recorded PID is no longer running",
            };
        },
        Ok(RecordIdentity::Mismatched) => {
            return InitialAction::DiscardStaleRecord {
                reason: "recorded PID no longer has the recorded process identity",
            };
        },
        Ok(RecordIdentity::Current) | Ok(RecordIdentity::ExecutableVanished) => {},
        Ok(RecordIdentity::ExecutableMismatch) => {
            return InitialAction::AttachUnconfirmed {
                reason: "executable identity could not be confirmed",
            };
        },
        Ok(RecordIdentity::GroupEscaped) => {
            return InitialAction::MarkUnverified {
                reason: "the process kept its identity but abandoned its dedicated process group",
            };
        },
        Err(_) => {
            return InitialAction::MarkUnverified {
                reason: "process identity could not be inspected",
            };
        },
    }
    let config = match config {
        Some(config) => config,
        None => {
            return InitialAction::MarkUnverified { reason: "configuration is unavailable" };
        },
    };
    if !config_matches {
        let reason = match credential_state {
            CredentialState::AccessPending => "grant Keychain access, then restart",
            _ => "restart to apply the changes",
        };
        return InitialAction::AttachStaleConfig { reason };
    }
    InitialAction::NeedsHealthCheck { config }
}

/// The final decision.
pub open spec fn final_disposition(
    identity: Result<RecordIdentity, ()>,
    healthy: bool,
) -> Disposition {
    if !healthy {
        Disposition::Unverified
    } else {
        match identity {
            Err(_) => Disposition::Unverified,
            Ok(RecordIdentity::ExecutableMismatch) => Disposition::Unconfirmed,
            Ok(RecordIdentity::GroupEscaped) => Disposition::Unverified,
            Ok(RecordIdentity::Missing) => Disposition::Discard,
            Ok(RecordIdentity::Mismatched) => Disposition::Discard,
            Ok(_) => Disposition::Reattach,
        }
    }
}

/// The reason that goes with the final decision.
pub open spec fn final_reason(
    identity: Result<RecordIdentity, ()>,
    health: HealthVerdict<'_>,
) -> Seq<char> {
    match health {
        HealthVerdict::Unhealthy => "health endpoint did not report healthy"@,
        HealthVerdict::Failed => "health endpoint could not be verified"@,
        HealthVerdict::Healthy { .. } => match identity {
            Err(_) => "process identity could not be rechecked after health verification"@,
            Ok(RecordIdentity::ExecutableMismatch) =>
                "executable identity changed during reattachment"@,
            Ok(RecordIdentity::GroupEscaped) =>
                "the process abandoned its dedicated process group during reattachment"@,
            Ok(RecordIdentity::Missing) => "recorded process exited during reattachment"@,
            Ok(_) => "recorded process identity changed during reattachment"@,
        },
    }
}

/// Decides what becomes of a recorded process after the health check and a
/// second look at its identity.
pub fn decide_after_health(
    identity: Result<RecordIdentity, ()>,
    health: HealthVerdict<'_>,
    config: ValidatedConfig,
) -> (action: FinalAction)
    ensures
        ({
            let disposition = final_disposition(identity, health is Healthy);
            let why = final_reason(identity, health);
            match action {
                FinalAction::ReattachHealthy { version, config: kept } => {
                    &&& disposition is Reattach
                    &&& health matches HealthVerdict::Healthy { version: seen } && version@
                        == seen@
                    &&& kept == config
                },
                FinalAction::DiscardStaleRecord { reason } => disposition is Discard && reason@
                    == why,
                FinalAction::MarkUnverified { reason } => disposition is Unverified && reason@
                    == why,
                FinalAction::AttachUnconfirmed { reason } => disposition is Unconfirmed && reason@
                    == why,
            }
        }),
{
    match health {
        HealthVerdict::Healthy { version } => match identity {
            Ok(RecordIdentity::Current) | Ok(RecordIdentity::ExecutableVanished) => {
                FinalAction::ReattachHealthy { version: version.to_owned(), config }
            },
            Ok(RecordIdentity::ExecutableMismatch) => FinalAction::AttachUnconfirmed {
                reason: "executable identity changed during reattachment",
            },
            Ok(RecordIdentity::GroupEscaped) => FinalAction::MarkUnverified {
                reason: "the process abandoned its dedicated process group during reattachment",
            },
            Ok(RecordIdentity::Missing) => FinalAction::DiscardStaleRecord {
                reason: "recorded process exited during reattachment",
            },
            Ok(RecordIdentity::Mismatched) => FinalAction::DiscardStaleRecord {
                reason: "recorded process identity changed during reattachment",
            },
            Err(_) => FinalAction::MarkUnverified {
                reason: "process identity could not be rechecked after health verification",
            },
        },
        HealthVerdict::Unhealthy => FinalAction::MarkUnverified {
            reason: "health endpoint did not report healthy",
        },
        HealthVerdict::Failed => FinalAction::MarkUnverified {
            reason: "health endpoint could not be verified",
        },
    }
}

/// The endpoint of a recorded process is contacted only where its identity
/// was verified and its configuration is the current one.
pub proof fn health_is_checked_on_verified_processes_only(
    identity_unconfirmed: bool,
    identity: Result<RecordIdentity, ()>,
    has_config: bool,
    config_matches: bool,
)
    ensures
        initial_disposition(identity_unconfirmed, identity, has_config, config_matches)
            is CheckHealth <==> !identity_unconfirmed && verified(identity) && has_config
            && config_matches,
{
}

/// A process is taken over in full only where it is healthy and its identity
/// still holds after the health check.
pub proof fn reattachment_needs_health_and_identity(
    identity: Result<RecordIdentity, ()>,
    healthy: bool,
)
    ensures
        final_disposition(identity, healthy) is Reattach <==> healthy && verified(identity),
{
}

/// A record is discarded only where the process is gone or its identifier
/// belongs to another process.
pub proof fn only_absent_processes_are_discarded(
    identity_unconfirmed: bool,
    identity: Result<RecordIdentity, ()>,
    has_config: bool,
    config_matches: bool,
    healthy: bool,
)
    ensures
        initial_disposition(identity_unconfirmed, identity, has_config, config_matches) is Discard
            ==> identity is Ok && (identity->Ok_0 is Missing || identity->Ok_0 is Mismatched),
        final_disposition(identity, healthy) is Discard ==> identity is Ok && (identity->Ok_0
            is Missing || identity->Ok_0 is Mismatched),
{
}

} // verus!
