//! Reading the configuration again, and the stored password that goes with
//! it.

#[allow(unused_imports)]
use vstd::prelude::*;
use crate::config::ValidatedConfig;
#[allow(unused_imports)]
use crate::config::ValidatedConfigView;
use crate::keychain::KeychainRead;
use crate::protocol::DesiredState;
use super::credential::{CredentialActions, CredentialFacts, WorkerMessage};
#[allow(unused_imports)]
use super::credential::{
    after_read_started, change_actions, changed_credentials, landed, merge_actions, merged_config,
    merged_credentials, no_actions, read_actions, read_config, read_counts, read_credentials,
    refresh_overdue, removed_credentials, without_password, CredentialView,
};
#[allow(unused_imports)]
use super::lifecycle::fresh_attempts;
use super::{Effect, HealthThen, StartTrigger, Supervisor, Task};
#[allow(unused_imports)]
use super::{go_on, HandView, Next, SupervisorView, TextsView};

verus! {

/// The account under which the password is stored, where no configuration
/// names one.
pub const DEFAULT_ACCOUNT: &'static str = "opencode";

/// The account of the latest configuration.
pub open spec fn current_account(s: SupervisorView) -> Seq<char> {
    match s.latest_config {
        Some(config) => config.effective_username,
        None => DEFAULT_ACCOUNT@,
    }
}

/// Works on another account.
pub open spec fn about(s: SupervisorView, account: Seq<char>) -> SupervisorView {
    SupervisorView { hand: HandView { account, ..s.hand }, ..s }
}

/// Does what the credentials ask for, for the account in hand.
pub open spec fn acting(s: SupervisorView, actions: CredentialActions) -> Next {
    if actions.start_read {
        Next {
            state: s.with_task(Task::ReadStarted),
            effect: Effect::Credentials(actions),
        }
    } else if actions.any() {
        Next { state: s, effect: Effect::Credentials(actions) }
    } else {
        go_on(s)
    }
}

/// Takes a loaded configuration in hand, or shows why there is none. A
/// running process keeps the configuration known last.
pub open spec fn config_loaded(
    s: SupervisorView,
    loaded: Result<ValidatedConfigView, Seq<char>>,
) -> Next {
    match loaded {
        Ok(config) => Next {
            state: about(
                SupervisorView { hand: HandView { draft: Some(config), ..s.hand }, ..s },
                config.effective_username,
            ).with_task(Task::CredentialProbed),
            effect: Effect::ProbeCredential,
        },
        Err(text) => go_on(
            SupervisorView {
                texts: TextsView { config_error: Some(text), ..s.texts },
                latest_config: if s.process is None {
                    None
                } else {
                    s.latest_config
                },
                ..s
            },
        ),
    }
}

/// The state after the password was merged into the configuration in hand.
pub open spec fn config_merged(s: SupervisorView, facts: CredentialFacts) -> SupervisorView {
    match s.hand.draft {
        Some(config) => SupervisorView {
            credentials: merged_credentials(s.credentials, config, s.latest_config, facts),
            latest_config: Some(merged_config(config, s.latest_config, facts)),
            hand: HandView { draft: None, ..s.hand },
            ..s
        },
        None => s,
    }
}

/// A configuration differs from the latest one.
pub open spec fn config_changed(
    latest: Option<ValidatedConfigView>,
    config: ValidatedConfigView,
) -> bool {
    latest matches Some(earlier) ==> !earlier.same(config)
}

/// The state with the work that a reloaded configuration leads to.
pub open spec fn config_followed(s: SupervisorView, changed: bool) -> SupervisorView {
    let rechecked = SupervisorView {
        texts: TextsView { config_error: None, ..s.texts },
        ..s
    }.with_task(Task::RecheckStale);
    if changed {
        rechecked.with_task(Task::SyncHealth(HealthThen::Done))
    } else {
        rechecked
    }
}

/// Merges the password into a reloaded configuration.
pub open spec fn credential_probed(s: SupervisorView, facts: CredentialFacts) -> Next {
    match s.hand.draft {
        Some(config) => {
            let merged = config_merged(s, facts);
            acting(
                config_followed(merged, config_changed(s.latest_config, merged.latest_config->0)),
                merge_actions(s.credentials, config, s.latest_config, facts),
            )
        },
        None => go_on(s),
    }
}

/// Merges the password into the configuration that the agent boots with.
pub open spec fn boot_merged(s: SupervisorView, facts: CredentialFacts) -> Next {
    match s.hand.draft {
        Some(config) => acting(
            config_merged(s, facts),
            merge_actions(s.credentials, config, s.latest_config, facts),
        ),
        None => go_on(s),
    }
}

/// Takes the configuration that the agent boots with in hand.
pub open spec fn boot_merging(s: SupervisorView) -> Next {
    match s.latest_config {
        Some(config) => Next {
            state: about(
                SupervisorView {
                    latest_config: None,
                    hand: HandView { draft: Some(config), ..s.hand },
                    ..s
                },
                config.effective_username,
            ).with_task(Task::BootMerged),
            effect: Effect::ProbeCredential,
        },
        None => go_on(s),
    }
}

/// The stored password was removed.
pub open spec fn credential_removed(s: SupervisorView) -> Next {
    acting(
        about(
            SupervisorView {
                credentials: removed_credentials(s.credentials),
                latest_config: without_password(s.latest_config),
                ..s
            },
            current_account(s),
        ),
        CredentialActions { clear_grant: true, ..no_actions() },
    )
}

/// The stored password was changed: whether it may be read silently depends
/// on the signing team.
pub open spec fn credential_changing(s: SupervisorView) -> Next {
    Next {
        state: about(s, current_account(s)).with_task(Task::TeamsCompared),
        effect: Effect::CompareTeams,
    }
}

/// What follows the comparison of the teams.
pub open spec fn credential_changed(s: SupervisorView, team_matches: bool) -> Next {
    acting(
        SupervisorView {
            credentials: changed_credentials(s.credentials, s.hand.account, team_matches),
            ..s
        },
        change_actions(s.credentials, s.hand.account, team_matches),
    )
}

/// A read of the stored password was asked for.
pub open spec fn credential_requested(s: SupervisorView) -> Next {
    let asked = about(s, current_account(s));
    if s.credentials.refresh is None {
        acting(
            SupervisorView {
                credentials: CredentialView { explicitly_removed: false, ..s.credentials },
                ..asked
            },
            CredentialActions { start_read: true, ..no_actions() },
        )
    } else {
        go_on(asked)
    }
}

/// The waiting read is polled, if there is one.
pub open spec fn credential_polling(s: SupervisorView) -> Next {
    if s.credentials.refresh is Some {
        Next {
            state: s.with_task(Task::CredentialPolled),
            effect: Effect::PollCredentialRead,
        }
    } else {
        go_on(s)
    }
}

/// A password became usable: a start that waited for it resumes, and a
/// process under an outdated configuration is considered again.
pub open spec fn password_applied(s: SupervisorView) -> SupervisorView {
    let rechecked = s.with_task(Task::RecheckStale);
    if s.process is None && !s.server.unverified_process_record && s.runtime.desired_state
        is Running {
        fresh_attempts(rechecked).without_retries().with_task(Task::StartNow(StartTrigger::Cold))
    } else {
        rechecked
    }
}

/// What the waiting read leads to.
pub open spec fn credential_polled(s: SupervisorView, message: WorkerMessage<KeychainRead>) -> Next {
    match s.credentials.refresh {
        None => go_on(s),
        Some(refresh) => match message {
            WorkerMessage::Ready(read) => {
                let seen = read.deep_view();
                let told = about(
                    SupervisorView {
                        credentials: read_credentials(
                            landed(s.credentials),
                            refresh.account,
                            s.latest_config,
                            seen,
                        ),
                        latest_config: read_config(
                            s.credentials,
                            refresh.account,
                            s.latest_config,
                            seen,
                        ),
                        ..s
                    },
                    refresh.account,
                );
                let applied = read_counts(s.credentials, refresh.account, s.latest_config)
                    && seen is Found;
                acting(
                    if applied {
                        password_applied(told)
                    } else {
                        told
                    },
                    read_actions(s.credentials, refresh.account, s.latest_config, seen),
                )
            },
            WorkerMessage::Disconnected => go_on(
                about(
                    SupervisorView { credentials: landed(s.credentials), ..s },
                    refresh.account,
                ),
            ),
            WorkerMessage::Empty => go_on(
                about(
                    SupervisorView {
                        credentials: CredentialView {
                            overdue_logged: s.credentials.overdue_logged || refresh_overdue(
                                s.credentials,
                                s.timers.tick_at,
                            ),
                            ..s.credentials
                        },
                        ..s
                    },
                    refresh.account,
                ),
            ),
        },
    }
}

/// The content of a loaded configuration.
pub open spec fn loaded_config(loaded: Result<ValidatedConfig, String>) -> Result<
    ValidatedConfigView,
    Seq<char>,
> {
    match loaded {
        Ok(config) => Ok(config.deep_view()),
        Err(text) => Err(text@),
    }
}

impl Supervisor {
    fn latest_account(&self) -> (account: String)
        ensures
            account@ == current_account(self.model()),
    {
        match &self.latest_config {
            Some(config) => config.effective_username.clone(),
            None => DEFAULT_ACCOUNT.to_owned(),
        }
    }

    fn act_on_credentials(&mut self, actions: CredentialActions) -> (effect: Effect)
        ensures
            (Next { state: final(self).model(), effect }) == acting(old(self).model(), actions),
    {
        if actions.start_read {
            self.push(Task::ReadStarted);
            return Effect::Credentials(actions);
        }
        if actions.is_any() {
            return Effect::Credentials(actions);
        }
        Effect::Continue
    }

    /// Goes on after the configuration was loaded.
    pub(super) fn configuration_loaded(&mut self, loaded: Result<ValidatedConfig, String>) -> (effect:
        Effect)
        ensures
            (Next { state: final(self).model(), effect }) == config_loaded(
                old(self).model(),
                loaded_config(loaded),
            ),
    {
        match loaded {
            Ok(config) => {
                self.hand.account = config.effective_username.clone();
                self.hand.draft = Some(config);
                self.push(Task::CredentialProbed);
                Effect::ProbeCredential
            },
            Err(text) => {
                self.texts.config_error = Some(text);
                if self.process.is_none() {
                    self.latest_config = None;
                }
                Effect::Continue
            },
        }
    }

    /// Merges the password into the configuration in hand. Returns what the
    /// credentials ask for and whether the configuration changed.
    fn merge_draft(&mut self, config: ValidatedConfig, facts: CredentialFacts) -> (merged: (
        CredentialActions,
        bool,
    ))
        requires
            old(self).model().hand.draft is None,
        ensures
            ({
                let before = old(self).model();
                let draft = config.deep_view();
                let latest = merged_config(draft, before.latest_config, facts);
                &&& final(self).model() == (SupervisorView {
                    credentials: merged_credentials(
                        before.credentials,
                        draft,
                        before.latest_config,
                        facts,
                    ),
                    latest_config: Some(latest),
                    ..before
                })
                &&& merged.0 == merge_actions(
                    before.credentials,
                    draft,
                    before.latest_config,
                    facts,
                )
                &&& merged.1 == config_changed(before.latest_config, latest)
            }),
    {
        let (config, actions) = self.credentials.merge_credentials(
            config,
            &self.latest_config,
            facts,
        );
        let changed = match &self.latest_config {
            Some(latest) => !latest.same_as(&config),
            None => true,
        };
        self.latest_config = Some(config);
        (actions, changed)
    }

    fn follow_config(&mut self, changed: bool)
        ensures
            final(self).model() == config_followed(old(self).model(), changed),
    {
        self.texts.config_error = None;
        self.push(Task::RecheckStale);
        if changed {
            self.push(Task::SyncHealth(HealthThen::Done));
        }
    }

    /// Goes on after the keychain item was looked for.
    pub(super) fn merge_reloaded_config(&mut self, facts: CredentialFacts) -> (effect: Effect)
        ensures
            (Next { state: final(self).model(), effect }) == credential_probed(
                old(self).model(),
                facts,
            ),
    {
        match self.hand.draft.take() {
            Some(config) => {
                let (actions, changed) = self.merge_draft(config, facts);
                self.follow_config(changed);
                self.act_on_credentials(actions)
            },
            None => Effect::Continue,
        }
    }

    /// Takes the configuration that the agent boots with in hand.
    pub(super) fn begin_boot_merge(&mut self) -> (effect: Effect)
        ensures
            (Next { state: final(self).model(), effect }) == boot_merging(old(self).model()),
    {
        match self.latest_config.take() {
            Some(config) => {
                self.hand.account = config.effective_username.clone();
                self.hand.draft = Some(config);
                self.push(Task::BootMerged);
                Effect::ProbeCredential
            },
            None => Effect::Continue,
        }
    }

    /// Goes on after the keychain item was looked for at boot.
    pub(super) fn merge_boot_config(&mut self, facts: CredentialFacts) -> (effect: Effect)
        ensures
            (Next { state: final(self).model(), effect }) == boot_merged(
                old(self).model(),
                facts,
            ),
    {
        match self.hand.draft.take() {
            Some(config) => {
                let (actions, _) = self.merge_draft(config, facts);
                self.act_on_credentials(actions)
            },
            None => Effect::Continue,
        }
    }

    /// Goes on after a read was or was not started.
    pub(super) fn credential_read_started(&mut self, now: u64, started: bool)
        ensures
            final(self).model() == (SupervisorView {
                credentials: after_read_started(
                    old(self).model().credentials,
                    now,
                    old(self).model().hand.account,
                    started,
                ),
                ..old(self).model()
            }),
    {
        self.credentials.read_started(now, self.hand.account.as_str(), started);
    }

    /// The stored password was removed.
    pub(super) fn mark_credential_removed(&mut self) -> (effect: Effect)
        ensures
            (Next { state: final(self).model(), effect }) == credential_removed(
                old(self).model(),
            ),
    {
        self.hand.account = self.latest_account();
        let actions = self.credentials.mark_credential_removed(&mut self.latest_config);
        self.act_on_credentials(actions)
    }

    /// The stored password was changed.
    pub(super) fn mark_credential_changed(&mut self) -> (effect: Effect)
        ensures
            (Next { state: final(self).model(), effect }) == credential_changing(
                old(self).model(),
            ),
    {
        self.hand.account = self.latest_account();
        self.push(Task::TeamsCompared);
        Effect::CompareTeams
    }

    /// Goes on after the teams were compared.
    pub(super) fn credential_teams_compared(&mut self, team_matches: bool) -> (effect: Effect)
        ensures
            (Next { state: final(self).model(), effect }) == credential_changed(
                old(self).model(),
                team_matches,
            ),
    {
        let actions = self.credentials.mark_credential_changed(
            self.hand.account.as_str(),
            team_matches,
        );
        self.act_on_credentials(actions)
    }

    /// A read of the stored password was asked for.
    pub(super) fn request_credential_refresh(&mut self) -> (effect: Effect)
        ensures
            (Next { state: final(self).model(), effect }) == credential_requested(
                old(self).model(),
            ),
    {
        self.hand.account = self.latest_account();
        let actions = self.credentials.request_credential_refresh();
        self.act_on_credentials(actions)
    }

    /// Polls the waiting read, if there is one.
    pub(super) fn poll_credential_refresh(&mut self) -> (effect: Effect)
        ensures
            (Next { state: final(self).model(), effect }) == credential_polling(
                old(self).model(),
            ),
    {
        if !self.credentials.refresh_in_flight() {
            return Effect::Continue;
        }
        self.push(Task::CredentialPolled);
        Effect::PollCredentialRead
    }

    fn apply_password(&mut self)
        ensures
            final(self).model() == password_applied(old(self).model()),
    {
        self.push(Task::RecheckStale);
        if self.process.is_none() && !self.server.unverified_process_record
            && self.runtime.desired_state == DesiredState::Running {
            self.server.restart_attempt_index = 0;
            self.timers.next_restart = None;
            self.drop_retries();
            self.push(Task::StartNow(StartTrigger::Cold));
        }
    }

    /// Goes on after the waiting read was polled.
    pub(super) fn credential_read_polled(&mut self, message: WorkerMessage<KeychainRead>) -> (effect:
        Effect)
        ensures
            (Next { state: final(self).model(), effect }) == credential_polled(
                old(self).model(),
                message,
            ),
    {
        match &self.credentials.credential_refresh {
            Some(refresh) => {
                self.hand.account = refresh.account.clone();
            },
            None => return Effect::Continue,
        }
        let now: u64 = self.timers.tick_at;
        let (actions, applied) = self.credentials.poll_credential_refresh(
            now,
            &mut self.latest_config,
            message,
        );
        if applied {
            self.apply_password();
        }
        self.act_on_credentials(actions)
    }
}

} // verus!
