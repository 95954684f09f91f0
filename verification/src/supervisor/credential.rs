//! Whether the stored password is usable, and when it may be read.
//!
//! Decrypting the keychain item can raise a consent dialog, so a read is
//! started only on request or on evidence that it will be silent.

#[allow(unused_imports)]
use vstd::prelude::*;
use crate::config::ValidatedConfig;
#[allow(unused_imports)]
use crate::config::{ConfigFileView, ValidatedConfigView};
use crate::keychain::{KeychainProbe, KeychainRead};
#[allow(unused_imports)]
use crate::keychain::KeychainReadView;
use crate::text::same_text;
#[allow(unused_imports)]
use crate::text::pieces_view;

verus! {

/// How long a consent dialog may stay unanswered before it is noted, in
/// nanoseconds.
pub const CREDENTIAL_REFRESH_OVERDUE: u64 = 300_000_000_000;

/// Whether the stored password is usable. `AccessPending` means that an item
/// may exist but is not readable yet.
#[derive(Clone, Copy, Debug, PartialEq, Eq, Structural)]
pub enum CredentialState {
    NotConfigured,
    AccessPending,
    Available,
}

/// What a worker has to say when it is polled.
#[derive(Debug, PartialEq, Eq)]
pub enum WorkerMessage<T> {
    Ready(T),
    /// The worker is gone without a result.
    Disconnected,
    Empty,
}

/// The accounts for which something was done once. No account occurs twice.
#[derive(Debug, PartialEq, Eq)]
pub struct AccountSet {
    items: Vec<String>,
}

impl View for AccountSet {
    type V = Set<Seq<char>>;

    closed spec fn view(&self) -> Set<Seq<char>> {
        pieces_view(self.items@).to_set()
    }
}

impl AccountSet {
    #[verifier::type_invariant]
    spec fn distinct(self) -> bool {
        pieces_view(self.items@).no_duplicates()
    }

    /// The set without accounts.
    pub fn new() -> (set: AccountSet)
        ensures
            set@ == Set::<Seq<char>>::empty(),
    {
        let items: Vec<String> = Vec::new();
        proof {
            assert(pieces_view(items@) =~= Seq::<Seq<char>>::empty());
            assert(pieces_view(items@).to_set() =~= Set::<Seq<char>>::empty());
        }
        AccountSet { items }
    }

    /// Whether an account is in the set.
    pub fn contains(&self, account: &str) -> (found: bool)
        ensures
            found == self@.contains(account@),
    {
        let mut index: usize = 0;
        while index < self.items.len()
            invariant
                index <= self.items@.len(),
                forall|i: int| 0 <= i < index ==> #[trigger] pieces_view(self.items@)[i] != account@,
            decreases self.items@.len() - index,
        {
            if same_text(self.items[index].as_str(), account) {
                proof {
                    assert(pieces_view(self.items@)[index as int] == account@);
                    assert(pieces_view(self.items@).contains(account@));
                }
                return true;
            }
            index = index + 1;
        }
        assert(!pieces_view(self.items@).contains(account@));
        false
    }

    /// Adds an account. Returns whether it was new.
    pub fn insert(&mut self, account: &str) -> (added: bool)
        ensures
            added == !old(self)@.contains(account@),
            final(self)@ == old(self)@.insert(account@),
    {
        proof {
            use_type_invariant(&*self);
        }
        if self.contains(account) {
            assert(self@ =~= self@.insert(account@));
            return false;
        }
        let ghost before = pieces_view(self.items@);
        let mut items = copy_all(&self.items);
        let added = account.to_owned();
        items.push(added);
        let ghost after = pieces_view(items@);
        proof {
            assert(after =~= before.push(account@));
            assert(!before.contains(account@));
            assert(after.no_duplicates()) by {
                assert forall|i: int, j: int|
                    0 <= i < after.len() && 0 <= j < after.len() && i != j implies after[i]
                    != after[j] by {
                    if i == before.len() {
                        assert(before.contains(after[j]));
                    } else if j == before.len() {
                        assert(before.contains(after[i]));
                    }
                }
            }
            assert(after.to_set() =~= before.to_set().insert(account@)) by {
                assert forall|a: Seq<char>| #[trigger]
                    after.to_set().contains(a) == before.to_set().insert(account@).contains(a) by {
                    if after.contains(a) {
                        let i = choose|i: int| 0 <= i < after.len() && after[i] == a;
                        if i < before.len() {
                            assert(before[i] == a);
                        }
                    }
                    if before.contains(a) {
                        let i = choose|i: int| 0 <= i < before.len() && before[i] == a;
                        assert(after[i] == a);
                    }
                    assert(after[before.len() as int] == account@);
                }
            }
        }
        *self = AccountSet { items };
        true
    }

    /// Takes an account out.
    pub fn remove(&mut self, account: &str)
        ensures
            final(self)@ == old(self)@.remove(account@),
    {
        proof {
            use_type_invariant(&*self);
        }
        let ghost before = pieces_view(self.items@);
        let mut kept: Vec<String> = Vec::new();
        let mut index: usize = 0;
        while index < self.items.len()
            invariant
                index <= self.items@.len(),
                before == pieces_view(self.items@),
                before.no_duplicates(),
                pieces_view(kept@).no_duplicates(),
                forall|a: Seq<char>| #[trigger]
                    pieces_view(kept@).contains(a) <==> a != account@ && before.take(
                        index as int,
                    ).contains(a),
            decreases self.items@.len() - index,
        {
            let ghost seen = before.take(index as int);
            let ghost longer = before.take(index as int + 1);
            let ghost kept_before = pieces_view(kept@);
            let ghost item = before[index as int];
            proof {
                assert(item == self.items@[index as int]@);
                assert(longer =~= seen.push(item));
                assert(!seen.contains(item)) by {
                    if seen.contains(item) {
                        let i = choose|i: int| 0 <= i < seen.len() && seen[i] == item;
                        assert(before[i] == before[index as int]);
                    }
                }
                assert(longer[index as int] == item);
                assert forall|a: Seq<char>|
                    longer.contains(a) <==> seen.contains(a) || a == item by {
                    if seen.contains(a) {
                        let i = choose|i: int| 0 <= i < seen.len() && seen[i] == a;
                        assert(longer[i] == a);
                    }
                    if longer.contains(a) {
                        let i = choose|i: int| 0 <= i < longer.len() && longer[i] == a;
                        if i < seen.len() {
                            assert(seen[i] == a);
                        }
                    }
                }
            }
            if !same_text(self.items[index].as_str(), account) {
                kept.push(self.items[index].clone());
                proof {
                    let after = pieces_view(kept@);
                    assert(after =~= kept_before.push(item));
                    assert(!kept_before.contains(item));
                    assert(after.no_duplicates()) by {
                        assert forall|i: int, j: int|
                            0 <= i < after.len() && 0 <= j < after.len() && i != j implies after[i]
                            != after[j] by {
                            if i == kept_before.len() {
                                assert(kept_before.contains(after[j]));
                            } else if j == kept_before.len() {
                                assert(kept_before.contains(after[i]));
                            }
                        }
                    }
                    assert forall|a: Seq<char>| #[trigger]
                        after.contains(a) <==> kept_before.contains(a) || a == item by {
                        if kept_before.contains(a) {
                            let i = choose|i: int|
                                0 <= i < kept_before.len() && kept_before[i] == a;
                            assert(after[i] == a);
                        }
                        assert(after[kept_before.len() as int] == item);
                        if after.contains(a) {
                            let i = choose|i: int| 0 <= i < after.len() && after[i] == a;
                            if i < kept_before.len() {
                                assert(kept_before[i] == a);
                            }
                        }
                    }
                }
            }
            index = index + 1;
        }
        proof {
            assert(before.take(index as int) =~= before);
            assert(pieces_view(kept@).to_set() =~= before.to_set().remove(account@));
        }
        *self = AccountSet { items: kept };
    }
}

/// Copies some strings.
fn copy_all(items: &Vec<String>) -> (copy: Vec<String>)
    ensures
        pieces_view(copy@) == pieces_view(items@),
{
    let mut copy: Vec<String> = Vec::new();
    let mut index: usize = 0;
    while index < items.len()
        invariant
            index <= items@.len(),
            pieces_view(copy@) == pieces_view(items@).take(index as int),
        decreases items@.len() - index,
    {
        let ghost before = pieces_view(copy@);
        copy.push(items[index].clone());
        proof {
            assert(pieces_view(copy@) =~= before.push(items@[index as int]@));
            assert(pieces_view(copy@) =~= pieces_view(items@).take(index as int + 1));
        }
        index = index + 1;
    }
    assert(pieces_view(copy@) =~= pieces_view(items@));
    copy
}

/// A read that is waiting for its answer.
#[derive(Debug, PartialEq, Eq)]
pub struct CredentialRefreshInFlight {
    pub dispatched: u64,
    pub account: String,
}

/// The mathematical content of a [`CredentialRefreshInFlight`].
pub struct RefreshView {
    pub dispatched: u64,
    pub account: Seq<char>,
}

impl DeepView for CredentialRefreshInFlight {
    type V = RefreshView;

    open spec fn deep_view(&self) -> RefreshView {
        RefreshView { dispatched: self.dispatched, account: self.account@ }
    }
}

/// What is known about the stored password and about reading it.
#[derive(Debug, PartialEq, Eq)]
pub struct CredentialController {
    pub credential_state: CredentialState,
    pub credential_refresh: Option<CredentialRefreshInFlight>,
    pub credential_refresh_overdue_logged: bool,
    /// The item was changed, and no read has applied the change yet.
    pub credential_stale: bool,
    /// The item was deleted: an earlier read must not bring it back.
    pub credential_explicitly_removed: bool,
    /// The accounts whose one automatic read was spent.
    pub automatic_read_attempted: AccountSet,
}

/// The mathematical content of a [`CredentialController`].
pub struct CredentialView {
    pub state: CredentialState,
    pub refresh: Option<RefreshView>,
    pub overdue_logged: bool,
    pub stale: bool,
    pub explicitly_removed: bool,
    pub attempted: Set<Seq<char>>,
}

impl DeepView for CredentialController {
    type V = CredentialView;

    open spec fn deep_view(&self) -> CredentialView {
        CredentialView {
            state: self.credential_state,
            refresh: self.credential_refresh.deep_view(),
            overdue_logged: self.credential_refresh_overdue_logged,
            stale: self.credential_stale,
            explicitly_removed: self.credential_explicitly_removed,
            attempted: self.automatic_read_attempted@,
        }
    }
}

/// What was found out before a configuration is merged.
#[derive(Clone, Copy, Debug, PartialEq, Eq, Structural)]
pub struct CredentialFacts {
    pub probe: KeychainProbe,
    /// The marker proves a decrypt by exactly this build.
    pub covered: bool,
    /// The marker was recorded under this build's own signing team.
    pub team_matches: bool,
}

/// What is to be done besides changing the state.
#[derive(Clone, Copy, Debug, PartialEq, Eq, Structural)]
pub struct CredentialActions {
    pub clear_grant: bool,
    pub record_grant: bool,
    pub start_read: bool,
}

/// Nothing is to be done.
pub open spec fn no_actions() -> CredentialActions {
    CredentialActions { clear_grant: false, record_grant: false, start_read: false }
}

impl CredentialActions {
    pub fn none() -> (actions: CredentialActions)
        ensures
            actions == no_actions(),
    {
        CredentialActions { clear_grant: false, record_grant: false, start_read: false }
    }

    /// Whether anything is to be done.
    pub open spec fn any(self) -> bool {
        self != no_actions()
    }

    /// Whether anything is to be done.
    pub fn is_any(&self) -> (any: bool)
        ensures
            any == self.any(),
    {
        self.clear_grant || self.record_grant || self.start_read
    }
}

/// A configuration with another password.
pub open spec fn with_password(config: ValidatedConfigView, password: Seq<char>) -> ValidatedConfigView {
    ValidatedConfigView { source: ConfigFileView { password, ..config.source }, ..config }
}

/// An earlier password belongs to the same account and can be kept.
pub open spec fn carries(
    config: ValidatedConfigView,
    previous: Option<ValidatedConfigView>,
) -> bool {
    previous matches Some(earlier) && earlier.effective_username == config.effective_username
        && earlier.source.password.len() > 0
}

/// The configuration with the earlier password where it can be kept.
pub open spec fn carried(
    config: ValidatedConfigView,
    previous: Option<ValidatedConfigView>,
) -> ValidatedConfigView {
    if carries(config, previous) {
        with_password(config, previous->0.source.password)
    } else {
        config
    }
}

/// The configuration after its password was merged in. Only an item that is
/// provably absent empties the password.
pub open spec fn merged_config(
    config: ValidatedConfigView,
    previous: Option<ValidatedConfigView>,
    facts: CredentialFacts,
) -> ValidatedConfigView {
    if facts.probe is NotConfigured {
        with_password(config, Seq::empty())
    } else {
        carried(config, previous)
    }
}

/// A read on the evidence of the signing team is still allowed: none is in
/// flight, and the account's one automatic read was not spent.
pub open spec fn automatic_read_allowed(credentials: CredentialView, account: Seq<char>) -> bool {
    credentials.refresh is None && !credentials.attempted.contains(account)
}

/// The state after its one automatic read was spent, if it was allowed.
pub open spec fn automatic_read_spent(
    credentials: CredentialView,
    account: Seq<char>,
) -> CredentialView {
    if automatic_read_allowed(credentials, account) {
        CredentialView { attempted: credentials.attempted.insert(account), ..credentials }
    } else {
        credentials
    }
}

/// A read for a merge may be started: the item exists, its change is not
/// awaiting a request, no earlier password serves, and there is evidence.
pub open spec fn merge_reads(
    credentials: CredentialView,
    config: ValidatedConfigView,
    previous: Option<ValidatedConfigView>,
    facts: CredentialFacts,
) -> bool {
    &&& facts.probe is Exists
    &&& !credentials.stale
    &&& !carries(config, previous)
    &&& if facts.covered {
        credentials.refresh is None
    } else {
        facts.team_matches && automatic_read_allowed(credentials, config.effective_username)
    }
}

/// The state after a merge.
pub open spec fn merged_credentials(
    credentials: CredentialView,
    config: ValidatedConfigView,
    previous: Option<ValidatedConfigView>,
    facts: CredentialFacts,
) -> CredentialView {
    match facts.probe {
        KeychainProbe::NotConfigured => CredentialView {
            state: CredentialState::NotConfigured,
            stale: false,
            ..credentials
        },
        KeychainProbe::Failed(_) => CredentialView {
            state: CredentialState::AccessPending,
            ..credentials
        },
        KeychainProbe::Exists => {
            let spent = if merge_reads(credentials, config, previous, facts) && !facts.covered {
                automatic_read_spent(credentials, config.effective_username)
            } else {
                credentials
            };
            CredentialView {
                state: if !credentials.stale && carries(config, previous) {
                    CredentialState::Available
                } else {
                    CredentialState::AccessPending
                },
                ..spent
            }
        },
    }
}

/// What a merge asks for.
pub open spec fn merge_actions(
    credentials: CredentialView,
    config: ValidatedConfigView,
    previous: Option<ValidatedConfigView>,
    facts: CredentialFacts,
) -> CredentialActions {
    CredentialActions {
        clear_grant: facts.probe is NotConfigured,
        record_grant: false,
        start_read: merge_reads(credentials, config, previous, facts),
    }
}

/// The state after a read was or was not started.
pub open spec fn after_read_started(
    credentials: CredentialView,
    now: u64,
    account: Seq<char>,
    started: bool,
) -> CredentialView {
    if started {
        CredentialView {
            refresh: Some(RefreshView { dispatched: now, account }),
            overdue_logged: false,
            ..credentials
        }
    } else {
        credentials
    }
}

/// The state after the item was changed.
pub open spec fn changed_credentials(
    credentials: CredentialView,
    account: Seq<char>,
    team_matches: bool,
) -> CredentialView {
    let marked = CredentialView {
        explicitly_removed: false,
        stale: true,
        state: CredentialState::AccessPending,
        ..credentials
    };
    if team_matches {
        automatic_read_spent(marked, account)
    } else {
        marked
    }
}

/// What a change of the item asks for: a silent read where the signing team
/// vouches for it, and otherwise the marker is retired.
pub open spec fn change_actions(
    credentials: CredentialView,
    account: Seq<char>,
    team_matches: bool,
) -> CredentialActions {
    CredentialActions {
        clear_grant: !team_matches,
        record_grant: false,
        start_read: team_matches && automatic_read_allowed(credentials, account),
    }
}

/// The state after the item was removed.
pub open spec fn removed_credentials(credentials: CredentialView) -> CredentialView {
    CredentialView {
        explicitly_removed: true,
        stale: false,
        state: CredentialState::NotConfigured,
        ..credentials
    }
}

/// The latest configuration without its password.
pub open spec fn without_password(latest: Option<ValidatedConfigView>) -> Option<
    ValidatedConfigView,
> {
    match latest {
        Some(config) => Some(with_password(config, Seq::empty())),
        None => None,
    }
}

/// The result of a read counts: the item was not removed meanwhile, and the
/// configuration still names the same account.
pub open spec fn read_counts(
    credentials: CredentialView,
    account: Seq<char>,
    latest: Option<ValidatedConfigView>,
) -> bool {
    !credentials.explicitly_removed && latest is Some && latest->0.effective_username == account
}

/// The state after a read was applied.
pub open spec fn read_credentials(
    credentials: CredentialView,
    account: Seq<char>,
    latest: Option<ValidatedConfigView>,
    read: KeychainReadView,
) -> CredentialView {
    if !read_counts(credentials, account, latest) {
        credentials
    } else {
        match read {
            KeychainReadView::Found(_) => CredentialView {
                state: CredentialState::Available,
                stale: false,
                attempted: credentials.attempted.remove(account),
                ..credentials
            },
            KeychainReadView::NotConfigured => CredentialView {
                state: CredentialState::NotConfigured,
                stale: false,
                ..credentials
            },
            _ => CredentialView { state: CredentialState::AccessPending, ..credentials },
        }
    }
}

/// The latest configuration after a read was applied.
pub open spec fn read_config(
    credentials: CredentialView,
    account: Seq<char>,
    latest: Option<ValidatedConfigView>,
    read: KeychainReadView,
) -> Option<ValidatedConfigView> {
    if !read_counts(credentials, account, latest) {
        latest
    } else {
        match read {
            KeychainReadView::Found(password) => Some(with_password(latest->0, password)),
            KeychainReadView::NotConfigured => without_password(latest),
            _ => latest,
        }
    }
}

/// What applying a read asks for. A refusal retires the marker, so that no
/// background path raises the dialog again.
pub open spec fn read_actions(
    credentials: CredentialView,
    account: Seq<char>,
    latest: Option<ValidatedConfigView>,
    read: KeychainReadView,
) -> CredentialActions {
    let counts = read_counts(credentials, account, latest);
    CredentialActions {
        clear_grant: counts && (read is NotConfigured || read is AccessPending),
        record_grant: counts && read is Found,
        start_read: false,
    }
}

/// The state once the answer to a read is no longer awaited.
pub open spec fn landed(credentials: CredentialView) -> CredentialView {
    CredentialView { refresh: None, overdue_logged: false, ..credentials }
}

/// A read has been waiting for too long.
pub open spec fn refresh_overdue(credentials: CredentialView, now: u64) -> bool {
    credentials.refresh matches Some(refresh) && now - refresh.dispatched
        > CREDENTIAL_REFRESH_OVERDUE
}

impl CredentialController {
    pub fn new() -> (credentials: CredentialController)
        ensures
            credentials.deep_view() == (CredentialView {
                state: CredentialState::NotConfigured,
                refresh: None,
                overdue_logged: false,
                stale: false,
                explicitly_removed: false,
                attempted: Set::empty(),
            }),
    {
        CredentialController {
            credential_state: CredentialState::NotConfigured,
            credential_refresh: None,
            credential_refresh_overdue_logged: false,
            credential_stale: false,
            credential_explicitly_removed: false,
            automatic_read_attempted: AccountSet::new(),
        }
    }

    pub fn state(&self) -> (state: CredentialState)
        ensures
            state == self.deep_view().state,
    {
        self.credential_state
    }

    /// Whether a read is waiting for its answer.
    pub fn refresh_in_flight(&self) -> (waiting: bool)
        ensures
            waiting == (self.deep_view().refresh is Some),
    {
        self.credential_refresh.is_some()
    }

    /// Copies the earlier password where it belongs to the same account.
    /// Returns whether one was kept.
    fn carry_over_password(
        config: &mut ValidatedConfig,
        previous: &Option<ValidatedConfig>,
    ) -> (kept: bool)
        ensures
            kept == carries(old(config).deep_view(), previous.deep_view()),
            final(config).deep_view() == carried(old(config).deep_view(), previous.deep_view()),
    {
        match previous {
            Some(earlier) => {
                if !same_text(
                    earlier.effective_username.as_str(),
                    config.effective_username.as_str(),
                ) || earlier.source.password.as_str().is_empty() {
                    return false;
                }
                config.source.password = earlier.source.password.clone();
                true
            },
            None => false,
        }
    }

    /// Spends the one automatic read of an account. Returns whether the read
    /// may be started.
    fn dispatch_automatic_credential_read(&mut self, account: &str) -> (start: bool)
        ensures
            start == automatic_read_allowed(old(self).deep_view(), account@),
            final(self).deep_view() == automatic_read_spent(old(self).deep_view(), account@),
    {
        if self.credential_refresh.is_some() {
            return false;
        }
        if self.automatic_read_attempted.contains(account) {
            return false;
        }
        let _ = self.automatic_read_attempted.insert(account);
        true
    }

    /// Merges the stored password into a freshly validated configuration. No
    /// read happens here: what may be read is asked for.
    pub fn merge_credentials(
        &mut self,
        config: ValidatedConfig,
        previous: &Option<ValidatedConfig>,
        facts: CredentialFacts,
    ) -> (merged: (ValidatedConfig, CredentialActions))
        ensures
            merged.0.deep_view() == merged_config(
                config.deep_view(),
                previous.deep_view(),
                facts,
            ),
            merged.1 == merge_actions(
                old(self).deep_view(),
                config.deep_view(),
                previous.deep_view(),
                facts,
            ),
            final(self).deep_view() == merged_credentials(
                old(self).deep_view(),
                config.deep_view(),
                previous.deep_view(),
                facts,
            ),
    {
        let mut config = config;
        let account = config.effective_username.clone();
        let mut actions = CredentialActions::none();
        match facts.probe {
            KeychainProbe::NotConfigured => {
                config.source.password = String::new();
                actions.clear_grant = true;
                self.credential_stale = false;
                self.credential_state = CredentialState::NotConfigured;
                proof {
                    assert(config.source.password@ =~= Seq::<char>::empty());
                }
            },
            KeychainProbe::Failed(_) => {
                let _ = Self::carry_over_password(&mut config, previous);
                self.credential_state = CredentialState::AccessPending;
            },
            KeychainProbe::Exists => {
                let kept = Self::carry_over_password(&mut config, previous);
                if self.credential_stale {
                    self.credential_state = CredentialState::AccessPending;
                } else if kept {
                    self.credential_state = CredentialState::Available;
                } else if facts.covered {
                    self.credential_state = CredentialState::AccessPending;
                    actions.start_read = self.credential_refresh.is_none();
                } else if facts.team_matches {
                    self.credential_state = CredentialState::AccessPending;
                    let start = self.dispatch_automatic_credential_read(account.as_str());
                    actions.start_read = start;
                } else {
                    self.credential_state = CredentialState::AccessPending;
                }
            },
        }
        (config, actions)
    }

    /// Notes whether a requested read could be started.
    pub fn read_started(&mut self, now: u64, account: &str, started: bool)
        ensures
            final(self).deep_view() == after_read_started(
                old(self).deep_view(),
                now,
                account@,
                started,
            ),
    {
        if started {
            self.credential_refresh = Some(
                CredentialRefreshInFlight { dispatched: now, account: account.to_owned() },
            );
            self.credential_refresh_overdue_logged = false;
        }
    }

    /// The item was changed: the password in memory is no longer current,
    /// although the running process still uses it.
    pub fn mark_credential_changed(&mut self, account: &str, team_matches: bool) -> (actions:
        CredentialActions)
        ensures
            actions == change_actions(old(self).deep_view(), account@, team_matches),
            final(self).deep_view() == changed_credentials(
                old(self).deep_view(),
                account@,
                team_matches,
            ),
    {
        let mut actions = CredentialActions::none();
        self.credential_explicitly_removed = false;
        self.credential_stale = true;
        self.credential_state = CredentialState::AccessPending;
        if team_matches {
            let start = self.dispatch_automatic_credential_read(account);
            actions.start_read = start;
        } else {
            actions.clear_grant = true;
        }
        actions
    }

    /// The item was removed: its absence is proven, and the next start runs
    /// without a password.
    pub fn mark_credential_removed(&mut self, latest: &mut Option<ValidatedConfig>) -> (actions:
        CredentialActions)
        ensures
            actions == (CredentialActions { clear_grant: true, ..no_actions() }),
            final(self).deep_view() == removed_credentials(old(self).deep_view()),
            final(latest).deep_view() == without_password(old(latest).deep_view()),
    {
        self.credential_explicitly_removed = true;
        self.credential_stale = false;
        self.credential_state = CredentialState::NotConfigured;
        Self::clear_password(latest);
        CredentialActions { clear_grant: true, record_grant: false, start_read: false }
    }

    /// Empties the password of a configuration.
    fn clear_password(latest: &mut Option<ValidatedConfig>)
        ensures
            final(latest).deep_view() == without_password(old(latest).deep_view()),
    {
        if let Some(mut config) = latest.take() {
            config.source.password = String::new();
            proof {
                assert(config.source.password@ =~= Seq::<char>::empty());
            }
            *latest = Some(config);
        }
    }

    /// A person asked for the password to be read. A second request while one
    /// is waiting does nothing.
    pub fn request_credential_refresh(&mut self) -> (actions: CredentialActions)
        ensures
            actions == (CredentialActions {
                start_read: old(self).deep_view().refresh is None,
                ..no_actions()
            }),
            final(self).deep_view() == (if old(self).deep_view().refresh is None {
                CredentialView { explicitly_removed: false, ..old(self).deep_view() }
            } else {
                old(self).deep_view()
            }),
    {
        let mut actions = CredentialActions::none();
        if self.credential_refresh.is_none() {
            self.credential_explicitly_removed = false;
            actions.start_read = true;
        }
        actions
    }

    /// Takes in what the waiting read has to say, if one is waiting. Returns
    /// what is to be done and whether a password was applied.
    pub fn poll_credential_refresh(
        &mut self,
        now: u64,
        latest: &mut Option<ValidatedConfig>,
        message: WorkerMessage<KeychainRead>,
    ) -> (polled: (CredentialActions, bool))
        ensures
            old(self).deep_view().refresh is None ==> {
                &&& *final(self) == *old(self)
                &&& *final(latest) == *old(latest)
                &&& polled == (no_actions(), false)
            },
            old(self).deep_view().refresh is Some ==> ({
                let before = old(self).deep_view();
                let account = before.refresh->0.account;
                let config = old(latest).deep_view();
                match message {
                    WorkerMessage::Ready(read) => {
                        let seen = read.deep_view();
                        &&& final(self).deep_view() == read_credentials(
                            landed(before),
                            account,
                            config,
                            seen,
                        )
                        &&& final(latest).deep_view() == read_config(before, account, config, seen)
                        &&& polled.0 == read_actions(before, account, config, seen)
                        &&& polled.1 == (read_counts(before, account, config) && seen is Found)
                    },
                    WorkerMessage::Disconnected => {
                        &&& final(self).deep_view() == landed(before)
                        &&& *final(latest) == *old(latest)
                        &&& polled == (no_actions(), false)
                    },
                    WorkerMessage::Empty => {
                        &&& final(self).deep_view() == (CredentialView {
                            overdue_logged: before.overdue_logged || refresh_overdue(before, now),
                            ..before
                        })
                        &&& *final(latest) == *old(latest)
                        &&& polled == (no_actions(), false)
                    },
                }
            }),
    {
        if self.credential_refresh.is_none() {
            return (CredentialActions::none(), false);
        }
        match message {
            WorkerMessage::Ready(read) => {
                let waiting = self.credential_refresh.take();
                self.credential_refresh_overdue_logged = false;
                match waiting {
                    Some(refresh) => self.apply_credential_read(
                        read,
                        refresh.account.as_str(),
                        latest,
                    ),
                    None => (CredentialActions::none(), false),
                }
            },
            WorkerMessage::Disconnected => {
                self.credential_refresh = None;
                self.credential_refresh_overdue_logged = false;
                (CredentialActions::none(), false)
            },
            WorkerMessage::Empty => {
                let overdue = match &self.credential_refresh {
                    Some(refresh) => now > refresh.dispatched && now - refresh.dispatched
                        > CREDENTIAL_REFRESH_OVERDUE,
                    None => false,
                };
                if overdue {
                    self.credential_refresh_overdue_logged = true;
                }
                (CredentialActions::none(), false)
            },
        }
    }

    /// Applies the result of a read for an account.
    fn apply_credential_read(
        &mut self,
        read: KeychainRead,
        account: &str,
        latest: &mut Option<ValidatedConfig>,
    ) -> (applied: (CredentialActions, bool))
        ensures
            ({
                let before = old(self).deep_view();
                let config = old(latest).deep_view();
                let seen = read.deep_view();
                &&& final(self).deep_view() == read_credentials(before, account@, config, seen)
                &&& final(latest).deep_view() == read_config(before, account@, config, seen)
                &&& applied.0 == read_actions(before, account@, config, seen)
                &&& applied.1 == (read_counts(before, account@, config) && seen is Found)
            }),
    {
        let current = match &*latest {
            Some(config) => same_text(config.effective_username.as_str(), account),
            None => false,
        };
        let mut actions = CredentialActions::none();
        if self.credential_explicitly_removed || !current {
            return (actions, false);
        }
        match read {
            KeychainRead::Found(password) => {
                self.credential_state = CredentialState::Available;
                self.credential_stale = false;
                self.automatic_read_attempted.remove(account);
                actions.record_grant = true;
                if let Some(mut config) = latest.take() {
                    config.source.password = password;
                    *latest = Some(config);
                }
                (actions, true)
            },
            KeychainRead::NotConfigured => {
                self.credential_state = CredentialState::NotConfigured;
                self.credential_stale = false;
                actions.clear_grant = true;
                Self::clear_password(latest);
                (actions, false)
            },
            KeychainRead::AccessPending => {
                self.credential_state = CredentialState::AccessPending;
                actions.clear_grant = true;
                (actions, false)
            },
            KeychainRead::Failed(_) => {
                self.credential_state = CredentialState::AccessPending;
                (actions, false)
            },
        }
    }
}

/// Once the item was removed, a read that was already waiting changes
/// nothing: neither the password nor the state comes back.
pub proof fn removal_bars_earlier_reads(
    credentials: CredentialView,
    account: Seq<char>,
    latest: Option<ValidatedConfigView>,
    read: KeychainReadView,
)
    ensures
        ({
            let removed = removed_credentials(credentials);
            &&& read_credentials(removed, account, latest, read) == removed
            &&& read_config(removed, account, latest, read) == latest
            &&& read_actions(removed, account, latest, read) == no_actions()
        }),
{
}

/// A routine merge never asks for a read without evidence: the marker covers
/// this build or was recorded under its signing team. And it never asks while
/// another read is waiting or a change awaits a request.
pub proof fn routine_reads_need_evidence(
    credentials: CredentialView,
    config: ValidatedConfigView,
    previous: Option<ValidatedConfigView>,
    facts: CredentialFacts,
)
    requires
        merge_actions(credentials, config, previous, facts).start_read,
    ensures
        facts.covered || facts.team_matches,
        credentials.refresh is None,
        !credentials.stale,
{
}

/// On the evidence of the signing team alone, an account is read at most once
/// until a read succeeds.
pub proof fn team_evidence_reads_once(
    credentials: CredentialView,
    config: ValidatedConfigView,
    previous: Option<ValidatedConfigView>,
    facts: CredentialFacts,
)
    requires
        !facts.covered,
        merge_actions(credentials, config, previous, facts).start_read,
    ensures
        ({
            let after = merged_credentials(credentials, config, previous, facts);
            &&& !merge_actions(after, config, previous, facts).start_read
            &&& !change_actions(after, config.effective_username, true).start_read
        }),
{
}

/// A password decrypted for one account is never merged into the
/// configuration of another.
pub proof fn passwords_stay_with_their_account(
    config: ValidatedConfigView,
    previous: ValidatedConfigView,
    facts: CredentialFacts,
)
    requires
        previous.effective_username != config.effective_username,
        !(facts.probe is NotConfigured),
    ensures
        merged_config(config, Some(previous), facts) == config,
{
}

} // verus!
