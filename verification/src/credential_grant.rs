//! The marker that proves a keychain decrypt once succeeded. It names an
//! account, a bundle version and a signing team, and holds no secret.

#[allow(unused_imports)]
use vstd::prelude::*;
use crate::failure::{Failure, FailureKind};
#[allow(unused_imports)]
use crate::failure::FailureView;
use crate::paths::{join_path, AppPaths};
#[allow(unused_imports)]
use crate::paths::joined;
#[allow(unused_imports)]
use crate::private_file::{private_file, Place, StoredFile};
use crate::text::{decode_text, join, same_text, trimmed_lines};
#[allow(unused_imports)]
use crate::text::{lines_of, pieces_view, split, split_at_first, trimmed};

verus! {

pub const MARKER_FILE_NAME: &'static str = "credential-grant";

pub const MAX_MARKER_BYTES: u64 = 16 * 1024;

/// What a marker records.
#[derive(Debug, PartialEq, Eq)]
pub struct Grant {
    pub account: String,
    pub version: String,
    /// Empty for a build that has no signing team.
    pub team: String,
}

/// The mathematical content of a [`Grant`].
pub struct GrantView {
    pub account: Seq<char>,
    pub version: Seq<char>,
    pub team: Seq<char>,
}

impl DeepView for Grant {
    type V = GrantView;

    open spec fn deep_view(&self) -> GrantView {
        GrantView { account: self.account@, version: self.version@, team: self.team@ }
    }
}

/// The grant that a marker text records: exactly three lines, of which the
/// first two must not be blank. Any other text is no evidence.
pub open spec fn recorded_grant(text: Seq<char>) -> Option<GrantView> {
    let lines = lines_of(text);
    if lines.len() == 3 && trimmed(lines[0]).len() > 0 && trimmed(lines[1]).len() > 0 {
        Some(
            GrantView {
                account: trimmed(lines[0]),
                version: trimmed(lines[1]),
                team: trimmed(lines[2]),
            },
        )
    } else {
        None
    }
}

/// The text of a marker.
pub open spec fn marker_text(grant: GrantView) -> Seq<char> {
    grant.account.push('\n') + (grant.version.push('\n') + grant.team.push('\n'))
}

/// The grant that the bytes of a marker file record.
pub open spec fn loaded_grant(file: Result<Vec<u8>, Failure>) -> Option<GrantView> {
    match file {
        Ok(bytes) => if vstd::utf8::valid_utf8(bytes@) {
            recorded_grant(vstd::utf8::decode_utf8(bytes@))
        } else {
            None
        },
        Err(_) => None,
    }
}

/// A field can be recorded and read back: it has no line break and no white
/// space at its ends.
pub open spec fn recordable(field: Seq<char>) -> bool {
    !field.contains('\n') && trimmed(field) == field
}

/// Where a marker is written before it takes its place, and what it holds.
#[derive(Debug, PartialEq, Eq)]
pub struct MarkerWrite {
    pub path: String,
    pub staging: String,
    pub contents: String,
}

/// The marker of one installation.
#[derive(Debug, PartialEq, Eq)]
pub struct CredentialGrant {
    pub path: String,
}

impl CredentialGrant {
    pub fn new(paths: &AppPaths) -> (grant: CredentialGrant)
        ensures
            grant.path@ == joined(paths.support_dir@, MARKER_FILE_NAME@),
    {
        CredentialGrant { path: join_path(paths.support_dir.as_str(), MARKER_FILE_NAME) }
    }

    /// The grant recorded in a marker file, given what reading it as a
    /// private file gave. Whatever cannot be read is no evidence.
    pub fn load(file: Result<Vec<u8>, Failure>) -> (grant: Option<Grant>)
        ensures
            grant.deep_view() == loaded_grant(file),
    {
        let bytes = match file {
            Ok(bytes) => bytes,
            Err(_) => return None,
        };
        let text = match decode_text(bytes) {
            Some(text) => text,
            None => return None,
        };
        let lines = trimmed_lines(text.as_str());
        let ghost views = pieces_view(lines@);
        let ghost recorded = lines_of(text@);
        assert(views.len() == recorded.len());
        if lines.len() != 3 {
            return None;
        }
        proof {
            assert(views[0] == lines@[0]@ && views[0] == trimmed(recorded[0]));
            assert(views[1] == lines@[1]@ && views[1] == trimmed(recorded[1]));
            assert(views[2] == lines@[2]@ && views[2] == trimmed(recorded[2]));
        }
        if lines[0].as_str().is_empty() || lines[1].as_str().is_empty() {
            return None;
        }
        Some(
            Grant {
                account: lines[0].clone(),
                version: lines[1].clone(),
                team: lines[2].clone(),
            },
        )
    }

    /// Whether the evidence is for this account and exactly this build.
    pub fn covers(grant: &Option<Grant>, account: &str, bundle_version: &str) -> (covered: bool)
        ensures
            covered == (grant matches Some(recorded) && recorded.account@ == account@
                && recorded.version@ == bundle_version@),
    {
        match grant {
            Some(recorded) => same_text(recorded.account.as_str(), account) && same_text(
                recorded.version.as_str(),
                bundle_version,
            ),
            None => false,
        }
    }

    /// The signing team recorded for this account. A grant recorded by a
    /// build without a team is no team evidence.
    pub fn team_evidence(grant: &Option<Grant>, account: &str) -> (team: Option<String>)
        ensures
            team.deep_view() == (match grant.deep_view() {
                Some(recorded) => if recorded.account == account@ && recorded.team.len() > 0 {
                    Some(recorded.team)
                } else {
                    None
                },
                None => None,
            }),
    {
        match grant {
            Some(recorded) => {
                if same_text(recorded.account.as_str(), account)
                    && !recorded.team.as_str().is_empty() {
                    Some(recorded.team.clone())
                } else {
                    None
                }
            },
            None => None,
        }
    }

    /// What to write so that the marker records a decrypt.
    pub fn record(&self, account: &str, bundle_version: &str, team: &str) -> (write: MarkerWrite)
        ensures
            write.path@ == self.path@,
            write.staging@ == self.path@ + ".tmp"@,
            write.contents@ == marker_text(
                GrantView { account: account@, version: bundle_version@, team: team@ },
            ),
    {
        let mut contents = account.to_owned();
        contents.push('\n');
        let mut rest = bundle_version.to_owned();
        rest.push('\n');
        let mut last = team.to_owned();
        last.push('\n');
        let tail = join(rest.as_str(), last.as_str());
        MarkerWrite {
            path: self.path.clone(),
            staging: join(self.path.as_str(), ".tmp"),
            contents: join(contents.as_str(), tail.as_str()),
        }
    }

    /// Whether the marker is to be removed for this account. A marker
    /// recorded for another account stays.
    pub fn clear_for(grant: &Option<Grant>, account: &str) -> (remove: bool)
        ensures
            remove == (grant matches Some(recorded) && recorded.account@ == account@),
    {
        match grant {
            Some(recorded) => same_text(recorded.account.as_str(), account),
            None => false,
        }
    }
}

/// The steps of writing a marker, in order.
#[derive(Clone, Copy, Debug, PartialEq, Eq, Structural)]
pub enum MarkerWriteStage {
    /// Remove what an interrupted write left behind.
    RemoveStaging,
    CreateStaging,
    WriteStaging,
    SyncStaging,
    Rename,
}

/// What writing a marker does next.
#[derive(Debug, PartialEq, Eq)]
pub enum MarkerWriteProgress {
    Perform(MarkerWriteStage),
    Finished { outcome: Result<(), Failure>, remove_staging: bool },
}

impl MarkerWriteStage {
    /// The step after this one, if any.
    pub open spec fn following(self) -> Option<MarkerWriteStage> {
        match self {
            MarkerWriteStage::RemoveStaging => Some(MarkerWriteStage::CreateStaging),
            MarkerWriteStage::CreateStaging => Some(MarkerWriteStage::WriteStaging),
            MarkerWriteStage::WriteStaging => Some(MarkerWriteStage::SyncStaging),
            MarkerWriteStage::SyncStaging => Some(MarkerWriteStage::Rename),
            MarkerWriteStage::Rename => None,
        }
    }

    /// This write created the staging file before this step.
    pub open spec fn after_creation(self) -> bool {
        self is WriteStaging || self is SyncStaging || self is Rename
    }

    /// A failure of this step ends the write. That there was nothing to remove
    /// does not.
    pub open spec fn stopped_by(self, error: FailureKind) -> bool {
        !(self is RemoveStaging && error is NotFound)
    }
}

/// Advances the write of a marker by the result of one step.
pub fn write_marker(stage: MarkerWriteStage, result: Result<(), Failure>) -> (progress:
    MarkerWriteProgress)
    ensures
        match result {
            Err(error) if stage.stopped_by(error.kind) => progress
                == (MarkerWriteProgress::Finished {
                outcome: Err(error),
                remove_staging: stage.after_creation(),
            }),
            _ => match stage.following() {
                Some(next) => progress == MarkerWriteProgress::Perform(next),
                None => progress == (MarkerWriteProgress::Finished {
                    outcome: Ok(()),
                    remove_staging: false,
                }),
            },
        },
{
    let nothing_there = match (&result, stage) {
        (Err(error), MarkerWriteStage::RemoveStaging) => error.kind == FailureKind::NotFound,
        _ => false,
    };
    match result {
        Err(error) if !nothing_there => {
            let remove_staging = match stage {
                MarkerWriteStage::WriteStaging
                | MarkerWriteStage::SyncStaging
                | MarkerWriteStage::Rename => true,
                _ => false,
            };
            MarkerWriteProgress::Finished { outcome: Err(error), remove_staging }
        },
        _ => match stage {
            MarkerWriteStage::RemoveStaging => MarkerWriteProgress::Perform(
                MarkerWriteStage::CreateStaging,
            ),
            MarkerWriteStage::CreateStaging => MarkerWriteProgress::Perform(
                MarkerWriteStage::WriteStaging,
            ),
            MarkerWriteStage::WriteStaging => MarkerWriteProgress::Perform(
                MarkerWriteStage::SyncStaging,
            ),
            MarkerWriteStage::SyncStaging => MarkerWriteProgress::Perform(
                MarkerWriteStage::Rename,
            ),
            MarkerWriteStage::Rename => MarkerWriteProgress::Finished {
                outcome: Ok(()),
                remove_staging: false,
            },
        },
    }
}

/// How many steps follow.
pub open spec fn marker_stages_left(stage: MarkerWriteStage) -> nat {
    match stage {
        MarkerWriteStage::RemoveStaging => 4,
        MarkerWriteStage::CreateStaging => 3,
        MarkerWriteStage::WriteStaging => 2,
        MarkerWriteStage::SyncStaging => 1,
        MarkerWriteStage::Rename => 0,
    }
}

/// What a step that does not end the write does to the place of the marker:
/// afterwards nothing is left of an earlier write, or the staging file is
/// there, for its owner only, or it has moved into place.
pub open spec fn marker_step_done(place: Place, stage: MarkerWriteStage, bytes: Seq<u8>) -> Place {
    match stage {
        MarkerWriteStage::RemoveStaging => Place { temporary: false, ..place },
        MarkerWriteStage::CreateStaging => Place { temporary: true, ..place },
        MarkerWriteStage::Rename => Place { file: Some(private_file(bytes)), temporary: false },
        _ => place,
    }
}

/// A write whose steps end with `results`, from `stage` on: what it leaves in
/// place, and how it ends.
pub open spec fn marker_written(
    place: Place,
    bytes: Seq<u8>,
    stage: MarkerWriteStage,
    results: spec_fn(MarkerWriteStage) -> Result<(), FailureView>,
) -> (Place, Result<(), FailureView>)
    decreases marker_stages_left(stage),
{
    match results(stage) {
        Err(error) if stage.stopped_by(error.kind) => (
            Place { temporary: place.temporary && !stage.after_creation(), ..place },
            Err(error),
        ),
        _ => {
            let done = marker_step_done(place, stage, bytes);
            match stage.following() {
                Some(next) => marker_written(done, bytes, next, results),
                None => (done, Ok(())),
            }
        },
    }
}

/// A write that fails leaves the marker as it was, so that whatever it proved
/// before it still proves, and nothing else. One that ends well puts the new
/// marker in place, for its owner only. A staging file stays behind only where
/// one was there before and could not be removed.
pub proof fn failed_records_keep_the_marker(
    place: Place,
    bytes: Seq<u8>,
    results: spec_fn(MarkerWriteStage) -> Result<(), FailureView>,
    read: spec_fn(Option<StoredFile>) -> Result<Vec<u8>, Failure>,
)
    ensures
        ({
            let (after, outcome) = marker_written(
                place,
                bytes,
                MarkerWriteStage::RemoveStaging,
                results,
            );
            &&& outcome is Err ==> after.file == place.file && loaded_grant(read(after.file))
                == loaded_grant(read(place.file))
            &&& outcome is Ok ==> after.file == Some(private_file(bytes))
            &&& after.temporary ==> place.temporary && results(MarkerWriteStage::RemoveStaging)
                is Err && outcome == results(MarkerWriteStage::RemoveStaging)
        }),
{
    reveal_with_fuel(marker_written, 6);
}

/// Whether the recorded signing team is that of the running build. Both must
/// be known.
pub fn team_evidence_matches(recorded: &Option<String>, own: &Option<String>) -> (matches: bool)
    ensures
        matches == (recorded is Some && own is Some && recorded->0@ == own->0@),
{
    match (recorded, own) {
        (Some(theirs), Some(ours)) => same_text(theirs.as_str(), ours.as_str()),
        _ => false,
    }
}

/// What was recorded is what is read back, for an account and a version that
/// are not empty and fields that fit on a line of their own.
pub proof fn recorded_grants_read_back(grant: GrantView)
    requires
        recordable(grant.account),
        recordable(grant.version),
        recordable(grant.team),
        grant.account.len() > 0,
        grant.version.len() > 0,
    ensures
        recorded_grant(marker_text(grant)) == Some(grant),
{
    let rest = grant.version.push('\n') + grant.team.push('\n');
    let nothing = Seq::<char>::empty();
    split_at_first(grant.account, rest, '\n');
    split_at_first(grant.version, grant.team.push('\n'), '\n');
    split_at_first(grant.team, nothing, '\n');
    assert(grant.team.push('\n') + nothing =~= grant.team.push('\n'));
    let pieces = split(marker_text(grant), '\n');
    assert(split(nothing, '\n') =~= seq![nothing]);
    assert(pieces =~= seq![grant.account, grant.version, grant.team, nothing]);
    assert(lines_of(marker_text(grant)) =~= seq![grant.account, grant.version, grant.team]);
}

} // verus!
