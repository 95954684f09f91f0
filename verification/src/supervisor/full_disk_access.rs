//! Whether Full Disk Access was granted, judged by opening protected files.

#[allow(unused_imports)]
use vstd::prelude::*;
use crate::protocol::FdaState;
use crate::text::{parse_number, split_text};
#[allow(unused_imports)]
use crate::text::{
    decimal_text, decimals_denote_their_number, denoted_number, pieces_view, split, split_at_first,
    written_numbers_are_read_back,
};

verus! {

/// The protected files, below the home directory.
pub const FDA_PROBE_TARGETS: [&'static str; 3] = [
    "Library/Safari/History.db",
    "Library/Mail/V10",
    "Library/Suggestions",
];

/// The only release for which the protected files are known.
pub const FDA_PROBE_OS_MAJOR_VERSION: u32 = 26;

/// What opening one of the protected files gave.
#[derive(Clone, Copy, Debug, PartialEq, Eq, Structural)]
pub enum TargetProbe {
    Missing,
    Opened,
    Denied,
    Failed,
}

/// Some file gave this.
pub open spec fn some_probe(probes: Seq<TargetProbe>, probe: TargetProbe) -> bool {
    exists|i: int| 0 <= i < probes.len() && #[trigger] probes[i] == probe
}

/// What the protected files say together: all that exist must agree, and
/// files of an unknown release say nothing.
pub open spec fn fda_state(version: Option<u32>, probes: Seq<TargetProbe>) -> FdaState {
    if version != Some(FDA_PROBE_OS_MAJOR_VERSION) || some_probe(probes, TargetProbe::Failed) {
        FdaState::UnableToDetermine
    } else {
        match (
            some_probe(probes, TargetProbe::Opened),
            some_probe(probes, TargetProbe::Denied),
        ) {
            (true, false) => FdaState::Verified,
            (false, true) => FdaState::NotVerified,
            _ => FdaState::UnableToDetermine,
        }
    }
}

/// Judges Full Disk Access from the release and the protected files.
pub fn fda_state_for_version(version: Option<u32>, probes: &Vec<TargetProbe>) -> (state: FdaState)
    ensures
        state == fda_state(version, probes@),
{
    let known = match version {
        Some(major) => major == FDA_PROBE_OS_MAJOR_VERSION,
        None => false,
    };
    let mut opened = false;
    let mut denied = false;
    let mut failed = false;
    let mut index: usize = 0;
    while index < probes.len()
        invariant
            index <= probes@.len(),
            opened == some_probe(probes@.take(index as int), TargetProbe::Opened),
            denied == some_probe(probes@.take(index as int), TargetProbe::Denied),
            failed == some_probe(probes@.take(index as int), TargetProbe::Failed),
        decreases probes@.len() - index,
    {
        let ghost seen = probes@.take(index as int);
        let ghost longer = probes@.take(index as int + 1);
        proof {
            assert(longer[index as int] == probes@[index as int]);
            assert forall|probe: TargetProbe| #[trigger]
                some_probe(longer, probe) == (some_probe(seen, probe) || probes@[index as int]
                    == probe) by {
                if some_probe(seen, probe) {
                    let i = choose|i: int| 0 <= i < seen.len() && #[trigger] seen[i] == probe;
                    assert(longer[i] == probe);
                }
                if some_probe(longer, probe) {
                    let i = choose|i: int| 0 <= i < longer.len() && #[trigger] longer[i] == probe;
                    if i < index {
                        assert(seen[i] == probe);
                    }
                }
            }
        }
        match probes[index] {
            TargetProbe::Missing => {},
            TargetProbe::Opened => {
                opened = true;
            },
            TargetProbe::Denied => {
                denied = true;
            },
            TargetProbe::Failed => {
                failed = true;
            },
        }
        index = index + 1;
    }
    proof {
        assert(probes@.take(index as int) =~= probes@);
    }
    if !known || failed {
        return FdaState::UnableToDetermine;
    }
    match (opened, denied) {
        (true, false) => FdaState::Verified,
        (false, true) => FdaState::NotVerified,
        _ => FdaState::UnableToDetermine,
    }
}

/// The number before the first dot of a release, where it is one.
pub open spec fn major_version(text: Seq<char>) -> Option<nat> {
    denoted_number(split(text, '.')[0], u32::MAX as nat)
}

/// Reads the number before the first dot of a release.
pub fn parse_product_major_version(text: &str) -> (major: Option<u32>)
    ensures
        match major {
            Some(number) => major_version(text@) == Some(number as nat),
            None => major_version(text@) is None,
        },
{
    let pieces = split_text(text, '.');
    proof {
        assert(pieces_view(pieces@)[0] == pieces@[0]@);
    }
    parse_number(pieces[0].as_str(), u32::MAX)
}

/// Full Disk Access is known only on the system release that the probe is made
/// for, and only where no look failed otherwise: it is there where a protected
/// file could be opened and none was denied, and not there in the opposite
/// case.
pub proof fn access_is_known_from_agreeing_looks(version: Option<u32>, probes: Seq<TargetProbe>)
    ensures
        ({
            let seen = |probe: TargetProbe|
                exists|i: int| 0 <= i < probes.len() && #[trigger] probes[i] == probe;
            let known = version == Some(26u32) && !seen(TargetProbe::Failed);
            &&& fda_state(version, probes) is Verified <==> known && seen(TargetProbe::Opened)
                && !seen(TargetProbe::Denied)
            &&& fda_state(version, probes) is NotVerified <==> known && seen(TargetProbe::Denied)
                && !seen(TargetProbe::Opened)
        }),
{
}

/// The major version is the number before the first dot.
pub proof fn major_versions_come_first(major: nat, rest: Seq<char>)
    requires
        major <= u32::MAX,
    ensures
        major_version(decimal_text(major).push('.') + rest) == Some(major),
        major_version(decimal_text(major)) == Some(major),
{
    let digits = decimal_text(major);
    decimals_denote_their_number(major);
    written_numbers_are_read_back(major, u32::MAX as nat);
    assert(!digits.contains('.')) by {
        if digits.contains('.') {
            let i = choose|i: int| 0 <= i < digits.len() && digits[i] == '.';
            assert('0' <= digits[i] <= '9');
        }
    }
    split_at_first(digits, rest, '.');
    assert((seq![digits] + split(rest, '.'))[0] == digits);
}

} // verus!
