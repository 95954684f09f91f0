//! A verified core for supervising one OpenCode server process.

#[allow(unused_imports)]
use vstd::prelude::*;

pub mod address;
pub mod agent;
pub mod agent_loop;
pub mod config;
pub mod config_fingerprint;
pub mod control;
pub mod credential_grant;
pub mod failure;
pub mod fixture;
pub mod health;
pub mod ipc;
pub mod keychain;
pub mod paths;
pub mod platform;
pub mod private_file;
pub mod process;
pub mod process_cleanup;
pub mod process_group;
pub mod process_start;
pub mod protocol;
mod random;
pub mod runtime_state;
pub mod supervisor;
pub mod test_events;
pub mod text;
pub mod version_cleanup;

verus! {

pub const PRODUCT_NAME: &'static str = "OpenCodeServer";

pub const VERSION: &'static str = "0.1.0";

/// The bundle version of a standalone build.
pub const BUNDLE_VERSION: &'static str = "development";

/// The bundle version of a build, given what was set when it was built. A blank
/// text counts as nothing.
pub open spec fn built_version(set: Option<Seq<char>>) -> Seq<char> {
    match set {
        Some(version) => if text::trimmed(version).len() > 0 {
            text::trimmed(version)
        } else {
            BUNDLE_VERSION@
        },
        None => BUNDLE_VERSION@,
    }
}

/// Decides the bundle version of a build.
pub fn bundle_version(set: Option<&str>) -> (version: String)
    ensures
        version@ == built_version(
            match set {
                Some(text) => Some(text@),
                None => None,
            },
        ),
{
    if let Some(text) = set {
        let version = text::trim_text(text);
        if !version.as_str().is_empty() {
            return version;
        }
    }
    BUNDLE_VERSION.to_owned()
}

/// A build has the version that was set for it, without white space around it;
/// where nothing but white space was set, or nothing at all, it is a standalone
/// one.
pub proof fn builds_have_the_version_that_was_set(set: Seq<char>)
    ensures
        built_version(None) == "development"@,
        text::trimmed(set).len() == 0 ==> built_version(Some(set)) == "development"@,
        text::trimmed(set).len() > 0 ==> built_version(Some(set)) == text::trimmed(set),
{
}

} // verus!
