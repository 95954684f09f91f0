//! What the login keychain says about the OpenCode password.

#[allow(unused_imports)]
use vstd::prelude::*;
use crate::text::{decode_text, join, signed_decimal};
#[allow(unused_imports)]
use crate::text::signed_decimal_text;

verus! {

/// The service under which the password is stored.
pub const KEYCHAIN_SERVICE: &'static str = "ai.opencode.server";

/// The call succeeded.
pub const STATUS_SUCCESS: i32 = 0;

/// There is no such item.
pub const STATUS_ITEM_NOT_FOUND: i32 = -25300;

/// Authorization failed.
pub const STATUS_AUTH_FAILED: i32 = -25293;

/// Reading needs interaction, which is not possible here.
pub const STATUS_INTERACTION_NOT_ALLOWED: i32 = -25308;

/// The prompt was cancelled, or access was denied by policy.
pub const STATUS_USER_CANCELED: i32 = -128;

/// The calling binary lacks an entitlement, which can follow an update.
pub const STATUS_MISSING_ENTITLEMENT: i32 = -34018;

/// What looking for the item without decrypting it found. Only
/// `NotConfigured` means that there is no password.
#[derive(Clone, Copy, Debug, PartialEq, Eq, Structural)]
pub enum KeychainProbe {
    Exists,
    NotConfigured,
    Failed(i32),
}

/// What a status code says about the item.
pub open spec fn probed_item(status: i32) -> KeychainProbe {
    if status == STATUS_SUCCESS {
        KeychainProbe::Exists
    } else if status == STATUS_ITEM_NOT_FOUND {
        KeychainProbe::NotConfigured
    } else {
        KeychainProbe::Failed(status)
    }
}

/// Interprets the status of an attribute-only query.
pub fn probe_item(status: i32) -> (probe: KeychainProbe)
    ensures
        probe == probed_item(status),
{
    if status == STATUS_SUCCESS {
        KeychainProbe::Exists
    } else if status == STATUS_ITEM_NOT_FOUND {
        KeychainProbe::NotConfigured
    } else {
        KeychainProbe::Failed(status)
    }
}

impl KeychainProbe {
    /// What a person is told.
    pub fn text(&self) -> (text: String)
        ensures
            text@ == (match *self {
                KeychainProbe::Exists => "item exists"@,
                KeychainProbe::NotConfigured => "not configured"@,
                KeychainProbe::Failed(code) => "keychain probe failed (OSStatus "@
                    + signed_decimal_text(code as int) + ")"@,
            }),
    {
        match self {
            KeychainProbe::Exists => "item exists".to_owned(),
            KeychainProbe::NotConfigured => "not configured".to_owned(),
            KeychainProbe::Failed(code) => {
                let start = join(
                    "keychain probe failed (OSStatus ",
                    signed_decimal(*code).as_str(),
                );
                join(start.as_str(), ")")
            },
        }
    }
}

/// What decrypting the item gave. `AccessPending` is a soft state: the item
/// may exist, and access can still be granted.
#[derive(PartialEq, Eq)]
pub enum KeychainRead {
    Found(String),
    NotConfigured,
    AccessPending,
    Failed(i32),
}

/// The mathematical content of a [`KeychainRead`].
pub enum KeychainReadView {
    Found(Seq<char>),
    NotConfigured,
    AccessPending,
    Failed(i32),
}

impl DeepView for KeychainRead {
    type V = KeychainReadView;

    open spec fn deep_view(&self) -> KeychainReadView {
        match self {
            KeychainRead::Found(password) => KeychainReadView::Found(password@),
            KeychainRead::NotConfigured => KeychainReadView::NotConfigured,
            KeychainRead::AccessPending => KeychainReadView::AccessPending,
            KeychainRead::Failed(code) => KeychainReadView::Failed(*code),
        }
    }
}

/// What a failed read means.
pub open spec fn failed_read(status: i32) -> KeychainReadView {
    if status == STATUS_ITEM_NOT_FOUND {
        KeychainReadView::NotConfigured
    } else if status == STATUS_INTERACTION_NOT_ALLOWED || status == STATUS_USER_CANCELED || status
        == STATUS_AUTH_FAILED || status == STATUS_MISSING_ENTITLEMENT {
        KeychainReadView::AccessPending
    } else {
        KeychainReadView::Failed(status)
    }
}

/// Interprets the status of a failed read.
pub fn classify(status: i32) -> (read: KeychainRead)
    ensures
        read.deep_view() == failed_read(status),
{
    if status == STATUS_ITEM_NOT_FOUND {
        KeychainRead::NotConfigured
    } else if status == STATUS_INTERACTION_NOT_ALLOWED || status == STATUS_USER_CANCELED || status
        == STATUS_AUTH_FAILED || status == STATUS_MISSING_ENTITLEMENT {
        KeychainRead::AccessPending
    } else {
        KeychainRead::Failed(status)
    }
}

/// Interprets a read: the stored bytes, or the status with which it failed.
/// Bytes that are not text were not stored by this product; they are unusable
/// but not missing.
pub fn read_password(outcome: Result<Vec<u8>, i32>) -> (read: KeychainRead)
    ensures
        read.deep_view() == (match outcome {
            Ok(bytes) => if vstd::utf8::valid_utf8(bytes@) {
                KeychainReadView::Found(vstd::utf8::decode_utf8(bytes@))
            } else {
                KeychainReadView::Failed(STATUS_AUTH_FAILED)
            },
            Err(status) => failed_read(status),
        }),
{
    match outcome {
        Ok(bytes) => match decode_text(bytes) {
            Some(password) => KeychainRead::Found(password),
            None => KeychainRead::Failed(STATUS_AUTH_FAILED),
        },
        Err(status) => classify(status),
    }
}

/// A password is reported missing only where the keychain says that there is
/// no such item, never because access was refused.
pub proof fn only_a_missing_item_is_not_configured(status: i32)
    ensures
        probed_item(status) is NotConfigured <==> status == STATUS_ITEM_NOT_FOUND,
        failed_read(status) is NotConfigured <==> status == STATUS_ITEM_NOT_FOUND,
{
}

/// How a read is shown for diagnosis.
pub open spec fn read_debug_text(read: KeychainReadView) -> Seq<char> {
    match read {
        KeychainReadView::Found(_) => "KeychainRead::Found(<redacted>)"@,
        KeychainReadView::NotConfigured => "KeychainRead::NotConfigured"@,
        KeychainReadView::AccessPending => "KeychainRead::AccessPending"@,
        KeychainReadView::Failed(code) => "KeychainRead::Failed("@ + signed_decimal_text(
            code as int,
        ) + ")"@,
    }
}

impl KeychainRead {
    /// How the read is shown for diagnosis: never with the password.
    pub fn debug_text(&self) -> (text: String)
        ensures
            text@ == read_debug_text(self.deep_view()),
    {
        match self {
            KeychainRead::Found(_) => "KeychainRead::Found(<redacted>)".to_owned(),
            KeychainRead::NotConfigured => "KeychainRead::NotConfigured".to_owned(),
            KeychainRead::AccessPending => "KeychainRead::AccessPending".to_owned(),
            KeychainRead::Failed(code) => {
                let start = join("KeychainRead::Failed(", signed_decimal(*code).as_str());
                join(start.as_str(), ")")
            },
        }
    }

    /// What a person is told.
    pub fn text(&self) -> (text: String)
        ensures
            text@ == (match self.deep_view() {
                KeychainReadView::Found(_) => "configured"@,
                KeychainReadView::NotConfigured => "not configured"@,
                KeychainReadView::AccessPending => "access pending authorization"@,
                KeychainReadView::Failed(code) => "keychain read failed (OSStatus "@
                    + signed_decimal_text(code as int) + ")"@,
            }),
    {
        match self {
            KeychainRead::Found(_) => "configured".to_owned(),
            KeychainRead::NotConfigured => "not configured".to_owned(),
            KeychainRead::AccessPending => "access pending authorization".to_owned(),
            KeychainRead::Failed(code) => {
                let start = join(
                    "keychain read failed (OSStatus ",
                    signed_decimal(*code).as_str(),
                );
                join(start.as_str(), ")")
            },
        }
    }
}

/// The diagnostic form of a read is the same whatever the password is.
pub proof fn read_debug_text_never_depends_on_the_password(first: Seq<char>, second: Seq<char>)
    ensures
        read_debug_text(KeychainReadView::Found(first)) == read_debug_text(
            KeychainReadView::Found(second),
        ),
{
}

/// What the code signature of a running binary reports.
pub struct CodeSignature {
    /// The status of asking for the running code.
    pub code_status: i32,
    /// The status of asking for its signing information.
    pub information_status: i32,
    /// The team identifier, where the information names one as a string.
    pub team: Option<String>,
}

/// The signing team of a binary. A binary that is unsigned, or signed ad hoc,
/// has none.
pub fn signing_team_identifier(signature: CodeSignature) -> (team: Option<String>)
    ensures
        team == (if signature.code_status == STATUS_SUCCESS && signature.information_status
            == STATUS_SUCCESS {
            signature.team
        } else {
            None
        }),
{
    if signature.code_status != STATUS_SUCCESS || signature.information_status != STATUS_SUCCESS {
        return None;
    }
    signature.team
}

/// An item that was found exists; a refusal, a cancellation, a missing
/// entitlement and a forbidden prompt leave the password pending; anything else
/// is a failure with its code.
pub proof fn statuses_are_told_apart(status: i32)
    ensures
        probed_item(status) is Exists <==> status == 0,
        probed_item(status) is NotConfigured <==> status == -25300,
        status != 0 && status != -25300 ==> probed_item(status) == KeychainProbe::Failed(status),
        failed_read(status) is AccessPending <==> status == -25308 || status == -128 || status
            == -25293 || status == -34018,
        failed_read(status) is NotConfigured <==> status == -25300,
        !(failed_read(status) is Found),
        failed_read(status) matches KeychainReadView::Failed(code) ==> code == status,
{
}

} // verus!
