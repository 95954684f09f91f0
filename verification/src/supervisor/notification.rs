//! What a person is notified of, and under which identifier.

#[allow(unused_imports)]
use vstd::prelude::*;
use crate::config_fingerprint::encode_hex;
#[allow(unused_imports)]
use crate::config_fingerprint::{hex_text, nibble_char};
use crate::protocol::{NotificationEvent, NotificationKind};
#[allow(unused_imports)]
use crate::protocol::NotificationView;
use crate::random::random_bytes;
#[allow(unused_imports)]
use crate::runtime_state::RuntimeStateView;
use crate::text::{chars_of, text_of};
#[allow(unused_imports)]
use super::runtime_durability::persisting;
use super::{Effect, Notice, SaveThen, Supervisor, Task};
#[allow(unused_imports)]
use super::{go_on, Next, SupervisorView};

verus! {

/// How many random bytes make an identifier.
pub const EVENT_ID_BYTES: usize = 16;

/// Random bytes marked as a random identifier: the version is 4, the variant
/// the standard one.
pub open spec fn stamped(bytes: Seq<u8>) -> Seq<u8> {
    bytes.update(6, (bytes[6] % 16 + 64) as u8).update(8, (bytes[8] % 64 + 128) as u8)
}

/// The digits of an identifier, in its five groups.
pub open spec fn grouped(digits: Seq<char>) -> Seq<char> {
    digits.subrange(0, 8).push('-') + digits.subrange(8, 12).push('-') + digits.subrange(
        12,
        16,
    ).push('-') + digits.subrange(16, 20).push('-') + digits.subrange(20, 32)
}

/// The identifier made of some random bytes.
pub open spec fn event_id_text(bytes: Seq<u8>) -> Seq<char> {
    grouped(hex_text(stamped(bytes)))
}

/// Every byte gives two digits, in order.
proof fn hex_digits(bytes: Seq<u8>, at: int)
    ensures
        hex_text(bytes).len() == 2 * bytes.len(),
        0 <= at < bytes.len() ==> hex_text(bytes)[2 * at] == nibble_char((bytes[at] / 16) as u8)
            && hex_text(bytes)[2 * at + 1] == nibble_char((bytes[at] % 16) as u8),
    decreases bytes.len(),
{
    if bytes.len() > 0 {
        hex_digits(bytes.drop_last(), at);
    }
}

/// A hexadecimal digit.
pub open spec fn is_hex_digit(c: char) -> bool {
    '0' <= c <= '9' || 'a' <= c <= 'f'
}

/// An identifier has 36 characters: hyphens at the four fixed places, the
/// version digit 4, one of four variant digits, and otherwise hexadecimal
/// digits.
pub proof fn event_ids_have_the_standard_shape(bytes: Seq<u8>, at: int)
    requires
        bytes.len() == EVENT_ID_BYTES,
        0 <= at < 36,
    ensures
        ({
            let id = event_id_text(bytes);
            &&& id.len() == 36
            &&& id[8] == '-' && id[13] == '-' && id[18] == '-' && id[23] == '-'
            &&& id[14] == '4'
            &&& id[19] == '8' || id[19] == '9' || id[19] == 'a' || id[19] == 'b'
            &&& at == 8 || at == 13 || at == 18 || at == 23 || is_hex_digit(id[at])
        }),
{
    let marked = stamped(bytes);
    let digits = hex_text(marked);
    let id = event_id_text(bytes);
    hex_digits(marked, 6);
    hex_digits(marked, 8);
    let source = if at < 8 {
        at
    } else if at < 13 {
        at - 1
    } else if at < 18 {
        at - 2
    } else if at < 23 {
        at - 3
    } else {
        at - 4
    };
    hex_digits(marked, source / 2);
    assert(id[14] == digits[12]);
    assert(id[19] == digits[16]);
    if at != 8 && at != 13 && at != 18 && at != 23 {
        assert(id[at] == digits[source]);
        assert(source == 2 * (source / 2) || source == 2 * (source / 2) + 1);
    }
}

/// Formats random bytes as an identifier.
pub fn format_event_id(bytes: &Vec<u8>) -> (id: String)
    requires
        bytes@.len() == EVENT_ID_BYTES,
    ensures
        id@ == event_id_text(bytes@),
{
    let mut marked: Vec<u8> = Vec::new();
    let mut index: usize = 0;
    while index < bytes.len()
        invariant
            index <= bytes@.len(),
            marked@ == bytes@.take(index as int),
        decreases bytes@.len() - index,
    {
        marked.push(bytes[index]);
        proof {
            assert(bytes@.take(index as int + 1) =~= bytes@.take(index as int).push(
                bytes@[index as int],
            ));
        }
        index = index + 1;
    }
    proof {
        assert(bytes@.take(index as int) =~= bytes@);
    }
    marked.set(6, bytes[6] % 16 + 64);
    marked.set(8, bytes[8] % 64 + 128);
    let digits = chars_of(encode_hex(marked.as_slice()).as_str());
    proof {
        assert(marked@ =~= stamped(bytes@));
        hex_digits(marked@, 0);
    }
    let mut id = text_of(&digits, 0, 8);
    id.push('-');
    let group = text_of(&digits, 8, 12);
    id = crate::text::join(id.as_str(), group.as_str());
    id.push('-');
    let group = text_of(&digits, 12, 16);
    id = crate::text::join(id.as_str(), group.as_str());
    id.push('-');
    let group = text_of(&digits, 16, 20);
    id = crate::text::join(id.as_str(), group.as_str());
    id.push('-');
    let group = text_of(&digits, 20, 32);
    id = crate::text::join(id.as_str(), group.as_str());
    proof {
        assert(id@ =~= event_id_text(bytes@));
    }
    id
}

/// Draws a fresh identifier. It has the standard shape; its digits are
/// random.
pub fn new_notification_event_id() -> (outcome: Result<String, String>)
    ensures
        outcome matches Ok(id) ==> exists|bytes: Seq<u8>|
            bytes.len() == EVENT_ID_BYTES && id@ == #[trigger] event_id_text(bytes),
{
    match random_bytes(EVENT_ID_BYTES) {
        Ok(bytes) => Ok(format_event_id(&bytes)),
        Err(error) => Err(error),
    }
}

impl Notice {
    /// What sort of notification it is.
    pub open spec fn kind_of(self) -> NotificationKind {
        match self {
            Notice::UnexpectedStop => NotificationKind::Failure,
            Notice::RecoveryExhausted => NotificationKind::FinalFailure,
            Notice::Recovered => NotificationKind::Recovered,
            Notice::HealthRecovered => NotificationKind::Recovered,
            Notice::Unhealthy => NotificationKind::Failure,
            Notice::Unauthorized => NotificationKind::Failure,
        }
    }

    /// Its title.
    pub open spec fn title_of(self) -> Seq<char> {
        match self {
            Notice::UnexpectedStop => "OpenCode stopped unexpectedly"@,
            Notice::RecoveryExhausted => "OpenCode recovery stopped"@,
            Notice::Recovered => "OpenCode recovered"@,
            Notice::HealthRecovered => "OpenCode health recovered"@,
            Notice::Unhealthy => "OpenCode is not healthy"@,
            Notice::Unauthorized => "OpenCode is not healthy"@,
        }
    }

    /// Its text.
    pub open spec fn message_of(self) -> Seq<char> {
        match self {
            Notice::UnexpectedStop => "OpenCodeServer is attempting bounded automatic recovery."@,
            Notice::RecoveryExhausted =>
                "Five recovery attempts were exhausted. Review the configuration and logs."@,
            Notice::Recovered => "OpenCode is healthy again."@,
            Notice::HealthRecovered => "The health endpoint is responding normally again."@,
            Notice::Unhealthy =>
                "The process is still running; OpenCodeServer will not restart it solely because a health check failed."@,
            Notice::Unauthorized =>
                "The stored password was rejected (HTTP 401). Re-save the password in Settings and restart OpenCode; the process was left running."@,
        }
    }

    /// The event under an identifier.
    pub fn event(self, event_id: String) -> (event: NotificationEvent)
        ensures
            event.deep_view() == noticed(self, event_id@),
    {
        let (kind, title, message) = match self {
            Notice::UnexpectedStop => (
                NotificationKind::Failure,
                "OpenCode stopped unexpectedly",
                "OpenCodeServer is attempting bounded automatic recovery.",
            ),
            Notice::RecoveryExhausted => (
                NotificationKind::FinalFailure,
                "OpenCode recovery stopped",
                "Five recovery attempts were exhausted. Review the configuration and logs.",
            ),
            Notice::Recovered => (
                NotificationKind::Recovered,
                "OpenCode recovered",
                "OpenCode is healthy again.",
            ),
            Notice::HealthRecovered => (
                NotificationKind::Recovered,
                "OpenCode health recovered",
                "The health endpoint is responding normally again.",
            ),
            Notice::Unhealthy => (
                NotificationKind::Failure,
                "OpenCode is not healthy",
                "The process is still running; OpenCodeServer will not restart it solely because a health check failed.",
            ),
            Notice::Unauthorized => (
                NotificationKind::Failure,
                "OpenCode is not healthy",
                "The stored password was rejected (HTTP 401). Re-save the password in Settings and restart OpenCode; the process was left running.",
            ),
        };
        NotificationEvent {
            event_id,
            kind,
            title: title.to_owned(),
            message: message.to_owned(),
        }
    }
}

/// The event of a notice under an identifier.
pub open spec fn noticed(notice: Notice, event_id: Seq<char>) -> NotificationView {
    NotificationView {
        event_id,
        kind: notice.kind_of(),
        title: notice.title_of(),
        message: notice.message_of(),
    }
}

/// Draws an identifier for a notice.
pub open spec fn notifying(s: SupervisorView, notice: Notice) -> Next {
    Next { state: s.with_task(Task::NoticeIdentified(notice)), effect: Effect::NewEventId }
}

/// Shows and records a notice, where an identifier could be drawn.
pub open spec fn notified(s: SupervisorView, notice: Notice, event_id: Option<Seq<char>>) -> Next {
    match event_id {
        Some(id) => persisting(
            SupervisorView {
                runtime: RuntimeStateView {
                    notification: Some(noticed(notice, id)),
                    ..s.runtime
                },
                ..s
            },
            true,
            SaveThen::Nothing,
        ),
        None => go_on(s),
    }
}

impl Supervisor {
    /// Draws an identifier for a notice.
    pub(super) fn emit_notification(&mut self, notice: Notice) -> (effect: Effect)
        ensures
            (Next { state: final(self).model(), effect }) == notifying(old(self).model(), notice),
    {
        self.push(Task::NoticeIdentified(notice));
        Effect::NewEventId
    }

    /// Shows and records a notice.
    pub(super) fn notification_identified(&mut self, notice: Notice, event_id: Option<String>) -> (
        effect: Effect)
        ensures
            (Next { state: final(self).model(), effect }) == notified(
                old(self).model(),
                notice,
                event_id.deep_view(),
            ),
    {
        match event_id {
            Some(id) => {
                self.runtime.notification = Some(notice.event(id));
                self.persist_runtime(true, SaveThen::Nothing)
            },
            None => Effect::Continue,
        }
    }
}

/// An identifier shows the bytes that it was made of: the first four as its
/// first group and the last six as its last.
pub proof fn event_ids_show_their_bytes(bytes: Seq<u8>)
    requires
        bytes.len() == EVENT_ID_BYTES,
    ensures
        event_id_text(bytes).subrange(0, 8) == hex_text(bytes.take(4)),
        event_id_text(bytes).subrange(24, 36) == hex_text(bytes.skip(10)),
{
    let marked = stamped(bytes);
    let id = event_id_text(bytes);
    let digits = hex_text(marked);
    hex_digits(marked, 0);
    hex_digits(bytes.take(4), 0);
    hex_digits(bytes.skip(10), 0);
    assert forall|i: int| 0 <= i < 8 implies id.subrange(0, 8)[i] == hex_text(bytes.take(4))[i] by {
        hex_digits(marked, i / 2);
        hex_digits(bytes.take(4), i / 2);
        assert(i == 2 * (i / 2) || i == 2 * (i / 2) + 1);
        assert(id[i] == digits[i]);
    }
    assert(id.subrange(0, 8) =~= hex_text(bytes.take(4)));
    assert forall|i: int| 0 <= i < 12 implies id.subrange(24, 36)[i] == hex_text(bytes.skip(10))[i] by {
        hex_digits(marked, 10 + i / 2);
        hex_digits(bytes.skip(10), i / 2);
        assert(i == 2 * (i / 2) || i == 2 * (i / 2) + 1);
        assert(id[24 + i] == digits[20 + i]);
    }
    assert(id.subrange(24, 36) =~= hex_text(bytes.skip(10)));
}

} // verus!
