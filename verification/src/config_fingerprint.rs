//! A keyed fingerprint of the configuration that a process was started with.
//! It tells whether the configuration still is the same without storing it.

#[allow(unused_imports)]
use vstd::prelude::*;
use vstd::string::StringExecFns;
use vstd::utf8::encode_utf8;
#[allow(unused_imports)]
use vstd::utf8::{encode_utf8_decode_utf8, is_ascii_chars, is_ascii_chars_encode_utf8};
use hmac::{Hmac, KeyInit, Mac};
use sha2::Sha256;
use crate::config::ValidatedConfig;
#[allow(unused_imports)]
use crate::config::ValidatedConfigView;
use crate::failure::{Failure, FailureKind};
#[allow(unused_imports)]
use crate::failure::{failure, fault_of, FailureView};
use crate::private_file::FileFacts;
#[allow(unused_imports)]
use crate::private_file::{describes, private_file, private_files_are_not_shared, StoredFile};
use crate::random::random_bytes;
use crate::text::{join, same_text};

verus! {

pub const FINGERPRINT_VERSION: u32 = 1;

pub const KEY_BYTES: usize = 32;

pub const TAG_BYTES: usize = 32;

/// A fingerprint with the version of the scheme that made it.
#[derive(PartialEq, Eq)]
pub struct ConfigFingerprint {
    pub version: u32,
    pub hmac_sha256: String,
}

/// The mathematical content of a [`ConfigFingerprint`].
pub struct ConfigFingerprintView {
    pub version: u32,
    pub hmac_sha256: Seq<char>,
}

impl DeepView for ConfigFingerprint {
    type V = ConfigFingerprintView;

    open spec fn deep_view(&self) -> ConfigFingerprintView {
        ConfigFingerprintView { version: self.version, hmac_sha256: self.hmac_sha256@ }
    }
}

impl Clone for ConfigFingerprint {
    fn clone(&self) -> (copy: Self)
        ensures
            copy == *self,
    {
        ConfigFingerprint { version: self.version, hmac_sha256: self.hmac_sha256.clone() }
    }
}

impl ConfigFingerprint {
    /// Whether both are the same fingerprint.
    pub fn same_as(&self, other: &ConfigFingerprint) -> (same: bool)
        ensures
            same == (self.deep_view() == other.deep_view()),
    {
        self.version == other.version && same_text(
            self.hmac_sha256.as_str(),
            other.hmac_sha256.as_str(),
        )
    }

    /// How the fingerprint is shown for diagnosis: without its tag.
    pub fn debug_text(&self) -> (text: String)
        ensures
            text@ == "ConfigFingerprint { version: "@ + crate::text::decimal_text(
                self.version as nat,
            ) + ", hmac_sha256: \"<redacted>\" }"@,
    {
        let mut text = join(
            "ConfigFingerprint { version: ",
            crate::text::decimal(self.version as u64).as_str(),
        );
        text.append(", hmac_sha256: \"<redacted>\" }");
        text
    }
}

/// The HMAC-SHA-256 tag of a message under a key.
pub uninterp spec fn hmac_sha256(key: Seq<u8>, message: Seq<u8>) -> Seq<u8>;

/// `Mac::finalize` of the `hmac` crate, over SHA-256, gives the 32-byte tag
/// that [`hmac_sha256`] names. A key of any length is accepted.
#[verifier::external_body]
fn mac_tag(key: &[u8], message: &[u8]) -> (tag: Vec<u8>)
    ensures
        tag@ == hmac_sha256(key@, message@),
        tag@.len() == TAG_BYTES,
{
    let mut mac = <Hmac<Sha256> as KeyInit>::new_from_slice(key).expect("any key length");
    mac.update(message);
    mac.finalize().into_bytes().to_vec()
}

/// `Mac::verify_slice` of the `hmac` crate accepts exactly the tag that
/// [`hmac_sha256`] names.
#[verifier::external_body]
fn mac_matches(key: &[u8], message: &[u8], tag: &[u8]) -> (matches: bool)
    ensures
        matches == (hmac_sha256(key@, message@) == tag@),
{
    let mut mac = <Hmac<Sha256> as KeyInit>::new_from_slice(key).expect("any key length");
    mac.update(message);
    mac.verify_slice(tag).is_ok()
}

/// `value` in `width` bytes, most significant first.
pub open spec fn be_bytes(value: nat, width: nat) -> Seq<u8>
    decreases width,
{
    if width == 0 {
        Seq::empty()
    } else {
        be_bytes(value / 256, (width - 1) as nat).push((value % 256) as u8)
    }
}

/// A field preceded by its length.
pub open spec fn framed(field: Seq<u8>) -> Seq<u8> {
    be_bytes(field.len(), 8) + field
}

/// Separates these tags from any other use of the key.
pub open spec fn domain() -> Seq<u8> {
    encode_utf8("OpenCodeServer.ConfigFingerprint.v1\0"@)
}

/// Everything that distinguishes one launch configuration from another.
pub open spec fn canonical(config: ValidatedConfigView) -> Seq<u8> {
    domain() + (be_bytes(config.source.schema_version as nat, 8) + (framed(
        encode_utf8(config.source.hostname),
    ) + (be_bytes(config.source.port as nat, 2) + (framed(encode_utf8(config.effective_username))
        + (framed(encode_utf8(config.source.password)) + (seq![
        if config.source.mdns { 1u8 } else { 0u8 },
    ] + framed(encode_utf8(config.configured_executable))))))))
}

/// The lower-case hexadecimal digit of a value below 16.
pub open spec fn nibble_char(value: u8) -> char {
    if value < 10 {
        (48 + value) as char
    } else {
        (87 + value) as char
    }
}

/// Two hexadecimal digits for every byte.
pub open spec fn hex_text(bytes: Seq<u8>) -> Seq<char>
    decreases bytes.len(),
{
    if bytes.len() == 0 {
        Seq::empty()
    } else {
        hex_text(bytes.drop_last()).push(nibble_char(bytes.last() / 16)).push(
            nibble_char(bytes.last() % 16),
        )
    }
}

/// The value of a hexadecimal digit of either case.
pub open spec fn nibble_value(digit: u8) -> Option<u8> {
    if 48 <= digit <= 57 {
        Some((digit - 48) as u8)
    } else if 97 <= digit <= 102 {
        Some((digit - 87) as u8)
    } else if 65 <= digit <= 70 {
        Some((digit - 55) as u8)
    } else {
        None
    }
}

/// The bytes that pairs of hexadecimal digits stand for.
pub open spec fn hex_bytes(digits: Seq<u8>) -> Option<Seq<u8>>
    decreases digits.len(),
{
    if digits.len() == 0 {
        Some(Seq::empty())
    } else if digits.len() == 1 {
        None
    } else {
        let high = nibble_value(digits[digits.len() - 2]);
        let low = nibble_value(digits[digits.len() - 1]);
        match (hex_bytes(digits.take(digits.len() - 2)), high, low) {
            (Some(before), Some(h), Some(l)) => Some(before.push((16 * h + l) as u8)),
            _ => None,
        }
    }
}

/// Decoding a text that must stand for exactly `length` bytes.
pub open spec fn decoded_hex(value: Seq<char>, length: nat) -> Option<Seq<u8>> {
    let digits = encode_utf8(value);
    if digits.len() != 2 * length {
        None
    } else {
        hex_bytes(digits)
    }
}

fn nibble_digit(value: u8) -> (digit: char)
    requires
        value < 16,
    ensures
        digit == nibble_char(value),
{
    if value < 10 {
        (48u8 + value) as char
    } else {
        (87u8 + value) as char
    }
}

/// Writes bytes in lower-case hexadecimal.
pub fn encode_hex(bytes: &[u8]) -> (text: String)
    ensures
        text@ == hex_text(bytes@),
{
    let mut text = String::new();
    let mut index: usize = 0;
    proof {
        assert(bytes@.take(0) =~= Seq::empty());
    }
    while index < bytes.len()
        invariant
            index <= bytes@.len(),
            text@ == hex_text(bytes@.take(index as int)),
        decreases bytes@.len() - index,
    {
        proof {
            assert(bytes@.take(index as int + 1).drop_last() =~= bytes@.take(index as int));
        }
        text.push(nibble_digit(bytes[index] / 16));
        text.push(nibble_digit(bytes[index] % 16));
        index = index + 1;
    }
    proof {
        assert(bytes@.take(index as int) =~= bytes@);
    }
    text
}

/// Reads one hexadecimal digit.
pub fn decode_nibble(value: u8) -> (nibble: Option<u8>)
    ensures
        nibble == nibble_value(value),
        nibble matches Some(n) ==> n < 16,
{
    if 48 <= value && value <= 57 {
        Some(value - 48)
    } else if 97 <= value && value <= 102 {
        Some(value - 87)
    } else if 65 <= value && value <= 70 {
        Some(value - 55)
    } else {
        None
    }
}

/// A text is undecodable once one of its pairs is.
proof fn bad_pair_spoils_all(digits: Seq<u8>, at: int)
    requires
        digits.len() % 2 == 0,
        0 <= at < digits.len(),
        at % 2 == 0,
        nibble_value(digits[at]) is None || nibble_value(digits[at + 1]) is None,
    ensures
        hex_bytes(digits) is None,
    decreases digits.len(),
{
    if at < digits.len() - 2 {
        let before = digits.take(digits.len() - 2);
        assert(before[at] == digits[at]);
        assert(before[at + 1] == digits[at + 1]);
        bad_pair_spoils_all(before, at);
    }
}

/// Reads a text of exactly `2 * length` hexadecimal digits.
pub fn decode_hex(value: &str, length: usize) -> (bytes: Option<Vec<u8>>)
    requires
        2 * length <= usize::MAX,
    ensures
        bytes.deep_view() == decoded_hex(value@, length as nat),
{
    let digits = value.as_bytes();
    if digits.len() != 2 * length {
        return None;
    }
    let mut bytes: Vec<u8> = Vec::new();
    let mut index: usize = 0;
    proof {
        assert(digits@.take(0) =~= Seq::empty());
    }
    while index < length
        invariant
            index <= length,
            digits@.len() == 2 * length,
            digits@ == encode_utf8(value@),
            hex_bytes(digits@.take(2 * index as int)) == Some(bytes@),
        decreases length - index,
    {
        let high = decode_nibble(digits[2 * index]);
        let low = decode_nibble(digits[2 * index + 1]);
        match (high, low) {
            (Some(h), Some(l)) => {
                proof {
                    let longer = digits@.take(2 * index as int + 2);
                    assert(longer.take(longer.len() - 2) =~= digits@.take(2 * index as int));
                }
                bytes.push(h * 16 + l);
            },
            _ => {
                proof {
                    bad_pair_spoils_all(digits@, 2 * index as int);
                }
                return None;
            },
        }
        index = index + 1;
    }
    proof {
        assert(digits@.take(2 * index as int) =~= digits@);
        assert(bytes.deep_view() =~= bytes@);
    }
    Some(bytes)
}

/// The digits of an encoded byte sequence, as bytes.
proof fn hex_text_is_ascii(bytes: Seq<u8>)
    ensures
        is_ascii_chars(hex_text(bytes)),
        hex_text(bytes).len() == 2 * bytes.len(),
    decreases bytes.len(),
{
    if bytes.len() > 0 {
        hex_text_is_ascii(bytes.drop_last());
    }
}

proof fn hex_digits_round_trip(bytes: Seq<u8>, digits: Seq<u8>)
    requires
        digits.len() == 2 * bytes.len(),
        forall|i: int| 0 <= i < digits.len() ==> digits[i] == hex_text(bytes)[i] as u8,
    ensures
        hex_bytes(digits) == Some(bytes),
    decreases bytes.len(),
{
    if bytes.len() > 0 {
        let before = bytes.drop_last();
        hex_text_is_ascii(before);
        let shorter = digits.take(digits.len() - 2);
        assert forall|i: int| 0 <= i < shorter.len() implies shorter[i] == hex_text(
            before,
        )[i] as u8 by {
            assert(hex_text(bytes)[i] == hex_text(before)[i]);
        }
        hex_digits_round_trip(before, shorter);
        let last = bytes.last();
        let n = digits.len();
        assert(hex_text(bytes)[n - 2] == nibble_char(last / 16));
        assert(hex_text(bytes)[n - 1] == nibble_char(last % 16));
        assert(nibble_value(digits[n - 2]) == Some((last / 16) as u8));
        assert(nibble_value(digits[n - 1]) == Some((last % 16) as u8));
        assert(16 * (last / 16) + last % 16 == last);
        assert(before.push(last) =~= bytes);
    }
}

/// Decoding gives back what was encoded.
pub proof fn hex_round_trip(bytes: Seq<u8>)
    ensures
        decoded_hex(hex_text(bytes), bytes.len()) == Some(bytes),
{
    hex_text_is_ascii(bytes);
    is_ascii_chars_encode_utf8(hex_text(bytes));
    hex_digits_round_trip(bytes, encode_utf8(hex_text(bytes)));
}

/// The fingerprint of a configuration under a key.
pub open spec fn fingerprint_under(key: Seq<u8>, config: ValidatedConfigView) -> ConfigFingerprintView {
    ConfigFingerprintView {
        version: FINGERPRINT_VERSION,
        hmac_sha256: hex_text(hmac_sha256(key, canonical(config))),
    }
}

/// Whether a fingerprint is that of a configuration under a key.
pub open spec fn verified_under(
    key: Seq<u8>,
    fingerprint: ConfigFingerprintView,
    config: ValidatedConfigView,
) -> bool {
    &&& fingerprint.version == FINGERPRINT_VERSION
    &&& decoded_hex(fingerprint.hmac_sha256, TAG_BYTES as nat) == Some(
        hmac_sha256(key, canonical(config)),
    )
}

/// A fingerprint verifies against the configuration it was made of.
pub proof fn fingerprint_verifies_its_configuration(key: Seq<u8>, config: ValidatedConfigView)
    ensures
        hmac_sha256(key, canonical(config)).len() == TAG_BYTES ==> verified_under(
            key,
            fingerprint_under(key, config),
            config,
        ),
{
    if hmac_sha256(key, canonical(config)).len() == TAG_BYTES {
        hex_round_trip(hmac_sha256(key, canonical(config)));
    }
}

/// A fingerprint of another version never verifies.
pub proof fn other_versions_never_verify(
    key: Seq<u8>,
    fingerprint: ConfigFingerprintView,
    config: ValidatedConfigView,
)
    requires
        fingerprint.version != FINGERPRINT_VERSION,
    ensures
        !verified_under(key, fingerprint, config),
{
}

/// Two configurations that one fingerprint verifies have the same tag, so
/// they are the same configuration or a collision of the tag.
pub proof fn verification_pins_the_tag(
    key: Seq<u8>,
    fingerprint: ConfigFingerprintView,
    first: ValidatedConfigView,
    second: ValidatedConfigView,
)
    ensures
        verified_under(key, fingerprint, first) && verified_under(key, fingerprint, second)
            ==> hmac_sha256(key, canonical(first)) == hmac_sha256(key, canonical(second)),
{
}

/// 256 to the given power.
spec fn span(width: nat) -> nat
    decreases width,
{
    if width == 0 {
        1
    } else {
        256 * span((width - 1) as nat)
    }
}

proof fn be_bytes_length(value: nat, width: nat)
    ensures
        be_bytes(value, width).len() == width,
    decreases width,
{
    if width > 0 {
        be_bytes_length(value / 256, (width - 1) as nat);
    }
}

proof fn be_bytes_injective(first: nat, second: nat, width: nat)
    requires
        first < span(width),
        second < span(width),
        be_bytes(first, width) == be_bytes(second, width),
    ensures
        first == second,
    decreases width,
{
    if width > 0 {
        let shorter = (width - 1) as nat;
        let a = be_bytes(first / 256, shorter);
        let b = be_bytes(second / 256, shorter);
        assert(be_bytes(first, width).drop_last() =~= a);
        assert(be_bytes(second, width).drop_last() =~= b);
        assert(be_bytes(first, width).last() == (first % 256) as u8);
        assert(be_bytes(second, width).last() == (second % 256) as u8);
        be_bytes_injective(first / 256, second / 256, shorter);
    }
}

/// Equal concatenations with equally long heads have equal heads and tails.
proof fn same_head_and_tail(a: Seq<u8>, x: Seq<u8>, b: Seq<u8>, y: Seq<u8>)
    requires
        a + x == b + y,
        a.len() == b.len(),
    ensures
        a == b,
        x == y,
{
    assert(a =~= (a + x).take(a.len() as int));
    assert(b =~= (b + y).take(b.len() as int));
    assert(x =~= (a + x).skip(a.len() as int));
    assert(y =~= (b + y).skip(b.len() as int));
}

/// A framed field can be told from what follows it.
proof fn framed_is_prefix_free(a: Seq<u8>, x: Seq<u8>, b: Seq<u8>, y: Seq<u8>)
    requires
        framed(a) + x == framed(b) + y,
        a.len() <= u64::MAX,
        b.len() <= u64::MAX,
    ensures
        a == b,
        x == y,
{
    be_bytes_length(a.len(), 8);
    be_bytes_length(b.len(), 8);
    assert(framed(a) + x =~= be_bytes(a.len(), 8) + (a + x));
    assert(framed(b) + y =~= be_bytes(b.len(), 8) + (b + y));
    same_head_and_tail(be_bytes(a.len(), 8), a + x, be_bytes(b.len(), 8), b + y);
    reveal_with_fuel(span, 9);
    be_bytes_injective(a.len(), b.len(), 8);
    same_head_and_tail(a, x, b, y);
}

proof fn encoding_is_injective(first: Seq<char>, second: Seq<char>)
    requires
        encode_utf8(first) == encode_utf8(second),
    ensures
        first == second,
{
    encode_utf8_decode_utf8(first);
    encode_utf8_decode_utf8(second);
}

/// The texts of a configuration fit in memory.
pub open spec fn representable(config: ValidatedConfigView) -> bool {
    &&& encode_utf8(config.source.hostname).len() <= u64::MAX
    &&& encode_utf8(config.effective_username).len() <= u64::MAX
    &&& encode_utf8(config.source.password).len() <= u64::MAX
    &&& encode_utf8(config.configured_executable).len() <= u64::MAX
}

/// Configurations that differ in anything that matters for a launch have
/// different canonical forms, even where the lengths agree.
pub proof fn canonical_form_is_injective(first: ValidatedConfigView, second: ValidatedConfigView)
    requires
        representable(first),
        representable(second),
        canonical(first) == canonical(second),
    ensures
        first.source.schema_version == second.source.schema_version,
        first.source.hostname == second.source.hostname,
        first.source.port == second.source.port,
        first.effective_username == second.effective_username,
        first.source.password == second.source.password,
        first.source.mdns == second.source.mdns,
        first.configured_executable == second.configured_executable,
{
    let exe1 = framed(encode_utf8(first.configured_executable));
    let exe2 = framed(encode_utf8(second.configured_executable));
    let mdns1 = seq![if first.source.mdns { 1u8 } else { 0u8 }];
    let mdns2 = seq![if second.source.mdns { 1u8 } else { 0u8 }];
    let pass1 = encode_utf8(first.source.password);
    let pass2 = encode_utf8(second.source.password);
    let user1 = encode_utf8(first.effective_username);
    let user2 = encode_utf8(second.effective_username);
    let port1 = be_bytes(first.source.port as nat, 2);
    let port2 = be_bytes(second.source.port as nat, 2);
    let host1 = encode_utf8(first.source.hostname);
    let host2 = encode_utf8(second.source.hostname);
    let schema1 = be_bytes(first.source.schema_version as nat, 8);
    let schema2 = be_bytes(second.source.schema_version as nat, 8);
    let after_pass1 = mdns1 + exe1;
    let after_pass2 = mdns2 + exe2;
    let after_user1 = framed(pass1) + after_pass1;
    let after_user2 = framed(pass2) + after_pass2;
    let after_port1 = framed(user1) + after_user1;
    let after_port2 = framed(user2) + after_user2;
    let after_host1 = port1 + after_port1;
    let after_host2 = port2 + after_port2;
    let after_schema1 = framed(host1) + after_host1;
    let after_schema2 = framed(host2) + after_host2;
    let after_domain1 = schema1 + after_schema1;
    let after_domain2 = schema2 + after_schema2;
    reveal_with_fuel(span, 9);
    same_head_and_tail(domain(), after_domain1, domain(), after_domain2);
    be_bytes_length(first.source.schema_version as nat, 8);
    be_bytes_length(second.source.schema_version as nat, 8);
    same_head_and_tail(schema1, after_schema1, schema2, after_schema2);
    be_bytes_injective(
        first.source.schema_version as nat,
        second.source.schema_version as nat,
        8,
    );
    framed_is_prefix_free(host1, after_host1, host2, after_host2);
    encoding_is_injective(first.source.hostname, second.source.hostname);
    be_bytes_length(first.source.port as nat, 2);
    be_bytes_length(second.source.port as nat, 2);
    same_head_and_tail(port1, after_port1, port2, after_port2);
    be_bytes_injective(first.source.port as nat, second.source.port as nat, 2);
    framed_is_prefix_free(user1, after_user1, user2, after_user2);
    encoding_is_injective(first.effective_username, second.effective_username);
    framed_is_prefix_free(pass1, after_pass1, pass2, after_pass2);
    encoding_is_injective(first.source.password, second.source.password);
    same_head_and_tail(mdns1, exe1, mdns2, exe2);
    assert(mdns1[0] == mdns2[0]);
    let path1 = encode_utf8(first.configured_executable);
    let path2 = encode_utf8(second.configured_executable);
    assert(framed(path1) + Seq::<u8>::empty() =~= framed(path1));
    assert(framed(path2) + Seq::<u8>::empty() =~= framed(path2));
    framed_is_prefix_free(path1, Seq::empty(), path2, Seq::empty());
    encoding_is_injective(first.configured_executable, second.configured_executable);
}

/// Appends a number in `width` bytes, most significant first.
fn push_number(message: &mut Vec<u8>, value: u64, width: u64)
    ensures
        final(message)@ == old(message)@ + be_bytes(value as nat, width as nat),
    decreases width,
{
    if width > 0 {
        push_number(message, value / 256, width - 1);
        message.push((value % 256) as u8);
    }
    proof {
        assert(message@ =~= old(message)@ + be_bytes(value as nat, width as nat));
    }
}

/// Appends a field preceded by its length.
fn push_field(message: &mut Vec<u8>, field: &str)
    ensures
        final(message)@ == old(message)@ + framed(encode_utf8(field@)),
{
    let bytes = field.as_bytes();
    push_number(message, bytes.len() as u64, 8);
    message.extend_from_slice(bytes);
    proof {
        assert(message@ =~= old(message)@ + framed(encode_utf8(field@)));
    }
}

/// Writes everything that distinguishes one launch configuration from
/// another.
pub fn canonical_config(config: &ValidatedConfig) -> (message: Vec<u8>)
    ensures
        message@ == canonical(config.deep_view()),
{
    let mut message: Vec<u8> = Vec::new();
    message.extend_from_slice("OpenCodeServer.ConfigFingerprint.v1\0".as_bytes());
    push_number(&mut message, config.source.schema_version, 8);
    push_field(&mut message, config.source.hostname.as_str());
    push_number(&mut message, config.source.port as u64, 2);
    push_field(&mut message, config.effective_username.as_str());
    push_field(&mut message, config.source.password.as_str());
    message.push(if config.source.mdns { 1 } else { 0 });
    push_field(&mut message, config.configured_executable.as_str());
    proof {
        assert(message@ =~= canonical(config.deep_view()));
    }
    message
}

/// The secret key of one installation.
pub struct ConfigFingerprintKey {
    bytes: [u8; 32],
}

/// What to do about the key after an attempt to load it.
pub enum KeyPlan {
    Ready(ConfigFingerprintKey),
    Create,
    Fail(Failure),
}

/// What to do about a fresh key after an attempt to put it in place.
pub enum KeyLink {
    Ready(ConfigFingerprintKey),
    /// Another agent was faster: its key counts.
    LoadExisting,
    Fail(Failure),
}

/// The mathematical content of a [`KeyPlan`].
pub enum KeyPlanView {
    Ready(Seq<u8>),
    Create,
    Fail(FailureView),
}

/// The mathematical content of a [`KeyLink`].
pub enum KeyLinkView {
    Ready(Seq<u8>),
    LoadExisting,
    Fail(FailureView),
}

impl DeepView for KeyPlan {
    type V = KeyPlanView;

    open spec fn deep_view(&self) -> KeyPlanView {
        match self {
            KeyPlan::Ready(key) => KeyPlanView::Ready(key.secret()),
            KeyPlan::Create => KeyPlanView::Create,
            KeyPlan::Fail(error) => KeyPlanView::Fail(error.deep_view()),
        }
    }
}

impl DeepView for KeyLink {
    type V = KeyLinkView;

    open spec fn deep_view(&self) -> KeyLinkView {
        match self {
            KeyLink::Ready(key) => KeyLinkView::Ready(key.secret()),
            KeyLink::LoadExisting => KeyLinkView::LoadExisting,
            KeyLink::Fail(error) => KeyLinkView::Fail(error.deep_view()),
        }
    }
}

/// The key that an attempt to load it gave.
pub open spec fn key_view(outcome: Result<ConfigFingerprintKey, Failure>) -> Result<
    Seq<u8>,
    FailureView,
> {
    match outcome {
        Ok(key) => Ok(key.secret()),
        Err(error) => Err(error.deep_view()),
    }
}

/// Whether a step failed, and how.
pub open spec fn step_view(outcome: Result<(), Failure>) -> Result<(), FailureView> {
    match outcome {
        Ok(()) => Ok(()),
        Err(error) => Err(error.deep_view()),
    }
}

/// The key that the contents of a key file are. The descriptor must belong to
/// the entry that was checked, both must be acceptable, and the contents must
/// be a whole key and no more.
pub open spec fn stored_key(
    entry: FileFacts,
    opened: FileFacts,
    contents: Seq<u8>,
    uid: u32,
) -> Result<Seq<u8>, FailureView> {
    match key_file_fault(entry, uid) {
        Some(fault) => Err(fault),
        None => if !entry.same_file(opened) {
            Err(
                failure(
                    FailureKind::InvalidData,
                    "configuration fingerprint key changed while it was being opened"@,
                ),
            )
        } else {
            match key_file_fault(opened, uid) {
                Some(fault) => Err(fault),
                None => if contents.len() < KEY_BYTES {
                    Err(failure(FailureKind::Other, "failed to fill whole buffer"@))
                } else if contents.len() > KEY_BYTES {
                    Err(
                        failure(
                            FailureKind::InvalidData,
                            "configuration fingerprint key has an invalid length"@,
                        ),
                    )
                } else {
                    Ok(contents)
                },
            }
        },
    }
}

/// What to do after an attempt to load the key: only a missing file leads to a
/// new one.
pub open spec fn planned_key(loaded: Result<Seq<u8>, FailureView>) -> KeyPlanView {
    match loaded {
        Ok(key) => KeyPlanView::Ready(key),
        Err(error) => if error.kind is NotFound {
            KeyPlanView::Create
        } else {
            KeyPlanView::Fail(error)
        },
    }
}

/// What to do about a fresh key, once it was written and linked to its place.
pub open spec fn linked_key(
    key: Seq<u8>,
    written: Result<(), FailureView>,
    linked: Result<(), FailureView>,
) -> KeyLinkView {
    match (written, linked) {
        (Err(error), _) => KeyLinkView::Fail(error),
        (Ok(()), Ok(())) => KeyLinkView::Ready(key),
        (Ok(()), Err(error)) => if error.kind is AlreadyExists {
            KeyLinkView::LoadExisting
        } else {
            KeyLinkView::Fail(error)
        },
    }
}

/// What the file system shows and does while a key is loaded or created.
pub struct KeyWorld {
    pub uid: u32,
    /// What is seen of a stored file before and after it is opened.
    pub seen: spec_fn(StoredFile) -> (FileFacts, FileFacts),
    /// How a missing file shows.
    pub absent: FailureView,
    /// What drawing a fresh key gives.
    pub fresh: Result<Seq<u8>, FailureView>,
    pub written: Result<(), FailureView>,
    pub linked: Result<(), FailureView>,
    /// The key file that another agent has put in place by the time ours is
    /// linked, where it has.
    pub theirs: StoredFile,
}

impl KeyWorld {
    /// What is seen of a stored file is true of it, fresh keys are whole, and
    /// a missing file shows as such.
    pub open spec fn truthful(self) -> bool {
        &&& forall|file: StoredFile|
            file.storable() ==> {
                let (entry, opened) = #[trigger] (self.seen)(file);
                describes(entry, file, self.uid) && describes(opened, file, self.uid)
                    && entry.same_file(opened)
            }
        &&& self.theirs.storable()
        &&& self.absent.kind is NotFound
        &&& self.fresh matches Ok(key) ==> key.len() == KEY_BYTES
    }

    /// The key that a stored file gives.
    pub open spec fn reads(self, file: StoredFile) -> Result<Seq<u8>, FailureView> {
        let (entry, opened) = (self.seen)(file);
        stored_key(entry, opened, file.bytes, self.uid)
    }
}

/// What a call for the key leads to.
pub struct KeyCall {
    pub outcome: Result<Seq<u8>, FailureView>,
    /// What stands in the key's place afterwards.
    pub file: Option<StoredFile>,
    /// A key was written and put in place.
    pub wrote: bool,
}

/// Loads the key, or creates it where there is none.
pub open spec fn key_call(file: Option<StoredFile>, world: KeyWorld) -> KeyCall {
    let loaded = match file {
        Some(stored) => world.reads(stored),
        None => Err(world.absent),
    };
    match planned_key(loaded) {
        KeyPlanView::Ready(key) => KeyCall { outcome: Ok(key), file, wrote: false },
        KeyPlanView::Fail(error) => KeyCall { outcome: Err(error), file, wrote: false },
        KeyPlanView::Create => match world.fresh {
            Err(error) => KeyCall { outcome: Err(error), file, wrote: false },
            Ok(fresh) => match linked_key(fresh, world.written, world.linked) {
                KeyLinkView::Ready(key) => KeyCall {
                    outcome: Ok(key),
                    file: Some(private_file(key)),
                    wrote: true,
                },
                KeyLinkView::LoadExisting => KeyCall {
                    outcome: world.reads(world.theirs),
                    file: Some(world.theirs),
                    wrote: false,
                },
                KeyLinkView::Fail(error) => KeyCall { outcome: Err(error), file, wrote: false },
            },
        },
    }
}

/// A key persists: once a call gave one, every later call gives the same key,
/// so that every configuration keeps its fingerprint, and writes nothing. A
/// key that was created is private and whole.
pub proof fn keys_persist(
    file: Option<StoredFile>,
    first: KeyWorld,
    second: KeyWorld,
    config: ValidatedConfigView,
)
    requires
        first.truthful(),
        second.truthful(),
        first.uid == second.uid,
        file matches Some(stored) ==> stored.storable(),
        key_call(file, first).outcome is Ok,
    ensures
        ({
            let once = key_call(file, first);
            let again = key_call(once.file, second);
            &&& again.outcome == once.outcome
            &&& again.file == once.file
            &&& !again.wrote
            &&& fingerprint_under(again.outcome->Ok_0, config) == fingerprint_under(
                once.outcome->Ok_0,
                config,
            )
            &&& once.wrote ==> once.file == Some(private_file(once.outcome->Ok_0))
                && once.outcome->Ok_0.len() == KEY_BYTES
        }),
{
    let once = key_call(file, first);
    let stored = once.file->0;
    assert(0o600u32 & 0o777 == 0o600) by (bit_vector);
    let (entry, opened) = (first.seen)(stored);
    let (later_entry, later_opened) = (second.seen)(stored);
    if once.wrote {
        private_files_are_not_shared(later_entry, stored.bytes, second.uid);
        private_files_are_not_shared(later_opened, stored.bytes, second.uid);
    } else {
        same_access(entry, later_entry);
        same_access(opened, later_opened);
    }
}

proof fn same_access(a: FileFacts, b: FileFacts)
    requires
        a.mode & 0o777 == b.mode & 0o777,
    ensures
        a.shared() == b.shared(),
{
    let x = a.mode;
    let y = b.mode;
    assert(x & 0o777 == y & 0o777 ==> x & 0o077 == y & 0o077) by (bit_vector);
}

/// Why a key file may not be used. The checks apply in order: kind of file,
/// owner, access, size.
pub open spec fn key_file_fault(facts: FileFacts, uid: u32) -> Option<FailureView> {
    if !facts.regular() {
        Some(
            failure(
                FailureKind::InvalidData,
                "configuration fingerprint key must be a regular file"@,
            ),
        )
    } else if facts.uid != uid {
        Some(
            failure(
                FailureKind::PermissionDenied,
                "configuration fingerprint key must be owned by the current user"@,
            ),
        )
    } else if facts.shared() {
        Some(
            failure(
                FailureKind::PermissionDenied,
                "configuration fingerprint key must have mode 0600"@,
            ),
        )
    } else if facts.len != KEY_BYTES {
        Some(
            failure(
                FailureKind::InvalidData,
                "configuration fingerprint key has an invalid length"@,
            ),
        )
    } else {
        None
    }
}

/// Checks the facts of the key file.
pub fn validate_key_metadata(facts: &FileFacts, uid: u32) -> (outcome: Result<(), Failure>)
    ensures
        fault_of(outcome) == key_file_fault(*facts, uid),
{
    if !facts.is_regular() {
        return Err(
            Failure::new(
                FailureKind::InvalidData,
                "configuration fingerprint key must be a regular file",
            ),
        );
    }
    if facts.uid != uid {
        return Err(
            Failure::new(
                FailureKind::PermissionDenied,
                "configuration fingerprint key must be owned by the current user",
            ),
        );
    }
    if facts.is_shared() {
        return Err(
            Failure::new(
                FailureKind::PermissionDenied,
                "configuration fingerprint key must have mode 0600",
            ),
        );
    }
    if facts.len != KEY_BYTES as u64 {
        return Err(
            Failure::new(
                FailureKind::InvalidData,
                "configuration fingerprint key has an invalid length",
            ),
        );
    }
    Ok(())
}

impl ConfigFingerprintKey {
    /// The bytes of the key.
    pub closed spec fn secret(self) -> Seq<u8> {
        self.bytes@
    }

    /// Makes a key of its bytes.
    pub fn from_bytes(bytes: [u8; 32]) -> (key: ConfigFingerprintKey)
        ensures
            key.secret() == bytes@,
    {
        ConfigFingerprintKey { bytes }
    }

    /// The bytes of the key, for storing it.
    pub fn to_bytes(&self) -> (bytes: [u8; 32])
        ensures
            bytes@ == self.secret(),
    {
        self.bytes
    }

    /// How the key is shown for diagnosis: not at all.
    pub fn debug_text(&self) -> (text: String)
        ensures
            text@ == "ConfigFingerprintKey(<redacted>)"@,
    {
        "ConfigFingerprintKey(<redacted>)".to_owned()
    }

    /// Accepts the contents of the key file: the descriptor must belong to
    /// the entry that was checked, and both must be acceptable.
    pub fn load(entry: &FileFacts, opened: &FileFacts, contents: &Vec<u8>, uid: u32) -> (outcome:
        Result<ConfigFingerprintKey, Failure>)
        ensures
            key_view(outcome) == stored_key(*entry, *opened, contents@, uid),
    {
        match validate_key_metadata(entry, uid) {
            Ok(()) => {},
            Err(error) => return Err(error),
        }
        if entry.device != opened.device || entry.inode != opened.inode {
            return Err(
                Failure::new(
                    FailureKind::InvalidData,
                    "configuration fingerprint key changed while it was being opened",
                ),
            );
        }
        match validate_key_metadata(opened, uid) {
            Ok(()) => {},
            Err(error) => return Err(error),
        }
        if contents.len() < KEY_BYTES {
            return Err(Failure::other("failed to fill whole buffer"));
        }
        if contents.len() > KEY_BYTES {
            return Err(
                Failure::new(
                    FailureKind::InvalidData,
                    "configuration fingerprint key has an invalid length",
                ),
            );
        }
        Ok(Self::from_contents(contents))
    }

    fn from_contents(contents: &Vec<u8>) -> (key: ConfigFingerprintKey)
        requires
            contents@.len() == KEY_BYTES,
        ensures
            key.secret() == contents@,
    {
        let mut bytes: [u8; 32] = [0u8; 32];
        let mut index: usize = 0;
        while index < 32
            invariant
                index <= 32,
                contents@.len() == KEY_BYTES,
                forall|i: int| 0 <= i < index ==> bytes@[i] == contents@[i],
            decreases 32 - index,
        {
            bytes[index] = contents[index];
            index = index + 1;
        }
        proof {
            assert(bytes@ =~= contents@);
        }
        ConfigFingerprintKey { bytes }
    }

    /// Decides what to do after an attempt to load the key: only a missing
    /// file leads to a new key.
    pub fn load_or_create(loaded: Result<ConfigFingerprintKey, Failure>) -> (plan: KeyPlan)
        ensures
            plan.deep_view() == planned_key(key_view(loaded)),
    {
        match loaded {
            Ok(key) => KeyPlan::Ready(key),
            Err(error) => if error.kind == FailureKind::NotFound {
                KeyPlan::Create
            } else {
                KeyPlan::Fail(error)
            },
        }
    }

    /// Decides about a fresh key, once it was written and linked to its place.
    /// Nothing that is there already is replaced.
    pub fn create(
        key: ConfigFingerprintKey,
        written: Result<(), Failure>,
        linked: Result<(), Failure>,
    ) -> (link: KeyLink)
        ensures
            link.deep_view() == linked_key(key.secret(), step_view(written), step_view(linked)),
    {
        match written {
            Ok(()) => {},
            Err(error) => return KeyLink::Fail(error),
        }
        match linked {
            Ok(()) => KeyLink::Ready(key),
            Err(error) => if error.kind == FailureKind::AlreadyExists {
                KeyLink::LoadExisting
            } else {
                KeyLink::Fail(error)
            },
        }
    }

    /// Makes a fresh random key. Which key it is rests on chance; where the
    /// random source fails, the failure says so.
    pub fn generate() -> (outcome: Result<ConfigFingerprintKey, Failure>)
        ensures
            outcome matches Ok(key) ==> key.secret().len() == KEY_BYTES,
            outcome matches Err(error) ==> error.kind == FailureKind::Other,
    {
        Self::from_random(random_bytes(KEY_BYTES))
    }

    /// Turns the random source's answer into a key.
    pub fn from_random(random: Result<Vec<u8>, String>) -> (outcome: Result<
        ConfigFingerprintKey,
        Failure,
    >)
        requires
            random matches Ok(bytes) ==> bytes@.len() == KEY_BYTES,
        ensures
            match random {
                Ok(bytes) => outcome matches Ok(key) && key.secret() == bytes@,
                Err(error) => fault_of(outcome) == Some(
                    failure(
                        FailureKind::Other,
                        "secure random generation failed: "@ + error@,
                    ),
                ),
            },
    {
        match random {
            Ok(bytes) => Ok(Self::from_contents(&bytes)),
            Err(error) => Err(
                Failure {
                    kind: FailureKind::Other,
                    message: join("secure random generation failed: ", error.as_str()),
                },
            ),
        }
    }

    /// Fingerprints a configuration.
    pub fn fingerprint(&self, config: &ValidatedConfig) -> (fingerprint: ConfigFingerprint)
        ensures
            fingerprint.deep_view() == fingerprint_under(self.secret(), config.deep_view()),
            verified_under(self.secret(), fingerprint.deep_view(), config.deep_view()),
    {
        let message = canonical_config(config);
        let tag = mac_tag(self.bytes.as_slice(), message.as_slice());
        proof {
            fingerprint_verifies_its_configuration(self.secret(), config.deep_view());
        }
        ConfigFingerprint {
            version: FINGERPRINT_VERSION,
            hmac_sha256: encode_hex(tag.as_slice()),
        }
    }

    /// Whether a fingerprint is that of a configuration.
    pub fn verifies(&self, fingerprint: &ConfigFingerprint, config: &ValidatedConfig) -> (verifies:
        bool)
        ensures
            verifies == verified_under(
                self.secret(),
                fingerprint.deep_view(),
                config.deep_view(),
            ),
    {
        if fingerprint.version != FINGERPRINT_VERSION {
            return false;
        }
        match decode_hex(fingerprint.hmac_sha256.as_str(), TAG_BYTES) {
            Some(tag) => {
                let message = canonical_config(config);
                proof {
                    assert(tag.deep_view() =~= tag@);
                }
                mac_matches(self.bytes.as_slice(), message.as_slice(), tag.as_slice())
            },
            None => false,
        }
    }
}

} // verus!
