//! The configuration file, the rules it must satisfy, and the executable it
//! names.

#[allow(unused_imports)]
use vstd::prelude::*;
use vstd::string::{StrSliceExecFns, StringExecFns};
use vstd::utf8::encode_utf8;
use crate::address::is_ip_literal;
#[allow(unused_imports)]
use crate::address::ip_literal;
use crate::failure::Failure;
#[allow(unused_imports)]
use crate::failure::FailureView;
use crate::paths::{is_absolute, join_path, same_path};
#[allow(unused_imports)]
use crate::paths::{absolute, components, joined};
use crate::private_file::FileFacts;
#[allow(unused_imports)]
use crate::private_file::{private_file, Place, StoredFile};
use crate::text::{
    byte_len, bytes_cover_chars, chars_of, contains_char, decimal, has_control, has_whitespace,
    is_blank, join, quote, same_text, split_text, starts_with_char, strip_brackets,
};
#[allow(unused_imports)]
use crate::text::{
    all_whitespace, any_char, debug_quoted, decimal_text, decimal_value,
    decimals_denote_their_number, digit_char, is_control_char, is_whitespace_char, pieces_view,
    split, unbracketed,
};

verus! {

pub const CONFIG_SCHEMA_VERSION: u64 = 1;

pub const MAX_CONFIG_BYTES: u64 = 64 * 1024;

pub const CPU_TYPE_ARM64: u32 = 0x0100_000c;

/// The contents of the configuration file, with the password that is merged
/// in memory only.
#[derive(PartialEq, Eq)]
pub struct ConfigFile {
    pub schema_version: u64,
    pub hostname: String,
    pub port: u16,
    pub username: String,
    /// Never stored in the file: it lives in the login keychain.
    pub password: String,
    pub mdns: bool,
    pub executable_path: String,
}

/// The mathematical content of a [`ConfigFile`].
pub struct ConfigFileView {
    pub schema_version: u64,
    pub hostname: Seq<char>,
    pub port: u16,
    pub username: Seq<char>,
    pub password: Seq<char>,
    pub mdns: bool,
    pub executable_path: Seq<char>,
}

impl DeepView for ConfigFile {
    type V = ConfigFileView;

    open spec fn deep_view(&self) -> ConfigFileView {
        ConfigFileView {
            schema_version: self.schema_version,
            hostname: self.hostname@,
            port: self.port,
            username: self.username@,
            password: self.password@,
            mdns: self.mdns,
            executable_path: self.executable_path@,
        }
    }
}

impl Clone for ConfigFile {
    fn clone(&self) -> (copy: Self)
        ensures
            copy == *self,
    {
        ConfigFile {
            schema_version: self.schema_version,
            hostname: self.hostname.clone(),
            port: self.port,
            username: self.username.clone(),
            password: self.password.clone(),
            mdns: self.mdns,
            executable_path: self.executable_path.clone(),
        }
    }
}

/// The configuration of a fresh installation.
pub open spec fn default_config() -> ConfigFileView {
    ConfigFileView {
        schema_version: CONFIG_SCHEMA_VERSION,
        hostname: "127.0.0.1"@,
        port: 4096,
        username: "opencode"@,
        password: Seq::empty(),
        mdns: false,
        executable_path: Seq::empty(),
    }
}

impl Default for ConfigFile {
    fn default() -> (config: Self)
        ensures
            config.deep_view() == default_config(),
    {
        ConfigFile {
            schema_version: CONFIG_SCHEMA_VERSION,
            hostname: default_hostname(),
            port: default_port(),
            username: default_username(),
            password: String::new(),
            mdns: false,
            executable_path: String::new(),
        }
    }
}

pub fn default_hostname() -> (hostname: String)
    ensures
        hostname@ == "127.0.0.1"@,
{
    "127.0.0.1".to_owned()
}

pub fn default_port() -> (port: u16)
    ensures
        port == 4096,
{
    4096
}

pub fn default_username() -> (username: String)
    ensures
        username@ == "opencode"@,
{
    "opencode".to_owned()
}

impl ConfigFile {
    /// Whether both hold the same settings.
    pub fn same_as(&self, other: &ConfigFile) -> (same: bool)
        ensures
            same == (self.deep_view() == other.deep_view()),
    {
        self.schema_version == other.schema_version && same_text(
            self.hostname.as_str(),
            other.hostname.as_str(),
        ) && self.port == other.port && same_text(self.username.as_str(), other.username.as_str())
            && same_text(self.password.as_str(), other.password.as_str()) && self.mdns
            == other.mdns && same_text(
            self.executable_path.as_str(),
            other.executable_path.as_str(),
        )
    }
}

/// A configuration that satisfies every rule.
pub struct ValidatedConfig {
    pub source: ConfigFile,
    pub configured_executable: String,
    pub canonical_executable: String,
    pub effective_username: String,
}

/// The mathematical content of a [`ValidatedConfig`].
pub struct ValidatedConfigView {
    pub source: ConfigFileView,
    pub configured_executable: Seq<char>,
    pub canonical_executable: Seq<char>,
    pub effective_username: Seq<char>,
}

impl ValidatedConfigView {
    /// Both hold the same settings and lead to the same files: paths are
    /// compared by their components.
    pub open spec fn same(self, other: ValidatedConfigView) -> bool {
        &&& self.source == other.source
        &&& components(self.configured_executable) == components(other.configured_executable)
        &&& components(self.canonical_executable) == components(other.canonical_executable)
        &&& self.effective_username == other.effective_username
    }
}

impl PartialEq for ValidatedConfig {
    fn eq(&self, other: &ValidatedConfig) -> (same: bool) {
        self.same_as(other)
    }
}

impl vstd::std_specs::cmp::PartialEqSpecImpl for ValidatedConfig {
    open spec fn obeys_eq_spec() -> bool {
        true
    }

    open spec fn eq_spec(&self, other: &ValidatedConfig) -> bool {
        self.deep_view().same(other.deep_view())
    }
}

impl Eq for ValidatedConfig {

}

impl DeepView for ValidatedConfig {
    type V = ValidatedConfigView;

    open spec fn deep_view(&self) -> ValidatedConfigView {
        ValidatedConfigView {
            source: self.source.deep_view(),
            configured_executable: self.configured_executable@,
            canonical_executable: self.canonical_executable@,
            effective_username: self.effective_username@,
        }
    }
}

impl Clone for ValidatedConfig {
    fn clone(&self) -> (copy: Self)
        ensures
            copy == *self,
    {
        ValidatedConfig {
            source: self.source.clone(),
            configured_executable: self.configured_executable.clone(),
            canonical_executable: self.canonical_executable.clone(),
            effective_username: self.effective_username.clone(),
        }
    }
}

impl ValidatedConfigView {
    /// The endpoint this configuration serves.
    pub open spec fn endpoint(self) -> Seq<char> {
        endpoint_text(self.source.hostname, self.source.port)
    }
}

impl ValidatedConfig {
    /// The endpoint as it is displayed.
    pub fn endpoint(&self) -> (endpoint: String)
        ensures
            endpoint@ == self.deep_view().endpoint(),
    {
        format_endpoint(self.source.hostname.as_str(), self.source.port)
    }

    /// Whether OpenCode is asked to authenticate its clients.
    pub fn authentication_enabled(&self) -> (enabled: bool)
        ensures
            enabled == (self.source.password@.len() > 0),
    {
        !self.source.password.as_str().is_empty()
    }

    /// Whether both hold the same settings and resolve to the same files.
    pub fn same_as(&self, other: &ValidatedConfig) -> (same: bool)
        ensures
            same == self.deep_view().same(other.deep_view()),
    {
        self.source.same_as(&other.source) && same_path(
            self.configured_executable.as_str(),
            other.configured_executable.as_str(),
        ) && same_path(
            self.canonical_executable.as_str(),
            other.canonical_executable.as_str(),
        ) && same_text(self.effective_username.as_str(), other.effective_username.as_str())
    }
}

/// Copies an optional configuration.
pub fn clone_config(config: &Option<ValidatedConfig>) -> (copy: Option<ValidatedConfig>)
    ensures
        copy == *config,
        copy.deep_view() == config.deep_view(),
{
    match config {
        Some(value) => Some(value.clone()),
        None => None,
    }
}

/// A host and port as displayed: a bare IPv6 address is put in brackets.
pub open spec fn endpoint_text(hostname: Seq<char>, port: u16) -> Seq<char> {
    let host = if hostname.contains(':') && hostname[0] != '[' {
        seq!['['] + hostname + seq![']']
    } else {
        hostname
    };
    host + seq![':'] + decimal_text(port as nat)
}

/// Formats a host and port for display.
pub fn format_endpoint(hostname: &str, port: u16) -> (endpoint: String)
    ensures
        endpoint@ == endpoint_text(hostname@, port),
{
    let bracket = contains_char(hostname, ':') && !starts_with_char(hostname, '[');
    let mut endpoint = String::new();
    if bracket {
        endpoint.push('[');
    }
    endpoint.append(hostname);
    if bracket {
        endpoint.push(']');
    }
    endpoint.push(':');
    let digits = decimal(port as u64);
    endpoint.append(digits.as_str());
    proof {
        assert(endpoint@ =~= endpoint_text(hostname@, port));
    }
    endpoint
}

/// The report of a configuration check.
#[derive(Debug, PartialEq, Eq)]
pub struct ValidationReport {
    pub valid: bool,
    pub issues: Vec<String>,
    pub selected_executable: Option<String>,
    pub candidates: Vec<String>,
}

/// Why no configuration is available.
#[derive(Debug, PartialEq, Eq)]
pub enum ConfigError {
    Io(Failure),
    Invalid(Vec<String>),
}

/// The mathematical content of a [`ConfigError`].
pub enum ConfigErrorView {
    Io(FailureView),
    Invalid(Seq<Seq<char>>),
}

impl DeepView for ConfigError {
    type V = ConfigErrorView;

    open spec fn deep_view(&self) -> ConfigErrorView {
        match self {
            ConfigError::Io(error) => ConfigErrorView::Io(error.deep_view()),
            ConfigError::Invalid(issues) => ConfigErrorView::Invalid(pieces_view(issues@)),
        }
    }
}

/// The texts with `; ` between them.
pub open spec fn joined_issues(issues: Seq<Seq<char>>) -> Seq<char>
    decreases issues.len(),
{
    if issues.len() == 0 {
        Seq::empty()
    } else if issues.len() == 1 {
        issues[0]
    } else {
        joined_issues(issues.drop_last()) + "; "@ + issues.last()
    }
}

impl ConfigErrorView {
    /// What a person is told.
    pub open spec fn text(self) -> Seq<char> {
        match self {
            ConfigErrorView::Io(error) => error.message,
            ConfigErrorView::Invalid(issues) => joined_issues(issues),
        }
    }
}

impl ConfigError {
    /// What a person is told.
    pub fn text(&self) -> (text: String)
        ensures
            text@ == self.deep_view().text(),
    {
        match self {
            ConfigError::Io(error) => error.message.clone(),
            ConfigError::Invalid(issues) => {
                let ghost views = pieces_view(issues@);
                let mut text = String::new();
                let mut index: usize = 0;
                proof {
                    assert(views.take(0) =~= Seq::empty());
                }
                while index < issues.len()
                    invariant
                        index <= issues@.len(),
                        views == pieces_view(issues@),
                        text@ == joined_issues(views.take(index as int)),
                    decreases issues@.len() - index,
                {
                    proof {
                        assert(views.take(index as int + 1).drop_last() =~= views.take(
                            index as int,
                        ));
                        assert(views.take(index as int + 1).last() == issues@[index as int]@);
                        if index == 0 {
                            assert(text@ =~= Seq::empty());
                            assert(views.take(1)[0] == issues@[0]@);
                            assert(text@ + issues@[0]@ =~= issues@[0]@);
                        }
                    }
                    if index > 0 {
                        text.append("; ");
                    }
                    text.append(issues[index].as_str());
                    index = index + 1;
                }
                proof {
                    assert(views.take(index as int) =~= views);
                }
                text
            },
        }
    }
}

/// One issue as the whole reason.
fn invalid(issue: &str) -> (error: ConfigError)
    ensures
        error.deep_view() == ConfigErrorView::Invalid(seq![issue@]),
{
    let mut issues: Vec<String> = Vec::new();
    issues.push(issue.to_owned());
    proof {
        assert(pieces_view(issues@) =~= seq![issue@]);
    }
    ConfigError::Invalid(issues)
}

/// An ASCII letter or digit, or a hyphen.
pub open spec fn is_label_char(c: char) -> bool {
    ('0' <= c && c <= '9') || ('a' <= c && c <= 'z') || ('A' <= c && c <= 'Z') || c == '-'
}

/// One label of a DNS name.
pub open spec fn dns_label(label: Seq<char>) -> bool {
    &&& 1 <= label.len() <= 63
    &&& label[0] != '-'
    &&& label.last() != '-'
    &&& forall|i: int| 0 <= i < label.len() ==> is_label_char(#[trigger] label[i])
}

/// A DNS name: labels separated by dots.
pub open spec fn dns_name(text: Seq<char>) -> bool {
    let labels = split(text, '.');
    forall|i: int| 0 <= i < labels.len() ==> dns_label(#[trigger] labels[i])
}

/// What is wrong with a hostname, if anything.
pub open spec fn hostname_issue(hostname: Seq<char>) -> Option<Seq<char>> {
    if hostname.len() == 0 || encode_utf8(hostname).len() > 253 {
        Some("Hostname must contain between 1 and 253 characters"@)
    } else if any_char(hostname, |c: char| is_control_char(c)) || any_char(
        hostname,
        |c: char| is_whitespace_char(c),
    ) || hostname.contains('/') {
        Some("Hostname contains an invalid character"@)
    } else if ip_literal(unbracketed(hostname)) || hostname == "localhost"@ || dns_name(
        hostname,
    ) {
        None
    } else {
        Some("Hostname is not a valid IP address or DNS name"@)
    }
}

fn is_dns_label(label: &str) -> (is: bool)
    ensures
        is == dns_label(label@),
{
    let chars = chars_of(label);
    let length: usize = chars.len();
    if length == 0 || length > 63 || chars[0] == '-' || chars[length - 1] == '-' {
        return false;
    }
    let mut index: usize = 0;
    while index < length
        invariant
            index <= length,
            length == chars@.len(),
            chars@ == label@,
            forall|i: int| 0 <= i < index ==> is_label_char(#[trigger] chars@[i]),
        decreases length - index,
    {
        let c = chars[index];
        let allowed = ('0' <= c && c <= '9') || ('a' <= c && c <= 'z') || ('A' <= c && c <= 'Z')
            || c == '-';
        if !allowed {
            assert(!is_label_char(label@[index as int]));
            return false;
        }
        index = index + 1;
    }
    true
}

fn is_dns_name(text: &str) -> (is: bool)
    ensures
        is == dns_name(text@),
{
    let labels = split_text(text, '.');
    let ghost expected = split(text@, '.');
    let mut index: usize = 0;
    while index < labels.len()
        invariant
            index <= labels@.len(),
            pieces_view(labels@) == expected,
            expected == split(text@, '.'),
            forall|i: int| 0 <= i < index ==> dns_label(#[trigger] expected[i]),
        decreases labels@.len() - index,
    {
        assert(pieces_view(labels@)[index as int] == labels@[index as int]@);
        if !is_dns_label(labels[index].as_str()) {
            assert(!dns_label(expected[index as int]));
            return false;
        }
        index = index + 1;
    }
    true
}

/// The issue carried by a refused hostname.
pub open spec fn issue_of(outcome: Result<(), String>) -> Option<Seq<char>> {
    match outcome {
        Ok(()) => None,
        Err(issue) => Some(issue@),
    }
}

/// Accepts an IP address, `localhost`, or a DNS name.
pub fn validate_hostname(hostname: &str) -> (outcome: Result<(), String>)
    ensures
        issue_of(outcome) == hostname_issue(hostname@),
{
    if hostname.is_empty() || byte_len(hostname) > 253 {
        return Err("Hostname must contain between 1 and 253 characters".to_owned());
    }
    if has_control(hostname) || has_whitespace(hostname) || contains_char(hostname, '/') {
        return Err("Hostname contains an invalid character".to_owned());
    }
    let bare = strip_brackets(hostname);
    proof {
        bytes_cover_chars(hostname@);
    }
    if is_ip_literal(bare.as_str()) || same_text(hostname, "localhost") {
        return Ok(());
    }
    if is_dns_name(hostname) {
        Ok(())
    } else {
        Err("Hostname is not a valid IP address or DNS name".to_owned())
    }
}

/// The address at which a wildcard listener can be reached.
pub open spec fn reachable_hostname(hostname: Seq<char>) -> Seq<char> {
    if hostname == "0.0.0.0"@ {
        "127.0.0.1"@
    } else if hostname == "::"@ || hostname == "[::]"@ {
        "::1"@
    } else {
        hostname
    }
}

/// Chooses the address that the health check connects to.
pub fn health_hostname<'a>(hostname: &'a str) -> (reachable: &'a str)
    ensures
        reachable@ == reachable_hostname(hostname@),
{
    if same_text(hostname, "0.0.0.0") {
        "127.0.0.1"
    } else if same_text(hostname, "::") || same_text(hostname, "[::]") {
        "::1"
    } else {
        hostname
    }
}

/// A configuration with its hostname in the form without brackets.
pub open spec fn normalized(config: ConfigFileView) -> ConfigFileView {
    ConfigFileView { hostname: unbracketed(config.hostname), ..config }
}

/// `issues` followed by `issue` where there is one.
pub open spec fn with_issue(issues: Seq<Seq<char>>, issue: Option<Seq<char>>) -> Seq<Seq<char>> {
    match issue {
        Some(text) => issues.push(text),
        None => issues,
    }
}

pub open spec fn schema_issue(version: u64) -> Option<Seq<char>> {
    if version != CONFIG_SCHEMA_VERSION {
        Some(
            "unsupported SchemaVersion "@ + decimal_text(version as nat) + "; expected "@
                + decimal_text(CONFIG_SCHEMA_VERSION as nat),
        )
    } else {
        None
    }
}

pub open spec fn port_issue(port: u16) -> Option<Seq<char>> {
    if port == 0 {
        Some("Port must be between 1 and 65535"@)
    } else {
        None
    }
}

pub open spec fn username_issue(username: Seq<char>) -> Option<Seq<char>> {
    if encode_utf8(username).len() > 128 || username.contains(':') || any_char(
        username,
        |c: char| is_control_char(c),
    ) {
        Some(
            "Username must be at most 128 characters and contain no colon or control character"@,
        )
    } else {
        None
    }
}

/// What is wrong with the settings themselves, in the order reported.
pub open spec fn settings_issues(config: ConfigFileView) -> Seq<Seq<char>> {
    let schema = with_issue(Seq::empty(), schema_issue(config.schema_version));
    let hostname = with_issue(schema, hostname_issue(config.hostname));
    let port = with_issue(hostname, port_issue(config.port));
    with_issue(port, username_issue(config.username))
}

/// What the file system reports about the chosen executable. The metadata
/// and the header belong to the resolved file.
pub struct ExecutableFacts {
    pub canonical: Result<String, String>,
    pub metadata: Result<ExecutableMetadata, String>,
    pub header: Result<Vec<u8>, String>,
}

#[derive(Clone, Copy, Debug, PartialEq, Eq, Structural)]
pub struct ExecutableMetadata {
    pub is_file: bool,
    pub mode: u32,
}

/// What is wrong with the chosen executable's path and file, after `prior`.
pub open spec fn file_issues(
    prior: Seq<Seq<char>>,
    configured: Seq<char>,
    facts: ExecutableFacts,
) -> Seq<Seq<char>> {
    let path = if absolute(configured) {
        prior
    } else {
        prior.push("ExecutablePath must be absolute"@)
    };
    let resolved = match facts.canonical {
        Ok(_) => path,
        Err(error) => path.push("OpenCode executable cannot be resolved: "@ + error@),
    };
    match facts.metadata {
        Ok(metadata) => {
            let kind = if metadata.is_file {
                resolved
            } else {
                resolved.push("OpenCode executable target must be a regular file"@)
            };
            if metadata.mode & 0o111 == 0 {
                kind.push("OpenCode executable target is not executable"@)
            } else {
                kind
            }
        },
        Err(error) => resolved.push("OpenCode executable cannot be inspected: "@ + error@),
    }
}

/// Everything that is wrong. The header counts only when nothing else does.
pub open spec fn all_issues(
    config: ConfigFileView,
    configured: Seq<char>,
    facts: ExecutableFacts,
) -> Seq<Seq<char>> {
    let issues = file_issues(settings_issues(config), configured, facts);
    if issues.len() > 0 {
        issues
    } else {
        match facts.header {
            Ok(header) => if arm64_macho(header@) {
                issues
            } else {
                issues.push("OpenCode executable must be a native Mach-O containing arm64 code"@)
            },
            Err(error) => issues.push("OpenCode executable cannot be inspected: "@ + error@),
        }
    }
}

/// The user name under which OpenCode is reached.
pub open spec fn username_in_effect(username: Seq<char>) -> Seq<char> {
    if username.len() == 0 {
        "opencode"@
    } else {
        username
    }
}

/// The outcome of validating a configuration.
pub open spec fn validation(
    config: ConfigFileView,
    configured: Option<Seq<char>>,
    facts: ExecutableFacts,
) -> Result<ValidatedConfigView, ConfigErrorView> {
    let source = normalized(config);
    match configured {
        None => Err(
            ConfigErrorView::Invalid(
                settings_issues(source).push(
                    "No OpenCode executable was found; select an absolute native Mach-O executable"@,
                ),
            ),
        ),
        Some(path) => {
            let issues = all_issues(source, path, facts);
            if issues.len() > 0 {
                Err(ConfigErrorView::Invalid(issues))
            } else {
                Ok(
                    ValidatedConfigView {
                        source,
                        configured_executable: path,
                        canonical_executable: match facts.canonical {
                            Ok(canonical) => canonical@,
                            Err(_) => path,
                        },
                        effective_username: username_in_effect(config.username),
                    },
                )
            }
        },
    }
}

/// The content of a validation outcome.
pub open spec fn outcome_view(outcome: Result<ValidatedConfig, ConfigError>) -> Result<
    ValidatedConfigView,
    ConfigErrorView,
> {
    match outcome {
        Ok(config) => Ok(config.deep_view()),
        Err(error) => Err(error.deep_view()),
    }
}

/// Appends an issue to the list.
fn add_issue(issues: &mut Vec<String>, issue: String)
    ensures
        pieces_view(final(issues)@) == pieces_view(old(issues)@).push(issue@),
{
    issues.push(issue);
    proof {
        assert(pieces_view(issues@) =~= pieces_view(old(issues)@).push(issue@));
    }
}

/// Collects what is wrong with the settings themselves.
fn check_settings(config: &ConfigFile) -> (issues: Vec<String>)
    ensures
        pieces_view(issues@) == settings_issues(config.deep_view()),
{
    let mut issues: Vec<String> = Vec::new();
    proof {
        assert(pieces_view(issues@) =~= Seq::empty());
    }
    if config.schema_version != CONFIG_SCHEMA_VERSION {
        let mut issue = join("unsupported SchemaVersion ", decimal(config.schema_version).as_str());
        issue.append("; expected ");
        issue.append(decimal(CONFIG_SCHEMA_VERSION).as_str());
        add_issue(&mut issues, issue);
    }
    match validate_hostname(config.hostname.as_str()) {
        Ok(()) => {},
        Err(issue) => add_issue(&mut issues, issue),
    }
    if config.port == 0 {
        add_issue(&mut issues, "Port must be between 1 and 65535".to_owned());
    }
    if byte_len(config.username.as_str()) > 128 || contains_char(config.username.as_str(), ':')
        || has_control(config.username.as_str()) {
        add_issue(
            &mut issues,
            "Username must be at most 128 characters and contain no colon or control character".to_owned(),
        );
    }
    issues
}

/// Collects what is wrong with the chosen executable's path and file.
fn check_file(issues: &mut Vec<String>, configured: &str, facts: &ExecutableFacts)
    ensures
        pieces_view(final(issues)@) == file_issues(
            pieces_view(old(issues)@),
            configured@,
            *facts,
        ),
{
    if !is_absolute(configured) {
        add_issue(issues, "ExecutablePath must be absolute".to_owned());
    }
    match &facts.canonical {
        Ok(_) => {},
        Err(error) => add_issue(
            issues,
            join("OpenCode executable cannot be resolved: ", error.as_str()),
        ),
    }
    match &facts.metadata {
        Ok(metadata) => {
            if !metadata.is_file {
                add_issue(issues, "OpenCode executable target must be a regular file".to_owned());
            }
            if metadata.mode & 0o111 == 0 {
                add_issue(issues, "OpenCode executable target is not executable".to_owned());
            }
        },
        Err(error) => add_issue(
            issues,
            join("OpenCode executable cannot be inspected: ", error.as_str()),
        ),
    }
}

/// Which executable a configuration names: its own, or the first discovered
/// one where it names none.
pub fn select_executable(config: &ConfigFile, discovered: &Vec<String>) -> (chosen: Option<String>)
    ensures
        chosen.deep_view() == (if all_whitespace(config.executable_path@) {
            if discovered@.len() > 0 {
                Some(discovered@[0]@)
            } else {
                None
            }
        } else {
            Some(config.executable_path@)
        }),
{
    if is_blank(config.executable_path.as_str()) {
        if discovered.len() > 0 {
            Some(discovered[0].clone())
        } else {
            None
        }
    } else {
        Some(config.executable_path.clone())
    }
}

/// Applies every rule to a configuration and the executable it names.
pub fn validate(
    config: ConfigFile,
    configured_executable: Option<String>,
    facts: ExecutableFacts,
) -> (outcome: Result<ValidatedConfig, ConfigError>)
    ensures
        outcome_view(outcome) == validation(
            config.deep_view(),
            configured_executable.deep_view(),
            facts,
        ),
{
    let mut config = config;
    config.hostname = strip_brackets(config.hostname.as_str());
    let mut issues = check_settings(&config);
    let configured = match configured_executable {
        Some(path) => path,
        None => {
            add_issue(
                &mut issues,
                "No OpenCode executable was found; select an absolute native Mach-O executable".to_owned(),
            );
            return Err(ConfigError::Invalid(issues));
        },
    };
    check_file(&mut issues, configured.as_str(), &facts);
    if issues.len() == 0 {
        match &facts.header {
            Ok(header) => {
                if !contains_arm64(header.as_slice()) {
                    add_issue(
                        &mut issues,
                        "OpenCode executable must be a native Mach-O containing arm64 code".to_owned(),
                    );
                }
            },
            Err(error) => add_issue(
                &mut issues,
                join("OpenCode executable cannot be inspected: ", error.as_str()),
            ),
        }
    }
    if issues.len() > 0 {
        return Err(ConfigError::Invalid(issues));
    }
    let effective_username = if config.username.as_str().is_empty() {
        default_username()
    } else {
        config.username.clone()
    };
    let canonical_executable = match facts.canonical {
        Ok(canonical) => canonical,
        Err(_) => configured.clone(),
    };
    Ok(
        ValidatedConfig {
            source: config,
            configured_executable: configured,
            canonical_executable,
            effective_username,
        },
    )
}

/// A configuration is accepted exactly when nothing is wrong with it.
pub proof fn accepted_iff_no_issue(
    config: ConfigFileView,
    configured: Option<Seq<char>>,
    facts: ExecutableFacts,
)
    ensures
        validation(config, configured, facts) is Ok <==> (configured matches Some(path)
            && all_issues(normalized(config), path, facts).len() == 0),
{
}

/// Whatever is accepted has a usable port, hostname, user name and schema,
/// and an absolute path to an executable regular file with arm64 code.
pub proof fn accepted_configuration_is_usable(
    config: ConfigFileView,
    configured: Option<Seq<char>>,
    facts: ExecutableFacts,
)
    requires
        validation(config, configured, facts) is Ok,
    ensures
        ({
            let accepted = validation(config, configured, facts)->Ok_0;
            &&& accepted.source == normalized(config)
            &&& accepted.source.schema_version == CONFIG_SCHEMA_VERSION
            &&& hostname_issue(accepted.source.hostname) is None
            &&& accepted.source.port > 0
            &&& username_issue(accepted.source.username) is None
            &&& accepted.effective_username.len() > 0
            &&& absolute(accepted.configured_executable)
            &&& facts.canonical is Ok
            &&& facts.metadata matches Ok(metadata) && metadata.is_file && metadata.mode & 0o111
                != 0
            &&& facts.header matches Ok(header) && arm64_macho(header@)
        }),
{
    let source = normalized(config);
    let schema = with_issue(Seq::empty(), schema_issue(source.schema_version));
    let hostname = with_issue(schema, hostname_issue(source.hostname));
    let port = with_issue(hostname, port_issue(source.port));
    assert(settings_issues(source).len() >= port.len() >= hostname.len() >= schema.len());
    let path = configured->0;
    let prior = settings_issues(source);
    assert(file_issues(prior, path, facts).len() >= prior.len());
    reveal_strlit("opencode");
}

/// The four bytes at `at`, least significant first.
pub open spec fn le_u32(bytes: Seq<u8>, at: int) -> int {
    bytes[at] + 0x100 * bytes[at + 1] + 0x1_0000 * bytes[at + 2] + 0x100_0000 * bytes[at + 3]
}

/// The four bytes at `at`, most significant first.
pub open spec fn be_u32(bytes: Seq<u8>, at: int) -> int {
    bytes[at + 3] + 0x100 * bytes[at + 2] + 0x1_0000 * bytes[at + 1] + 0x100_0000 * bytes[at]
}

/// The four bytes at `at` in the given byte order.
pub open spec fn ordered_u32(bytes: Seq<u8>, at: int, big: bool) -> int {
    if big {
        be_u32(bytes, at)
    } else {
        le_u32(bytes, at)
    }
}

/// Where entry `index` of a universal binary's table starts.
pub open spec fn entry_offset(index: int, wide: bool) -> int {
    8 + (if wide {
        32 * index
    } else {
        20 * index
    })
}

/// The shape of a universal binary's table, told by the leading number:
/// whether its entries are wide and whether its numbers are big-endian.
pub open spec fn universal_shape(magic: int) -> Option<(bool, bool)> {
    if magic == 0xcafe_babe {
        Some((false, true))
    } else if magic == 0xcafe_babf {
        Some((true, true))
    } else if magic == 0xbeba_feca {
        Some((false, false))
    } else if magic == 0xbfba_feca {
        Some((true, false))
    } else {
        None
    }
}

/// Whether a file that begins with `bytes` is a Mach-O file for arm64: a thin
/// one of that processor type, or a universal one whose complete table, of at
/// most 64 entries, lists that type.
pub open spec fn arm64_macho(bytes: Seq<u8>) -> bool {
    if bytes.len() < 8 {
        false
    } else if le_u32(bytes, 0) == 0xfeed_face || le_u32(bytes, 0) == 0xfeed_facf {
        le_u32(bytes, 4) == CPU_TYPE_ARM64
    } else {
        match universal_shape(be_u32(bytes, 0)) {
            None => false,
            Some((wide, big)) => {
                let count = ordered_u32(bytes, 4, big);
                &&& count <= 64
                &&& bytes.len() >= entry_offset(count, wide)
                &&& exists|index: int|
                    0 <= index < count && ordered_u32(
                        bytes,
                        #[trigger] entry_offset(index, wide),
                        big,
                    ) == CPU_TYPE_ARM64
            },
        }
    }
}

fn read_u32(bytes: &[u8], at: usize, big: bool) -> (value: u32)
    requires
        at + 4 <= bytes@.len(),
    ensures
        value == ordered_u32(bytes@, at as int, big),
{
    let a: u32 = bytes[at] as u32;
    let b: u32 = bytes[at + 1] as u32;
    let c: u32 = bytes[at + 2] as u32;
    let d: u32 = bytes[at + 3] as u32;
    if big {
        d + 0x100 * c + 0x1_0000 * b + 0x100_0000 * a
    } else {
        a + 0x100 * b + 0x1_0000 * c + 0x100_0000 * d
    }
}

#[verifier::loop_isolation(false)]
fn contains_arm64(bytes: &[u8]) -> (contains: bool)
    ensures
        contains == arm64_macho(bytes@),
{
    if bytes.len() < 8 {
        return false;
    }
    let thin = read_u32(bytes, 0, false);
    if thin == 0xfeed_face || thin == 0xfeed_facf {
        return read_u32(bytes, 4, false) == CPU_TYPE_ARM64;
    }
    let magic = read_u32(bytes, 0, true);
    let wide = magic == 0xcafe_babf || magic == 0xbfba_feca;
    let big = magic == 0xcafe_babe || magic == 0xcafe_babf;
    if !big && magic != 0xbeba_feca && magic != 0xbfba_feca {
        return false;
    }
    let count: usize = read_u32(bytes, 4, big) as usize;
    if count > 64 {
        return false;
    }
    let entry_size: usize = if wide { 32 } else { 20 };
    let required: usize = if wide { 8 + 32 * count } else { 8 + 20 * count };
    if bytes.len() < required {
        return false;
    }
    let mut index: usize = 0;
    let mut offset: usize = 8;
    while index < count
        invariant
            index <= count <= 64,
            offset == entry_offset(index as int, wide),
            entry_size == (if wide { 32usize } else { 20usize }),
            bytes@.len() >= entry_offset(count as int, wide),
            forall|i: int|
                0 <= i < index ==> ordered_u32(bytes@, #[trigger] entry_offset(i, wide), big)
                    != CPU_TYPE_ARM64,
        decreases count - index,
    {
        if read_u32(bytes, offset, big) == CPU_TYPE_ARM64 {
            assert(universal_shape(be_u32(bytes@, 0)) == Some((wide, big)));
            assert(ordered_u32(bytes@, 4, big) == count);
            assert(ordered_u32(bytes@, entry_offset(index as int, wide), big) == CPU_TYPE_ARM64);
            assert(arm64_macho(bytes@));
            return true;
        }
        index = index + 1;
        offset = offset + entry_size;
    }
    false
}

/// Whether a file that begins with `bytes` is a Mach-O file for arm64.
pub fn is_arm64_macho_bytes(bytes: &[u8]) -> (outcome: Result<bool, Failure>)
    ensures
        outcome == Ok::<bool, Failure>(arm64_macho(bytes@)),
{
    Ok(contains_arm64(bytes))
}

/// Why the directory entry of the configuration file may not be read. The
/// checks apply in order: kind of file, size, access, owner.
pub open spec fn config_entry_issue(entry: FileFacts, uid: u32) -> Option<Seq<char>> {
    if !entry.regular() {
        Some("config.plist must be a regular file, not a symbolic link"@)
    } else if entry.len > MAX_CONFIG_BYTES {
        Some("config.plist exceeds the 64 KiB limit"@)
    } else if entry.shared() {
        Some("config.plist must not be accessible by group or other users (use mode 0600)"@)
    } else if entry.uid != uid {
        Some("config.plist must be owned by the current user"@)
    } else {
        None
    }
}

/// The single issue of a refused file.
pub open spec fn sole_issue<T>(outcome: Result<T, ConfigError>) -> Option<ConfigErrorView> {
    match outcome {
        Ok(_) => None,
        Err(error) => Some(error.deep_view()),
    }
}

/// Checks the directory entry before the configuration file is opened.
pub fn check_config_entry(entry: &FileFacts, uid: u32) -> (outcome: Result<(), ConfigError>)
    ensures
        sole_issue(outcome) == (match config_entry_issue(*entry, uid) {
            Some(issue) => Some(ConfigErrorView::Invalid(seq![issue])),
            None => None,
        }),
{
    if !entry.is_regular() {
        return Err(invalid("config.plist must be a regular file, not a symbolic link"));
    }
    if entry.len > MAX_CONFIG_BYTES {
        return Err(invalid("config.plist exceeds the 64 KiB limit"));
    }
    if entry.is_shared() {
        return Err(
            invalid("config.plist must not be accessible by group or other users (use mode 0600)"),
        );
    }
    if entry.uid != uid {
        return Err(invalid("config.plist must be owned by the current user"));
    }
    Ok(())
}

/// Accepts what was read from the opened file: the descriptor must belong to
/// the entry that was checked, the contents must be within the limit, and
/// they must parse. `parsed` carries the parser's message where they do not.
pub fn read_config(
    entry: &FileFacts,
    opened: &FileFacts,
    bytes_read: u64,
    parsed: Result<ConfigFile, String>,
) -> (outcome: Result<ConfigFile, ConfigError>)
    ensures
        sole_issue(outcome) == (if !entry.same_file(*opened) {
            Some(
                ConfigErrorView::Invalid(seq!["config.plist changed while it was being opened"@]),
            )
        } else if bytes_read > MAX_CONFIG_BYTES {
            Some(ConfigErrorView::Invalid(seq!["config.plist exceeds the 64 KiB limit"@]))
        } else {
            match parsed {
                Ok(_) => None,
                Err(error) => Some(
                    ConfigErrorView::Invalid(seq!["config.plist is not valid: "@ + error@]),
                ),
            }
        }),
        outcome matches Ok(config) ==> parsed == Ok::<ConfigFile, String>(config),
{
    if entry.device != opened.device || entry.inode != opened.inode {
        return Err(invalid("config.plist changed while it was being opened"));
    }
    if bytes_read > MAX_CONFIG_BYTES {
        return Err(invalid("config.plist exceeds the 64 KiB limit"));
    }
    match parsed {
        Ok(config) => Ok(config),
        Err(error) => {
            let message = join("config.plist is not valid: ", error.as_str());
            Err(invalid(message.as_str()))
        },
    }
}

/// What validating the contents of the file leads to.
pub open spec fn validated(
    read: Result<ConfigFileView, ConfigErrorView>,
    configured_executable: Option<Seq<char>>,
    facts: ExecutableFacts,
) -> Result<ValidatedConfigView, ConfigErrorView> {
    match read {
        Ok(config) => validation(config, configured_executable, facts),
        Err(error) => Err(error),
    }
}

/// What reading the file gave.
pub open spec fn read_view(read: Result<ConfigFile, ConfigError>) -> Result<
    ConfigFileView,
    ConfigErrorView,
> {
    match read {
        Ok(config) => Ok(config.deep_view()),
        Err(error) => Err(error.deep_view()),
    }
}

/// Validates what reading the file gave.
pub fn load_and_validate(
    read: Result<ConfigFile, ConfigError>,
    configured_executable: Option<String>,
    facts: ExecutableFacts,
) -> (outcome: Result<ValidatedConfig, ConfigError>)
    ensures
        outcome_view(outcome) == validated(
            read_view(read),
            configured_executable.deep_view(),
            facts,
        ),
{
    match read {
        Ok(config) => validate(config, configured_executable, facts),
        Err(error) => Err(error),
    }
}

/// The configuration to write before the first load: the default one where no
/// file exists yet, none otherwise.
pub open spec fn first_config(exists: bool) -> Option<ConfigFileView> {
    if exists {
        None
    } else {
        Some(default_config())
    }
}

/// Decides what is written before the first load.
pub fn load_or_create(exists: bool) -> (to_write: Option<ConfigFile>)
    ensures
        to_write.deep_view() == first_config(exists),
{
    if exists {
        None
    } else {
        let config: ConfigFile = Default::default();
        Some(config)
    }
}

/// What the first load leads to: a configuration that could not be written is
/// not read either.
pub open spec fn first_load(
    written: Result<(), FailureView>,
    read: Result<ConfigFileView, ConfigErrorView>,
    configured_executable: Option<Seq<char>>,
    facts: ExecutableFacts,
) -> Result<ValidatedConfigView, ConfigErrorView> {
    match written {
        Ok(()) => validated(read, configured_executable, facts),
        Err(error) => Err(ConfigErrorView::Io(error)),
    }
}

/// Concludes the first load, given how the write before it ended. Where
/// nothing had to be written, it ended well.
pub fn load_created(
    written: Result<(), Failure>,
    read: Result<ConfigFile, ConfigError>,
    configured_executable: Option<String>,
    facts: ExecutableFacts,
) -> (outcome: Result<ValidatedConfig, ConfigError>)
    ensures
        outcome_view(outcome) == first_load(
            match written {
                Ok(()) => Ok(()),
                Err(error) => Err(error.deep_view()),
            },
            read_view(read),
            configured_executable.deep_view(),
            facts,
        ),
{
    match written {
        Ok(()) => load_and_validate(read, configured_executable, facts),
        Err(error) => Err(ConfigError::Io(error)),
    }
}

/// Reports the outcome of a configuration check.
pub fn validation_report(
    outcome: Result<ValidatedConfig, ConfigError>,
    candidates: Vec<String>,
) -> (report: ValidationReport)
    ensures
        report.valid == outcome is Ok,
        report.candidates == candidates,
        match outcome_view(outcome) {
            Ok(config) => {
                &&& report.issues@.len() == 0
                &&& report.selected_executable.deep_view() == Some(config.configured_executable)
            },
            Err(ConfigErrorView::Invalid(issues)) => {
                &&& pieces_view(report.issues@) == issues
                &&& report.selected_executable is None
            },
            Err(ConfigErrorView::Io(error)) => {
                &&& pieces_view(report.issues@) == seq![error.message]
                &&& report.selected_executable is None
            },
        },
{
    match outcome {
        Ok(config) => ValidationReport {
            valid: true,
            issues: Vec::new(),
            selected_executable: Some(config.configured_executable),
            candidates,
        },
        Err(error) => {
            let issues = match error {
                ConfigError::Invalid(issues) => issues,
                ConfigError::Io(error) => {
                    let mut issues: Vec<String> = Vec::new();
                    issues.push(error.message);
                    proof {
                        assert(pieces_view(issues@) =~= seq![error.message@]);
                    }
                    issues
                },
            };
            ValidationReport { valid: false, issues, selected_executable: None, candidates }
        },
    }
}

/// Whether a list holds a path with the same components.
pub open spec fn lists(paths: Seq<Seq<char>>, path: Seq<char>) -> bool {
    exists|i: int| 0 <= i < paths.len() && components(#[trigger] paths[i]) == components(path)
}

/// The first of all paths with the same components, in order.
pub open spec fn first_occurrences(paths: Seq<Seq<char>>) -> Seq<Seq<char>>
    decreases paths.len(),
{
    if paths.len() == 0 {
        Seq::empty()
    } else {
        let before = first_occurrences(paths.drop_last());
        if lists(paths.drop_last(), paths.last()) {
            before
        } else {
            before.push(paths.last())
        }
    }
}

/// Where OpenCode may be installed, in order of preference and with repeats.
pub open spec fn executable_locations(home: Option<Seq<char>>, search_path: Seq<Seq<char>>) -> Seq<
    Seq<char>,
> {
    let fixed = seq!["/opt/homebrew/bin/opencode"@];
    let own = match home {
        Some(directory) => fixed.push(joined(directory, ".opencode/bin/opencode"@)),
        None => fixed,
    };
    own + Seq::new(search_path.len(), |i: int| joined(search_path[i], "opencode"@))
}

proof fn lists_after_push(paths: Seq<Seq<char>>, added: Seq<char>, path: Seq<char>)
    ensures
        lists(paths.push(added), path) == (lists(paths, path) || components(added) == components(
            path,
        )),
{
    let longer = paths.push(added);
    if lists(paths, path) {
        let i = choose|i: int|
            0 <= i < paths.len() && components(#[trigger] paths[i]) == components(path);
        assert(longer[i] == paths[i]);
    }
    assert(longer[paths.len() as int] == added);
    if lists(longer, path) && components(added) != components(path) {
        let i = choose|i: int|
            0 <= i < longer.len() && components(#[trigger] longer[i]) == components(path);
        assert(paths[i] == longer[i]);
    }
}

proof fn first_occurrences_keep_places(paths: Seq<Seq<char>>, path: Seq<char>)
    ensures
        lists(first_occurrences(paths), path) == lists(paths, path),
    decreases paths.len(),
{
    if paths.len() > 0 {
        let before = paths.drop_last();
        let kept = first_occurrences(before);
        first_occurrences_keep_places(before, path);
        assert(paths =~= before.push(paths.last()));
        lists_after_push(before, paths.last(), path);
        lists_after_push(kept, paths.last(), path);
        if lists(before, paths.last()) && components(paths.last()) == components(path) {
            let i = choose|i: int|
                0 <= i < before.len() && components(#[trigger] before[i]) == components(
                    paths.last(),
                );
            assert(components(before[i]) == components(path));
        }
    }
}

/// Every place is listed once, under the first of the paths that lead there,
/// and none is left out.
pub proof fn candidates_are_distinct(paths: Seq<Seq<char>>)
    ensures
        forall|i: int, j: int|
            0 <= i < j < first_occurrences(paths).len() ==> components(
                #[trigger] first_occurrences(paths)[i],
            ) != components(#[trigger] first_occurrences(paths)[j]),
        forall|path: Seq<char>| #[trigger]
            lists(first_occurrences(paths), path) == lists(paths, path),
    decreases paths.len(),
{
    if paths.len() > 0 {
        candidates_are_distinct(paths.drop_last());
        let kept = first_occurrences(paths.drop_last());
        if !lists(paths.drop_last(), paths.last()) {
            first_occurrences_keep_places(paths.drop_last(), paths.last());
            assert forall|i: int, j: int|
                0 <= i < j < first_occurrences(paths).len() implies components(
                #[trigger] first_occurrences(paths)[i],
            ) != components(#[trigger] first_occurrences(paths)[j]) by {
                assert(first_occurrences(paths)[i] == kept[i]);
                if j < kept.len() {
                    assert(first_occurrences(paths)[j] == kept[j]);
                }
            }
        }
    }
    assert forall|path: Seq<char>| #[trigger]
        lists(first_occurrences(paths), path) == lists(paths, path) by {
        first_occurrences_keep_places(paths, path);
    }
}

/// Adds a path unless one with the same components is listed already.
fn add_distinct(kept: &mut Vec<String>, path: String)
    ensures
        pieces_view(final(kept)@) == (if lists(pieces_view(old(kept)@), path@) {
            pieces_view(old(kept)@)
        } else {
            pieces_view(old(kept)@).push(path@)
        }),
{
    let ghost before = pieces_view(kept@);
    let mut index: usize = 0;
    while index < kept.len()
        invariant
            index <= kept@.len(),
            kept@ == old(kept)@,
            before == pieces_view(kept@),
            forall|i: int| 0 <= i < index ==> components(#[trigger] before[i]) != components(path@),
        decreases kept@.len() - index,
    {
        assert(before[index as int] == kept@[index as int]@);
        if same_path(kept[index].as_str(), path.as_str()) {
            return;
        }
        index = index + 1;
    }
    kept.push(path);
    proof {
        assert(pieces_view(kept@) =~= before.push(path@));
    }
}

/// Lists where OpenCode may be installed, each place once.
pub fn candidate_executables(home: &Option<String>, search_path: &Vec<String>) -> (candidates: Vec<
    String,
>)
    ensures
        pieces_view(candidates@) == first_occurrences(
            executable_locations(home.deep_view(), pieces_view(search_path@)),
        ),
{
    let ghost locations = executable_locations(home.deep_view(), pieces_view(search_path@));
    let mut candidates: Vec<String> = Vec::new();
    proof {
        assert(pieces_view(candidates@) =~= Seq::empty());
        assert(locations.take(0) =~= Seq::empty());
        assert(locations.take(1).drop_last() =~= locations.take(0));
        assert(locations[0] == "/opt/homebrew/bin/opencode"@);
        assert(first_occurrences(locations.take(0)) =~= Seq::empty());
    }
    add_distinct(&mut candidates, "/opt/homebrew/bin/opencode".to_owned());
    assert(pieces_view(candidates@) == first_occurrences(locations.take(1)));
    let ghost mut listed: int = 1;
    if let Some(directory) = home {
        proof {
            assert(locations.take(2).drop_last() =~= locations.take(1));
            assert(locations[1] == joined(directory@, ".opencode/bin/opencode"@));
            first_occurrences_keep_places(locations.take(1), locations[1]);
            listed = 2;
        }
        add_distinct(&mut candidates, join_path(directory.as_str(), ".opencode/bin/opencode"));
    }
    let ghost start: int = listed;
    let mut index: usize = 0;
    while index < search_path.len()
        invariant
            index <= search_path@.len(),
            locations == executable_locations(home.deep_view(), pieces_view(search_path@)),
            start == (if home is Some { 2int } else { 1int }),
            listed == start + index,
            pieces_view(candidates@) == first_occurrences(locations.take(listed)),
        decreases search_path@.len() - index,
    {
        proof {
            assert(locations.take(listed + 1).drop_last() =~= locations.take(listed));
            assert(pieces_view(search_path@)[index as int] == search_path@[index as int]@);
            assert(locations[listed] == joined(search_path@[index as int]@, "opencode"@));
            first_occurrences_keep_places(locations.take(listed), locations[listed]);
            listed = listed + 1;
        }
        add_distinct(&mut candidates, join_path(search_path[index].as_str(), "opencode"));
        index = index + 1;
    }
    proof {
        assert(locations.take(listed) =~= locations);
    }
    candidates
}

/// What is known of one candidate: the metadata of the file it leads to, and
/// whether the resolved file holds arm64 code.
#[derive(Clone, Copy, Debug, PartialEq, Eq, Structural)]
pub struct CandidateFacts {
    pub metadata: Option<ExecutableMetadata>,
    pub arm64: Option<bool>,
}

impl CandidateFacts {
    /// The candidate can be run as OpenCode.
    pub open spec fn usable(self) -> bool {
        &&& self.metadata matches Some(metadata) && metadata.is_file && metadata.mode & 0o111 != 0
        &&& self.arm64 == Some(true)
    }

    fn is_usable(&self) -> (usable: bool)
        ensures
            usable == self.usable(),
    {
        let executable = match self.metadata {
            Some(metadata) => metadata.is_file && metadata.mode & 0o111 != 0,
            None => false,
        };
        let native = match self.arm64 {
            Some(native) => native,
            None => false,
        };
        executable && native
    }
}

/// The usable candidates, in order.
pub open spec fn usable_candidates(candidates: Seq<Seq<char>>, facts: Seq<CandidateFacts>) -> Seq<
    Seq<char>,
>
    decreases candidates.len(),
{
    if candidates.len() == 0 {
        Seq::empty()
    } else {
        let before = usable_candidates(candidates.drop_last(), facts);
        if facts[candidates.len() - 1].usable() {
            before.push(candidates.last())
        } else {
            before
        }
    }
}

/// Keeps the candidates that can be run as OpenCode.
pub fn discover_executables(candidates: &Vec<String>, facts: &Vec<CandidateFacts>) -> (found: Vec<
    String,
>)
    requires
        candidates@.len() == facts@.len(),
    ensures
        pieces_view(found@) == usable_candidates(pieces_view(candidates@), facts@),
{
    let ghost listed = pieces_view(candidates@);
    let mut found: Vec<String> = Vec::new();
    let mut index: usize = 0;
    proof {
        assert(listed.take(0) =~= Seq::empty());
        assert(pieces_view(found@) =~= Seq::empty());
    }
    while index < candidates.len()
        invariant
            index <= candidates@.len(),
            candidates@.len() == facts@.len(),
            listed == pieces_view(candidates@),
            pieces_view(found@) == usable_candidates(listed.take(index as int), facts@),
        decreases candidates@.len() - index,
    {
        proof {
            assert(listed.take(index as int + 1).drop_last() =~= listed.take(index as int));
        }
        if facts[index].is_usable() {
            add_issue(&mut found, candidates[index].clone());
        }
        index = index + 1;
    }
    proof {
        assert(listed.take(index as int) =~= listed);
    }
    found
}

/// How a configuration is shown for diagnosis; the password is not in it.
pub open spec fn config_debug_text(config: ConfigFileView) -> Seq<char> {
    "ConfigFile { schema_version: "@ + decimal_text(config.schema_version as nat) + ", hostname: "@
        + debug_quoted(config.hostname) + ", port: "@ + decimal_text(config.port as nat)
        + ", username: "@ + debug_quoted(config.username)
        + ", password: \"<redacted>\", mdns: "@ + bool_text(config.mdns) + ", executable_path: "@
        + debug_quoted(config.executable_path) + " }"@
}

/// How a validated configuration is shown for diagnosis.
pub open spec fn validated_debug_text(config: ValidatedConfigView) -> Seq<char> {
    "ValidatedConfig { source: "@ + config_debug_text(config.source) + ", configured_executable: "@
        + debug_quoted(config.configured_executable) + ", canonical_executable: "@ + debug_quoted(
        config.canonical_executable,
    ) + ", effective_username: "@ + debug_quoted(config.effective_username) + " }"@
}

pub open spec fn bool_text(value: bool) -> Seq<char> {
    if value {
        "true"@
    } else {
        "false"@
    }
}

impl ConfigFile {
    /// How the configuration is shown for diagnosis.
    pub fn debug_text(&self) -> (text: String)
        ensures
            text@ == config_debug_text(self.deep_view()),
    {
        let mut text = join("ConfigFile { schema_version: ", decimal(self.schema_version).as_str());
        text.append(", hostname: ");
        text.append(quote(self.hostname.as_str()).as_str());
        text.append(", port: ");
        text.append(decimal(self.port as u64).as_str());
        text.append(", username: ");
        text.append(quote(self.username.as_str()).as_str());
        text.append(", password: \"<redacted>\", mdns: ");
        text.append(if self.mdns { "true" } else { "false" });
        text.append(", executable_path: ");
        text.append(quote(self.executable_path.as_str()).as_str());
        text.append(" }");
        text
    }
}

impl ValidatedConfig {
    /// How the configuration is shown for diagnosis.
    pub fn debug_text(&self) -> (text: String)
        ensures
            text@ == validated_debug_text(self.deep_view()),
    {
        let mut text = join("ValidatedConfig { source: ", self.source.debug_text().as_str());
        text.append(", configured_executable: ");
        text.append(quote(self.configured_executable.as_str()).as_str());
        text.append(", canonical_executable: ");
        text.append(quote(self.canonical_executable.as_str()).as_str());
        text.append(", effective_username: ");
        text.append(quote(self.effective_username.as_str()).as_str());
        text.append(" }");
        text
    }
}

/// Nothing shown for diagnosis depends on the password.
pub proof fn debug_text_never_depends_on_the_password(
    config: ValidatedConfigView,
    password: Seq<char>,
)
    ensures
        ({
            let source = ConfigFileView { password, ..config.source };
            &&& config_debug_text(source) == config_debug_text(config.source)
            &&& validated_debug_text(ValidatedConfigView { source, ..config })
                == validated_debug_text(config)
        }),
{
}

/// The steps of writing a configuration, in order.
#[derive(Clone, Copy, Debug, PartialEq, Eq, Structural)]
pub enum ConfigWriteStage {
    CreateParent,
    RestrictParent,
    Encode,
    CreateTemporary,
    WriteTemporary,
    SyncTemporary,
    Rename,
    RestrictFile,
}

/// What writing a configuration does next.
#[derive(Debug, PartialEq, Eq)]
pub enum ConfigWriteProgress {
    Perform(ConfigWriteStage),
    Finished { outcome: Result<(), Failure>, remove_temporary: bool },
}

impl ConfigWriteStage {
    /// The step after this one, if any.
    pub open spec fn following(self) -> Option<ConfigWriteStage> {
        match self {
            ConfigWriteStage::CreateParent => Some(ConfigWriteStage::RestrictParent),
            ConfigWriteStage::RestrictParent => Some(ConfigWriteStage::Encode),
            ConfigWriteStage::Encode => Some(ConfigWriteStage::CreateTemporary),
            ConfigWriteStage::CreateTemporary => Some(ConfigWriteStage::WriteTemporary),
            ConfigWriteStage::WriteTemporary => Some(ConfigWriteStage::SyncTemporary),
            ConfigWriteStage::SyncTemporary => Some(ConfigWriteStage::Rename),
            ConfigWriteStage::Rename => Some(ConfigWriteStage::RestrictFile),
            ConfigWriteStage::RestrictFile => None,
        }
    }

    /// The temporary file was created before this step.
    pub open spec fn after_creation(self) -> bool {
        match self {
            ConfigWriteStage::WriteTemporary
            | ConfigWriteStage::SyncTemporary
            | ConfigWriteStage::Rename
            | ConfigWriteStage::RestrictFile => true,
            _ => false,
        }
    }
}

/// Advances the write of a configuration by the result of one step. The first
/// failure ends it, and no temporary file is left behind.
pub fn write_config_atomically(stage: ConfigWriteStage, result: Result<(), Failure>) -> (progress:
    ConfigWriteProgress)
    ensures
        match result {
            Ok(()) => match stage.following() {
                Some(next) => progress == ConfigWriteProgress::Perform(next),
                None => progress == (ConfigWriteProgress::Finished {
                    outcome: Ok(()),
                    remove_temporary: false,
                }),
            },
            Err(error) => progress == (ConfigWriteProgress::Finished {
                outcome: Err(error),
                remove_temporary: stage.after_creation(),
            }),
        },
{
    match result {
        Ok(()) => match stage {
            ConfigWriteStage::CreateParent => ConfigWriteProgress::Perform(
                ConfigWriteStage::RestrictParent,
            ),
            ConfigWriteStage::RestrictParent => ConfigWriteProgress::Perform(
                ConfigWriteStage::Encode,
            ),
            ConfigWriteStage::Encode => ConfigWriteProgress::Perform(
                ConfigWriteStage::CreateTemporary,
            ),
            ConfigWriteStage::CreateTemporary => ConfigWriteProgress::Perform(
                ConfigWriteStage::WriteTemporary,
            ),
            ConfigWriteStage::WriteTemporary => ConfigWriteProgress::Perform(
                ConfigWriteStage::SyncTemporary,
            ),
            ConfigWriteStage::SyncTemporary => ConfigWriteProgress::Perform(
                ConfigWriteStage::Rename,
            ),
            ConfigWriteStage::Rename => ConfigWriteProgress::Perform(
                ConfigWriteStage::RestrictFile,
            ),
            ConfigWriteStage::RestrictFile => ConfigWriteProgress::Finished {
                outcome: Ok(()),
                remove_temporary: false,
            },
        },
        Err(error) => {
            let remove_temporary = match stage {
                ConfigWriteStage::WriteTemporary
                | ConfigWriteStage::SyncTemporary
                | ConfigWriteStage::Rename
                | ConfigWriteStage::RestrictFile => true,
                _ => false,
            };
            ConfigWriteProgress::Finished { outcome: Err(error), remove_temporary }
        },
    }
}

/// How many steps follow.
pub open spec fn config_stages_left(stage: ConfigWriteStage) -> nat {
    match stage {
        ConfigWriteStage::CreateParent => 7,
        ConfigWriteStage::RestrictParent => 6,
        ConfigWriteStage::Encode => 5,
        ConfigWriteStage::CreateTemporary => 4,
        ConfigWriteStage::WriteTemporary => 3,
        ConfigWriteStage::SyncTemporary => 2,
        ConfigWriteStage::Rename => 1,
        ConfigWriteStage::RestrictFile => 0,
    }
}

/// What a step that succeeds does to the place of the configuration: the
/// temporary file is created for its owner only, the rename moves it into
/// place, and the last step restricts what is there.
pub open spec fn config_step_done(place: Place, stage: ConfigWriteStage, bytes: Seq<u8>) -> Place {
    match stage {
        ConfigWriteStage::CreateTemporary => Place { temporary: true, ..place },
        ConfigWriteStage::Rename => Place { file: Some(private_file(bytes)), temporary: false },
        ConfigWriteStage::RestrictFile => Place {
            file: match place.file {
                Some(file) => Some(private_file(file.bytes)),
                None => None,
            },
            ..place
        },
        _ => place,
    }
}

/// A write whose steps end with `results`, from `stage` on: what it leaves in
/// place, and how it ends.
pub open spec fn config_written(
    place: Place,
    bytes: Seq<u8>,
    stage: ConfigWriteStage,
    results: spec_fn(ConfigWriteStage) -> Result<(), FailureView>,
) -> (Place, Result<(), FailureView>)
    decreases config_stages_left(stage),
{
    match results(stage) {
        Ok(()) => {
            let done = config_step_done(place, stage, bytes);
            match stage.following() {
                Some(next) => config_written(done, bytes, next, results),
                None => (done, Ok(())),
            }
        },
        Err(error) => (
            Place { temporary: place.temporary && !stage.after_creation(), ..place },
            Err(error),
        ),
    }
}

/// What the first load meets on disk.
pub struct ConfigWorld {
    /// The bytes that a configuration is stored as.
    pub encode: spec_fn(ConfigFileView) -> Seq<u8>,
    /// How the steps of a write end.
    pub results: spec_fn(ConfigWriteStage) -> Result<(), FailureView>,
    /// What reading what is in place gives.
    pub read: spec_fn(Option<StoredFile>) -> Result<ConfigFileView, ConfigErrorView>,
    pub configured_executable: Option<Seq<char>>,
    pub facts: ExecutableFacts,
}

/// What the first load leads to, how the write before it ended, and what is in
/// place afterwards.
pub struct ConfigCall {
    pub place: Place,
    pub written: Result<(), FailureView>,
    pub outcome: Result<ValidatedConfigView, ConfigErrorView>,
}

/// Loads the configuration, after it was created where there was none.
pub open spec fn config_call(place: Place, world: ConfigWorld) -> ConfigCall {
    let (after, written) = match first_config(place.file is Some) {
        Some(config) => config_written(
            place,
            (world.encode)(config),
            ConfigWriteStage::CreateParent,
            world.results,
        ),
        None => (place, Ok(())),
    };
    ConfigCall {
        place: after,
        written,
        outcome: first_load(
            written,
            (world.read)(after.file),
            world.configured_executable,
            world.facts,
        ),
    }
}

/// The first load leaves a configuration that is present untouched. Where there
/// is none, the default one is there afterwards, for its owner only, or the
/// load fails because it could not be written. Otherwise the outcome is that of
/// validating what is then in place. No temporary file is left behind.
pub proof fn first_loads_keep_or_create(place: Place, world: ConfigWorld)
    requires
        !place.temporary,
    ensures
        ({
            let call = config_call(place, world);
            &&& place.file is Some ==> call.place == place && call.written is Ok
            &&& place.file is None && call.written is Ok ==> call.place.file == Some(
                private_file((world.encode)(default_config())),
            )
            &&& match call.written {
                Ok(()) => call.outcome == validated(
                    (world.read)(call.place.file),
                    world.configured_executable,
                    world.facts,
                ),
                Err(error) => call.outcome == Err::<ValidatedConfigView, ConfigErrorView>(
                    ConfigErrorView::Io(error),
                ),
            }
            &&& !call.place.temporary
        }),
{
    reveal_with_fuel(config_written, 9);
}

/// A write that ends well leaves the new file, for its owner only. One that
/// fails leaves what was in place, unless only the last step failed.
pub proof fn failed_config_writes_keep_the_file(
    place: Place,
    bytes: Seq<u8>,
    results: spec_fn(ConfigWriteStage) -> Result<(), FailureView>,
)
    ensures
        ({
            let (after, outcome) = config_written(
                place,
                bytes,
                ConfigWriteStage::CreateParent,
                results,
            );
            &&& outcome is Ok ==> after.file == Some(private_file(bytes))
            &&& outcome is Err && after.file != place.file ==> results(
                ConfigWriteStage::RestrictFile,
            ) is Err && after.file == Some(private_file(bytes))
        }),
{
    reveal_with_fuel(config_written, 9);
}

/// An accepted configuration keeps what was configured: the host without
/// brackets, the port, the announcement, the password and the executable. It
/// runs under the configured user name, and under "opencode" where none was
/// configured.
pub proof fn accepted_configurations_keep_their_settings(
    config: ConfigFileView,
    configured: Option<Seq<char>>,
    facts: ExecutableFacts,
)
    requires
        validation(config, configured, facts) is Ok,
    ensures
        ({
            let accepted = validation(config, configured, facts)->Ok_0;
            &&& config.username.len() > 0 ==> accepted.effective_username == config.username
            &&& config.username.len() == 0 ==> accepted.effective_username == "opencode"@
            &&& accepted.source.username == config.username
            &&& accepted.source.port == config.port
            &&& accepted.source.mdns == config.mdns
            &&& accepted.source.password == config.password
            &&& accepted.source.schema_version == config.schema_version
            &&& accepted.source.executable_path == config.executable_path
            &&& accepted.source.hostname == unbracketed(config.hostname)
            &&& configured == Some(accepted.configured_executable)
            &&& facts.canonical matches Ok(canonical) && accepted.canonical_executable
                == canonical@
        }),
{
}

/// A configuration is accepted exactly where it has the known schema, a host
/// that can be used, a port, a user name of at most 128 bytes without colon or
/// control character, and the absolute path of a regular file that may be
/// executed and holds native code.
pub proof fn good_configurations_are_accepted(
    config: ConfigFileView,
    configured: Option<Seq<char>>,
    facts: ExecutableFacts,
)
    ensures
        validation(config, configured, facts) is Ok <==> {
            &&& config.schema_version == 1
            &&& hostname_issue(unbracketed(config.hostname)) is None
            &&& config.port != 0
            &&& encode_utf8(config.username).len() <= 128
            &&& forall|i: int|
                0 <= i < config.username.len() ==> #[trigger] config.username[i] != ':'
                    && !is_control_char(config.username[i])
            &&& configured is Some
            &&& configured->0.len() > 0
            &&& configured->0[0] == '/'
            &&& facts.canonical is Ok
            &&& facts.metadata is Ok
            &&& facts.metadata->Ok_0.is_file
            &&& facts.metadata->Ok_0.mode & 0o111 != 0
            &&& facts.header is Ok
            &&& arm64_macho(facts.header->Ok_0@)
        },
{
    let source = normalized(config);
    let bad = |c: char| is_control_char(c);
    let clean = forall|i: int|
        0 <= i < config.username.len() ==> #[trigger] config.username[i] != ':'
            && !is_control_char(config.username[i]);
    if clean {
        assert(!config.username.contains(':'));
        assert(!any_char(config.username, bad));
    } else {
        let i = choose|i: int|
            0 <= i < config.username.len() && !(#[trigger] config.username[i] != ':'
                && !is_control_char(config.username[i]));
        if config.username[i] == ':' {
            assert(config.username.contains(':'));
        } else {
            assert(bad(config.username[i]));
            assert(any_char(config.username, bad));
        }
    }
    assert(username_issue(config.username) is None <==> encode_utf8(config.username).len() <= 128
        && clean);
    assert(settings_issues(source).len() == 0 <==> schema_issue(source.schema_version) is None
        && hostname_issue(source.hostname) is None && port_issue(source.port) is None
        && username_issue(source.username) is None);
    if configured is Some {
        let path = configured->0;
        let prior = settings_issues(source);
        assert(file_issues(prior, path, facts).len() >= prior.len());
        assert(file_issues(prior, path, facts).len() == 0 <==> prior.len() == 0 && absolute(path)
            && facts.canonical is Ok && facts.metadata is Ok && facts.metadata->Ok_0.is_file
            && facts.metadata->Ok_0.mode & 0o111 != 0);
    }
}

/// A refusal names what is wrong: no port, an unknown schema, a relative path,
/// a file that may not be executed, and that no executable was found.
pub proof fn refusals_name_the_defect(
    config: ConfigFileView,
    configured: Option<Seq<char>>,
    facts: ExecutableFacts,
)
    requires
        validation(config, configured, facts) is Err,
    ensures
        ({
            let issues = validation(config, configured, facts)->Err_0->Invalid_0;
            &&& validation(config, configured, facts)->Err_0 is Invalid
            &&& issues.len() > 0
            &&& config.port == 0 ==> issues.contains("Port must be between 1 and 65535"@)
            &&& config.schema_version != 1 ==> issues[0] == "unsupported SchemaVersion "@
                + decimal_text(config.schema_version as nat) + "; expected 1"@
            &&& hostname_issue(unbracketed(config.hostname)) matches Some(text)
                ==> issues.contains(text)
            &&& configured is None ==> issues.last()
                == "No OpenCode executable was found; select an absolute native Mach-O executable"@
            &&& configured matches Some(path) ==> (!absolute(path) ==> issues.contains(
                "ExecutablePath must be absolute"@,
            ))
            &&& configured is Some && facts.metadata is Ok && !facts.metadata->Ok_0.is_file
                ==> issues.contains("OpenCode executable target must be a regular file"@)
            &&& configured is Some && facts.metadata is Ok && facts.metadata->Ok_0.mode & 0o111
                == 0 ==> issues.contains("OpenCode executable target is not executable"@)
        }),
{
    let source = normalized(config);
    let schema = with_issue(Seq::empty(), schema_issue(source.schema_version));
    let hostname = with_issue(schema, hostname_issue(source.hostname));
    let port = with_issue(hostname, port_issue(source.port));
    let settings = settings_issues(source);
    let issues = validation(config, configured, facts)->Err_0->Invalid_0;
    assert(decimal_text(1) == "1"@) by {
        reveal_strlit("1");
        assert(decimal_text(1) =~= seq![digit_char(1)]);
        assert("1"@ =~= seq!['1']);
    }
    reveal_strlit("; expected ");
    reveal_strlit("; expected 1");
    reveal_strlit("1");
    assert("; expected "@ + "1"@ =~= "; expected 1"@);
    assert(issues.take(settings.len() as int) =~= settings);
    if config.schema_version != 1 {
        assert(schema[0] == schema_issue(source.schema_version)->0);
        assert(settings[0] == schema[0]);
        assert(issues[0] == issues.take(settings.len() as int)[0]);
        let head = "unsupported SchemaVersion "@ + decimal_text(config.schema_version as nat);
        assert(head + "; expected "@ + "1"@ =~= head + "; expected 1"@);
    }
    if hostname_issue(source.hostname) is Some {
        let at = schema.len() as int;
        assert(hostname[at] == hostname_issue(source.hostname)->0);
        assert(settings[at] == hostname[at]);
        assert(issues[at] == issues.take(settings.len() as int)[at]);
    }
    if config.port == 0 {
        let at = hostname.len() as int;
        assert(port[at] == port_issue(source.port)->0);
        assert(settings[at] == port[at]);
        assert(issues[at] == issues.take(settings.len() as int)[at]);
    }
    if configured is Some {
        let path = configured->0;
        let first = settings.len() as int;
        let found = file_issues(settings, path, facts);
        if !absolute(path) {
            assert(found[first] == "ExecutablePath must be absolute"@);
            assert(issues[first] == found[first]);
        }
        let resolved = (if absolute(path) {
            first
        } else {
            first + 1
        }) + (if facts.canonical is Ok {
            0int
        } else {
            1
        });
        if facts.metadata is Ok && !facts.metadata->Ok_0.is_file {
            assert(found[resolved] == "OpenCode executable target must be a regular file"@);
            assert(issues[resolved] == found[resolved]);
        }
        if facts.metadata is Ok && facts.metadata->Ok_0.mode & 0o111 == 0 {
            assert(found.last() == "OpenCode executable target is not executable"@);
            assert(issues[found.len() - 1] == found.last());
        }
    }
}

/// No host holds white space, a control character or a slash, is empty, or is
/// longer than 253 bytes.
pub proof fn usable_hosts_are_clean(hostname: Seq<char>, at: int)
    requires
        hostname_issue(hostname) is None,
        0 <= at < hostname.len(),
    ensures
        0 < encode_utf8(hostname).len() <= 253,
        !is_whitespace_char(hostname[at]),
        !is_control_char(hostname[at]),
        hostname[at] != '/',
{
    let control = |c: char| is_control_char(c);
    let white = |c: char| is_whitespace_char(c);
    if is_control_char(hostname[at]) {
        assert(control(hostname[at]));
        assert(any_char(hostname, control));
    }
    if is_whitespace_char(hostname[at]) {
        assert(white(hostname[at]));
        assert(any_char(hostname, white));
    }
    assert(hostname[at] == '/' ==> hostname.contains('/'));
    bytes_cover_chars(hostname);
}

/// A host is usable where it is clean and names an address, is "localhost", or
/// consists of labels of at most 63 letters, digits and inner hyphens.
pub proof fn names_of_labels_are_usable(hostname: Seq<char>)
    requires
        hostname.len() > 0,
        encode_utf8(hostname).len() <= 253,
        forall|i: int|
            0 <= i < hostname.len() ==> !is_control_char(#[trigger] hostname[i])
                && !is_whitespace_char(hostname[i]) && hostname[i] != '/',
    ensures
        ({
            let labels = split(hostname, '.');
            let named = forall|i: int|
                0 <= i < labels.len() ==> {
                    let label = #[trigger] labels[i];
                    &&& 1 <= label.len() <= 63
                    &&& label[0] != '-'
                    &&& label.last() != '-'
                    &&& forall|j: int|
                        0 <= j < label.len() ==> {
                            let c = #[trigger] label[j];
                            '0' <= c <= '9' || 'a' <= c <= 'z' || 'A' <= c <= 'Z' || c == '-'
                        }
                };
            hostname_issue(hostname) is None <==> named || hostname == "localhost"@ || ip_literal(
                unbracketed(hostname),
            )
        }),
{
    let control = |c: char| is_control_char(c);
    let white = |c: char| is_whitespace_char(c);
    assert(!any_char(hostname, control));
    assert(!any_char(hostname, white));
    assert(!hostname.contains('/'));
    let labels = split(hostname, '.');
    assert forall|i: int| 0 <= i < labels.len() implies dns_label(#[trigger] labels[i]) == ({
        let label = labels[i];
        &&& 1 <= label.len() <= 63
        &&& label[0] != '-'
        &&& label.last() != '-'
        &&& forall|j: int|
            0 <= j < label.len() ==> {
                let c = #[trigger] label[j];
                '0' <= c <= '9' || 'a' <= c <= 'z' || 'A' <= c <= 'Z' || c == '-'
            }
    }) by {
        let label = labels[i];
        if dns_label(label) {
            assert forall|j: int| 0 <= j < label.len() implies ({
                let c = #[trigger] label[j];
                '0' <= c <= '9' || 'a' <= c <= 'z' || 'A' <= c <= 'Z' || c == '-'
            }) by {
                assert(is_label_char(label[j]));
            }
        }
    }
}

/// An endpoint is the host, a colon and the port, with brackets around a host
/// that holds colons itself.
pub proof fn endpoints_name_host_and_port(hostname: Seq<char>, port: u16)
    ensures
        ({
            let text = endpoint_text(hostname, port);
            let digits = decimal_text(port as nat);
            let host = text.take(text.len() - digits.len() - 1);
            &&& text.skip(text.len() - digits.len()) == digits
            &&& decimal_value(digits) == port
            &&& text[text.len() - digits.len() - 1] == ':'
            &&& !hostname.contains(':') ==> host == hostname
            &&& hostname.contains(':') && hostname[0] != '[' ==> host == seq!['['] + hostname
                + seq![']']
            &&& hostname.contains(':') && hostname[0] == '[' ==> host == hostname
        }),
{
    decimals_denote_their_number(port as nat);
    let text = endpoint_text(hostname, port);
    let digits = decimal_text(port as nat);
    let host = text.take(text.len() - digits.len() - 1);
    assert(text.skip(text.len() - digits.len()) =~= digits);
    if hostname.contains(':') && hostname[0] != '[' {
        assert(host =~= seq!['['] + hostname + seq![']']);
    } else {
        assert(host =~= hostname);
    }
}

/// A server that listens everywhere is reached on this machine; any other one
/// where it listens.
pub proof fn wildcards_are_reached_locally(hostname: Seq<char>)
    ensures
        hostname == "0.0.0.0"@ ==> reachable_hostname(hostname) == "127.0.0.1"@,
        hostname != "0.0.0.0"@ && (hostname == "::"@ || hostname == "[::]"@)
            ==> reachable_hostname(hostname) == "::1"@,
        hostname != "0.0.0.0"@ && hostname != "::"@ && hostname != "[::]"@ ==> reachable_hostname(
            hostname,
        ) == hostname,
{
}

/// The default configuration listens on this machine only, at port 4096, for
/// the user "opencode", without a password, an announcement or a fixed
/// executable.
pub proof fn defaults_are_private()
    ensures
        default_config().hostname == "127.0.0.1"@,
        default_config().port == 4096,
        default_config().username == "opencode"@,
        default_config().password.len() == 0,
        !default_config().mdns,
        default_config().executable_path.len() == 0,
        default_config().schema_version == 1,
{
}

/// A thin file is native where it names the 64-bit ARM processor after the mark
/// of a Mach-O file. Shorter files and executables of other systems are not.
pub proof fn native_code_is_recognized(bytes: Seq<u8>)
    ensures
        bytes.len() < 8 ==> !arm64_macho(bytes),
        bytes.len() >= 8 && (bytes[0] == 0xcf || bytes[0] == 0xce) && bytes[1] == 0xfa && bytes[2]
            == 0xed && bytes[3] == 0xfe ==> (arm64_macho(bytes) <==> bytes[4] == 0x0c && bytes[5]
            == 0 && bytes[6] == 0 && bytes[7] == 1),
        bytes.len() >= 8 && bytes[0] == 0x7f ==> !arm64_macho(bytes),
{
}

/// A universal file, with the narrow or the wide kind of entries, is native
/// where one of its entries names the 64-bit ARM processor.
pub proof fn universal_files_are_searched(bytes: Seq<u8>, wide: bool, entry: int)
    requires
        bytes.len() >= 8,
        bytes[0] == 0xca && bytes[1] == 0xfe && bytes[2] == 0xba,
        bytes[3] == (if wide {
            0xbfu8
        } else {
            0xbe
        }),
        bytes[4] == 0 && bytes[5] == 0 && bytes[6] == 0,
        0 <= entry < bytes[7] <= 64,
        bytes.len() >= 8 + (if wide {
            32int
        } else {
            20
        }) * bytes[7],
        ({
            let at = 8 + (if wide {
                32int
            } else {
                20
            }) * entry;
            bytes[at] == 1 && bytes[at + 1] == 0 && bytes[at + 2] == 0 && bytes[at + 3] == 0x0c
        }),
    ensures
        arm64_macho(bytes),
{
    assert(be_u32(bytes, 0) == if wide {
        0xcafe_babfint
    } else {
        0xcafe_babe
    });
    assert(be_u32(bytes, 4) == bytes[7]);
    assert(ordered_u32(bytes, entry_offset(entry, wide), true) == CPU_TYPE_ARM64);
}

/// The executable is looked for in Homebrew's directory, then in the one of the
/// person's own installation, and then along the search path, in its order.
pub proof fn executables_are_looked_for_in_order(
    home: Option<Seq<char>>,
    search_path: Seq<Seq<char>>,
    at: int,
)
    requires
        0 <= at < search_path.len(),
    ensures
        ({
            let places = executable_locations(home, search_path);
            let before: int = if home is Some {
                2
            } else {
                1
            };
            &&& places.len() == before + search_path.len()
            &&& places[0] == "/opt/homebrew/bin/opencode"@
            &&& home matches Some(directory) ==> places[1] == joined(
                directory,
                ".opencode/bin/opencode"@,
            )
            &&& places[before + at] == joined(search_path[at], "opencode"@)
        }),
{
}

/// Of the candidates those are found that are regular files, may be executed
/// and hold native code, and no others.
pub proof fn usable_candidates_are_found(
    candidates: Seq<Seq<char>>,
    facts: Seq<CandidateFacts>,
    path: Seq<char>,
)
    ensures
        usable_candidates(candidates, facts).len() <= candidates.len(),
        usable_candidates(candidates, facts).contains(path) <==> exists|i: int|
            0 <= i < candidates.len() && #[trigger] candidates[i] == path && facts[i].arm64
                == Some(true) && facts[i].metadata is Some && facts[i].metadata->0.is_file
                && facts[i].metadata->0.mode & 0o111 != 0,
    decreases candidates.len(),
{
    if candidates.len() > 0 {
        let front = candidates.drop_last();
        let last = candidates.len() - 1;
        let before = usable_candidates(front, facts);
        usable_candidates_are_found(front, facts, path);
        if facts[last].usable() {
            let all = before.push(candidates.last());
            assert(all.contains(path) <==> before.contains(path) || candidates.last() == path) by {
                if before.contains(path) {
                    let i = choose|i: int| 0 <= i < before.len() && before[i] == path;
                    assert(all[i] == path);
                }
                assert(all[all.len() - 1] == candidates.last());
            }
        }
        let good = |i: int| facts[i].usable();
        if exists|i: int| 0 <= i < front.len() && #[trigger] front[i] == path && good(i) {
            let i = choose|i: int| 0 <= i < front.len() && #[trigger] front[i] == path && good(i);
            assert(candidates[i] == path);
        }
        if exists|i: int| 0 <= i < candidates.len() && #[trigger] candidates[i] == path && good(i) {
            let i = choose|i: int|
                0 <= i < candidates.len() && #[trigger] candidates[i] == path && good(i);
            if i < last {
                assert(front[i] == path);
            }
        }
    }
}

/// A configuration file is read only where it is a regular file of the user,
/// of at most 64 KiB, that nobody else may access.
pub proof fn configuration_files_are_private(entry: FileFacts, uid: u32)
    ensures
        config_entry_issue(entry, uid) is None <==> entry.is_file && !entry.is_symlink && entry.len
            <= 65536 && entry.mode & 0o077 == 0 && entry.uid == uid,
{
}

} // verus!
