//! The wizard that adds a server profile, as a state machine.
//!
//! The application shows what a state asks for, gathers the answer and hands
//! it in as an event; the state that comes back says what to do next.

use vstd::prelude::*;
use crate::config::{Config, ServerConfig, ServerProfile};
use crate::error::{DownloaderError, Failure};
use crate::platform::timestamp_now;
use crate::text::{chain, parse_u16, parsed_u16, str_of};

verus! {

/// The port offered where the user names none.
pub const DEFAULT_PORT: u16 = 22;

/// The answers gathered for one profile.
#[derive(Debug, PartialEq, Eq)]
pub struct Draft {
    pub alias: String,
    pub hostname: String,
    pub username: String,
    pub port: u16,
    pub ssh_key_path: String,
}

/// The mathematical form of a `Draft`.
pub struct DraftView {
    pub alias: Seq<char>,
    pub hostname: Seq<char>,
    pub username: Seq<char>,
    pub port: u16,
    pub ssh_key_path: Seq<char>,
}

impl View for Draft {
    type V = DraftView;

    open spec fn view(&self) -> DraftView {
        DraftView {
            alias: self.alias@,
            hostname: self.hostname@,
            username: self.username@,
            port: self.port,
            ssh_key_path: self.ssh_key_path@,
        }
    }
}

impl DraftView {
    /// The profile that this draft becomes when it is saved at time `now`.
    pub open spec fn profile(self, now: Seq<char>) -> ServerProfile {
        ServerProfile {
            hostname: self.hostname,
            username: self.username,
            ssh_key_path: self.ssh_key_path,
            port: self.port,
            created_at: now,
        }
    }
}

/// Which of the credentials is asked for next.
#[derive(Debug, PartialEq, Eq)]
pub enum AuthStep {
    Username,
    Port { username: String },
    KeyPath { username: String, port: u16 },
}

/// The mathematical form of an `AuthStep`.
pub enum AuthStepView {
    Username,
    Port { username: Seq<char> },
    KeyPath { username: Seq<char>, port: u16 },
}

impl View for AuthStep {
    type V = AuthStepView;

    open spec fn view(&self) -> AuthStepView {
        match self {
            AuthStep::Username => AuthStepView::Username,
            AuthStep::Port { username } => AuthStepView::Port { username: username@ },
            AuthStep::KeyPath { username, port } => AuthStepView::KeyPath {
                username: username@,
                port: *port,
            },
        }
    }
}

/// Why the wizard offers to start over.
#[derive(Debug, PartialEq, Eq)]
pub enum RetryReason {
    /// The alias is already in the store.
    AliasTaken,
    /// There is no file at the key path.
    KeyMissing,
    /// The connection test failed, with this failure.
    ConnectionFailed(DownloaderError),
    /// The user chose not to save the profile.
    SaveDeclined,
}

/// The mathematical form of a `RetryReason`.
pub enum RetryReasonView {
    AliasTaken,
    KeyMissing,
    ConnectionFailed(Failure),
    SaveDeclined,
}

impl View for RetryReason {
    type V = RetryReasonView;

    open spec fn view(&self) -> RetryReasonView {
        match self {
            RetryReason::AliasTaken => RetryReasonView::AliasTaken,
            RetryReason::KeyMissing => RetryReasonView::KeyMissing,
            RetryReason::ConnectionFailed(failure) => RetryReasonView::ConnectionFailed(failure@),
            RetryReason::SaveDeclined => RetryReasonView::SaveDeclined,
        }
    }
}

/// How the wizard ended without saving.
#[derive(Debug, Clone, Copy, PartialEq, Eq, Structural)]
pub enum Ending {
    /// The user chose not to start over after a rejected answer.
    Declined,
    /// The user neither saved the profile nor began another.
    Discarded,
    /// The port was no number from 0 to 65535.
    InvalidPort,
}

/// Where the wizard stands. Each state says what the application does next.
#[derive(Debug, PartialEq, Eq)]
pub enum WizardState {
    /// Ask for the alias.
    CollectAlias,
    /// Ask for the host name or address.
    CollectHost { alias: String },
    /// Ask for the credential that `step` names.
    CollectAuth { alias: String, hostname: String, step: AuthStep },
    /// Try to connect with the draft.
    TestConnection { draft: Draft },
    /// Show the draft and ask whether to save it.
    Confirm { draft: Draft },
    /// Say why the answers were rejected and ask whether to start over.
    OfferRetry { reason: RetryReason },
    /// Store `profile` under `alias` and persist the store; nothing follows.
    Done { alias: String, profile: ServerConfig },
    /// Stop without saving; nothing follows.
    Aborted { ending: Ending },
}

/// The mathematical form of a `WizardState`.
pub enum WizardStateView {
    CollectAlias,
    CollectHost { alias: Seq<char> },
    CollectAuth { alias: Seq<char>, hostname: Seq<char>, step: AuthStepView },
    TestConnection { draft: DraftView },
    Confirm { draft: DraftView },
    OfferRetry { reason: RetryReasonView },
    Done { alias: Seq<char>, profile: ServerProfile },
    Aborted { ending: Ending },
}

impl View for WizardState {
    type V = WizardStateView;

    open spec fn view(&self) -> WizardStateView {
        match self {
            WizardState::CollectAlias => WizardStateView::CollectAlias,
            WizardState::CollectHost { alias } => WizardStateView::CollectHost { alias: alias@ },
            WizardState::CollectAuth { alias, hostname, step } => WizardStateView::CollectAuth {
                alias: alias@,
                hostname: hostname@,
                step: step@,
            },
            WizardState::TestConnection { draft } => WizardStateView::TestConnection {
                draft: draft@,
            },
            WizardState::Confirm { draft } => WizardStateView::Confirm { draft: draft@ },
            WizardState::OfferRetry { reason } => WizardStateView::OfferRetry { reason: reason@ },
            WizardState::Done { alias, profile } => WizardStateView::Done {
                alias: alias@,
                profile: profile@,
            },
            WizardState::Aborted { ending } => WizardStateView::Aborted { ending: *ending },
        }
    }
}

/// What the application hands in after doing what a state asked for.
#[derive(Debug, PartialEq, Eq)]
pub enum WizardEvent {
    /// The alias that the user entered.
    Alias(String),
    /// The host name or address that the user entered.
    Hostname(String),
    /// The user name that the user entered or accepted.
    Username(String),
    /// The port as the user typed it.
    Port(String),
    /// The key path that the user entered, and whether a file is there.
    KeyPath { path: String, exists: bool },
    /// The connection test succeeded.
    Connected,
    /// The connection test failed.
    ConnectionFailed(DownloaderError),
    /// The user's answer to whether the profile is saved.
    Save(bool),
    /// The user's answer to whether to start over.
    Retry(bool),
}

/// The mathematical form of a `WizardEvent`.
pub enum WizardEventView {
    Alias(Seq<char>),
    Hostname(Seq<char>),
    Username(Seq<char>),
    Port(Seq<char>),
    KeyPath { path: Seq<char>, exists: bool },
    Connected,
    ConnectionFailed(Failure),
    Save(bool),
    Retry(bool),
}

impl View for WizardEvent {
    type V = WizardEventView;

    open spec fn view(&self) -> WizardEventView {
        match self {
            WizardEvent::Alias(alias) => WizardEventView::Alias(alias@),
            WizardEvent::Hostname(hostname) => WizardEventView::Hostname(hostname@),
            WizardEvent::Username(username) => WizardEventView::Username(username@),
            WizardEvent::Port(text) => WizardEventView::Port(text@),
            WizardEvent::KeyPath { path, exists } => WizardEventView::KeyPath {
                path: path@,
                exists: *exists,
            },
            WizardEvent::Connected => WizardEventView::Connected,
            WizardEvent::ConnectionFailed(failure) => WizardEventView::ConnectionFailed(failure@),
            WizardEvent::Save(answer) => WizardEventView::Save(*answer),
            WizardEvent::Retry(answer) => WizardEventView::Retry(*answer),
        }
    }
}

/// The state that follows `state` on `event`, with `store` holding the
/// profiles saved so far and `now` the time of the event. An event that the
/// state does not wait for changes nothing.
pub open spec fn next_state(
    state: WizardStateView,
    event: WizardEventView,
    store: Map<Seq<char>, ServerProfile>,
    now: Seq<char>,
) -> WizardStateView {
    match state {
        WizardStateView::CollectAlias => match event {
            WizardEventView::Alias(alias) => if store.contains_key(alias) {
                WizardStateView::OfferRetry { reason: RetryReasonView::AliasTaken }
            } else {
                WizardStateView::CollectHost { alias }
            },
            _ => state,
        },
        WizardStateView::CollectHost { alias } => match event {
            WizardEventView::Hostname(hostname) => WizardStateView::CollectAuth {
                alias,
                hostname,
                step: AuthStepView::Username,
            },
            _ => state,
        },
        WizardStateView::CollectAuth { alias, hostname, step } => match (step, event) {
            (AuthStepView::Username, WizardEventView::Username(username)) => {
                WizardStateView::CollectAuth { alias, hostname, step: AuthStepView::Port { username } }
            },
            (AuthStepView::Port { username }, WizardEventView::Port(text)) => match parsed_u16(
                text,
            ) {
                Some(port) => WizardStateView::CollectAuth {
                    alias,
                    hostname,
                    step: AuthStepView::KeyPath { username, port },
                },
                None => WizardStateView::Aborted { ending: Ending::InvalidPort },
            },
            (
                AuthStepView::KeyPath { username, port },
                WizardEventView::KeyPath { path, exists },
            ) => if exists {
                WizardStateView::TestConnection {
                    draft: DraftView { alias, hostname, username, port, ssh_key_path: path },
                }
            } else {
                WizardStateView::OfferRetry { reason: RetryReasonView::KeyMissing }
            },
            _ => state,
        },
        WizardStateView::TestConnection { draft } => match event {
            WizardEventView::Connected => WizardStateView::Confirm { draft },
            WizardEventView::ConnectionFailed(failure) => WizardStateView::OfferRetry {
                reason: RetryReasonView::ConnectionFailed(failure),
            },
            _ => state,
        },
        WizardStateView::Confirm { draft } => match event {
            WizardEventView::Save(true) => WizardStateView::Done {
                alias: draft.alias,
                profile: draft.profile(now),
            },
            WizardEventView::Save(false) => WizardStateView::OfferRetry {
                reason: RetryReasonView::SaveDeclined,
            },
            _ => state,
        },
        WizardStateView::OfferRetry { reason } => match event {
            WizardEventView::Retry(true) => WizardStateView::CollectAlias,
            WizardEventView::Retry(false) => WizardStateView::Aborted {
                ending: if reason is SaveDeclined {
                    Ending::Discarded
                } else {
                    Ending::Declined
                },
            },
            _ => state,
        },
        WizardStateView::Done { .. } => state,
        WizardStateView::Aborted { .. } => state,
    }
}

/// The state in which the wizard begins.
pub fn start() -> (state: WizardState)
    ensures
        state@ == WizardStateView::CollectAlias,
{
    WizardState::CollectAlias
}

/// Moves the wizard on by one event that happened at time `now`.
pub fn advance_at(state: WizardState, event: WizardEvent, store: &Config, now: String) -> (next:
    WizardState)
    ensures
        next@ == next_state(state@, event@, store@, now@),
{
    match state {
        WizardState::CollectAlias => match event {
            WizardEvent::Alias(alias) => if store.contains_key(alias.as_str()) {
                WizardState::OfferRetry { reason: RetryReason::AliasTaken }
            } else {
                WizardState::CollectHost { alias }
            },
            _ => WizardState::CollectAlias,
        },
        WizardState::CollectHost { alias } => match event {
            WizardEvent::Hostname(hostname) => WizardState::CollectAuth {
                alias,
                hostname,
                step: AuthStep::Username,
            },
            _ => WizardState::CollectHost { alias },
        },
        WizardState::CollectAuth { alias, hostname, step } => match (step, event) {
            (AuthStep::Username, WizardEvent::Username(username)) => WizardState::CollectAuth {
                alias,
                hostname,
                step: AuthStep::Port { username },
            },
            (AuthStep::Port { username }, WizardEvent::Port(text)) => match parse_u16(
                text.as_str(),
            ) {
                Some(port) => WizardState::CollectAuth {
                    alias,
                    hostname,
                    step: AuthStep::KeyPath { username, port },
                },
                None => WizardState::Aborted { ending: Ending::InvalidPort },
            },
            (AuthStep::KeyPath { username, port }, WizardEvent::KeyPath { path, exists }) => {
                if exists {
                    WizardState::TestConnection {
                        draft: Draft { alias, hostname, username, port, ssh_key_path: path },
                    }
                } else {
                    WizardState::OfferRetry { reason: RetryReason::KeyMissing }
                }
            },
            (step, _) => WizardState::CollectAuth { alias, hostname, step },
        },
        WizardState::TestConnection { draft } => match event {
            WizardEvent::Connected => WizardState::Confirm { draft },
            WizardEvent::ConnectionFailed(failure) => WizardState::OfferRetry {
                reason: RetryReason::ConnectionFailed(failure),
            },
            _ => WizardState::TestConnection { draft },
        },
        WizardState::Confirm { draft } => match event {
            WizardEvent::Save(true) => WizardState::Done {
                alias: draft.alias,
                profile: ServerConfig {
                    hostname: draft.hostname,
                    username: draft.username,
                    ssh_key_path: draft.ssh_key_path,
                    port: draft.port,
                    created_at: now,
                },
            },
            WizardEvent::Save(false) => WizardState::OfferRetry {
                reason: RetryReason::SaveDeclined,
            },
            _ => WizardState::Confirm { draft },
        },
        WizardState::OfferRetry { reason } => match event {
            WizardEvent::Retry(true) => WizardState::CollectAlias,
            WizardEvent::Retry(false) => match reason {
                RetryReason::SaveDeclined => WizardState::Aborted { ending: Ending::Discarded },
                _ => WizardState::Aborted { ending: Ending::Declined },
            },
            _ => WizardState::OfferRetry { reason },
        },
        WizardState::Done { alias, profile } => WizardState::Done { alias, profile },
        WizardState::Aborted { ending } => WizardState::Aborted { ending },
    }
}

/// Moves the wizard on by one event that happens now: a profile that is
/// saved by this step is stamped with the current time, which is read only
/// then. A time stamp has at least twenty-five characters.
pub fn add_server_interactive(state: WizardState, event: WizardEvent, store: &Config) -> (next:
    WizardState)
    ensures
        exists|now: Seq<char>|
            next@ == next_state(state@, event@, store@, now) && (state@ is Confirm && event@
                == WizardEventView::Save(true) ==> now.len() >= 25),
{
    let saving = match (&state, &event) {
        (WizardState::Confirm { .. }, WizardEvent::Save(true)) => true,
        _ => false,
    };
    let now = if saving {
        timestamp_now()
    } else {
        String::new()
    };
    let ghost stamp = now@;
    let next = advance_at(state, event, store, now);
    assert(next@ == next_state(state@, event@, store@, stamp) && (state@ is Confirm && event@
        == WizardEventView::Save(true) ==> stamp.len() >= 25));
    next
}

/// The user name offered where the user enters none: the login name that the
/// environment gives, or `root` where it gives none.
pub open spec fn default_username_of(login: Option<Seq<char>>) -> Seq<char> {
    match login {
        Some(name) => name,
        None => "root"@,
    }
}

/// The user name offered where the user enters none.
pub fn default_username(login: Option<&str>) -> (name: String)
    ensures
        name@ == default_username_of(str_of(login)),
{
    match login {
        Some(name) => name.to_owned(),
        None => "root".to_owned(),
    }
}

/// The key path offered where the user enters none: `.ssh/id_rsa` under the
/// home directory, or under nothing where the environment names no home.
pub open spec fn default_key_path_of(home: Option<Seq<char>>) -> Seq<char> {
    match home {
        Some(dir) => dir + "/.ssh/id_rsa"@,
        None => "/.ssh/id_rsa"@,
    }
}

/// The key path offered where the user enters none.
pub fn default_key_path(home: Option<&str>) -> (path: String)
    ensures
        path@ == default_key_path_of(str_of(home)),
{
    match home {
        Some(dir) => chain(dir, "/.ssh/id_rsa"),
        None => "/.ssh/id_rsa".to_owned(),
    }
}

/// A state that ends the wizard is never left.
pub proof fn lemma_endings_are_final(
    state: WizardStateView,
    event: WizardEventView,
    store: Map<Seq<char>, ServerProfile>,
    now: Seq<char>,
)
    requires
        state is Done || state is Aborted,
    ensures
        next_state(state, event, store, now) == state,
{
}

/// A profile is handed over for saving only from the confirmation, on the
/// user's yes; and the confirmation is reached only by a connection test
/// that succeeded, with the draft that was tested.
pub proof fn lemma_saved_only_after_test_and_consent(
    state: WizardStateView,
    event: WizardEventView,
    store: Map<Seq<char>, ServerProfile>,
    now: Seq<char>,
)
    ensures
        next_state(state, event, store, now) is Done && !(state is Done) ==> state is Confirm
            && event == WizardEventView::Save(true) && next_state(state, event, store, now)
            == (WizardStateView::Done {
            alias: state->Confirm_draft.alias,
            profile: state->Confirm_draft.profile(now),
        }),
        next_state(state, event, store, now) is Confirm && !(state is Confirm) ==> state
            is TestConnection && event is Connected && next_state(state, event, store, now)
            == (WizardStateView::Confirm { draft: state->TestConnection_draft }),
{
}

/// An alias that the store already holds is never taken into a draft.
pub proof fn lemma_taken_alias_is_rejected(
    alias: Seq<char>,
    store: Map<Seq<char>, ServerProfile>,
    now: Seq<char>,
)
    requires
        store.contains_key(alias),
    ensures
        next_state(WizardStateView::CollectAlias, WizardEventView::Alias(alias), store, now) == (
        WizardStateView::OfferRetry { reason: RetryReasonView::AliasTaken }),
{
}

} // verus!
