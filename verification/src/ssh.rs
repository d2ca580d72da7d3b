//! Key files, the steps by which a session is opened, and the steps by which
//! a remote file is copied.
//!
//! The library decides; the application talks to the disk and the network.
//! A `Connection` and a `Transfer` are state machines: each state says what
//! the application does next, and the outcome comes back as an event.

use vstd::prelude::*;
use vstd::string::*;
use crate::error::{text_result, DownloaderError, Failure};
use crate::text::{
    chars_of,
    chain,
    contains,
    contains_text,
    decimal,
    ends_with,
    fields,
    find_last,
    format_number,
    last_position,
    lemma_last_position,
    split_fields,
};

verus! {

/// Number of bytes asked for by one read of the remote file.
pub const CHUNK_SIZE: usize = 8192;

/// What was found when a public key file was read.
#[derive(Debug, PartialEq, Eq)]
pub enum KeyFile {
    /// The file could not be opened.
    Missing,
    /// The file was opened but reading failed, with this cause.
    Unreadable(String),
    /// The text of the file.
    Content(String),
}

/// The mathematical form of a `KeyFile`.
pub enum KeyFileView {
    Missing,
    Unreadable(Seq<char>),
    Content(Seq<char>),
}

impl View for KeyFile {
    type V = KeyFileView;

    open spec fn view(&self) -> KeyFileView {
        match self {
            KeyFile::Missing => KeyFileView::Missing,
            KeyFile::Unreadable(cause) => KeyFileView::Unreadable(cause@),
            KeyFile::Content(text) => KeyFileView::Content(text@),
        }
    }
}

/// The host that the text of a public key names: the key must have at least
/// an algorithm, key data and a comment, separated by whitespace, and the
/// host is what follows the last `@` of the comment, if anything does.
pub open spec fn key_hostname(content: Seq<char>) -> Option<Seq<char>> {
    let parts = fields(content);
    if parts.len() < 3 {
        None
    } else {
        let comment = parts[2];
        let at = last_position(comment, '@');
        if at < 0 || at + 1 == comment.len() {
            None
        } else {
            Some(comment.skip(at + 1))
        }
    }
}

/// A key with fewer than three fields, or with a comment without `@`, names
/// no host; a host that is named is not empty, holds no `@`, and is what
/// the comment has after an `@`.
pub proof fn lemma_hostname_rules(content: Seq<char>)
    ensures
        fields(content).len() < 3 ==> key_hostname(content) is None,
        fields(content).len() >= 3 && !fields(content)[2].contains('@') ==> key_hostname(content)
            is None,
        key_hostname(content) is Some ==> {
            let host = key_hostname(content)->0;
            &&& fields(content).len() >= 3
            &&& host.len() > 0
            &&& !host.contains('@')
            &&& exists|user: Seq<char>| fields(content)[2] == user + seq!['@'] + host
        },
{
    if fields(content).len() >= 3 {
        let comment = fields(content)[2];
        let at = last_position(comment, '@');
        lemma_last_position(comment, '@');
        if key_hostname(content) is Some {
            let host = key_hostname(content)->0;
            assert(host == comment.skip(at + 1));
            assert forall|i: int| 0 <= i < host.len() implies host[i] != '@' by {
                assert(host[i] == comment[at + 1 + i]);
            }
            let user = comment.take(at);
            assert(comment =~= user + seq!['@'] + host);
        }
    }
}

/// What the extraction of a host from the public key at `path` gives.
pub open spec fn extracted_hostname(path: Seq<char>, file: KeyFileView) -> Result<
    Seq<char>,
    Failure,
> {
    match file {
        KeyFileView::Missing => Err(Failure::SshKeyNotFound(path)),
        KeyFileView::Unreadable(cause) => Err(Failure::IoError(cause)),
        KeyFileView::Content(text) => match key_hostname(text) {
            Some(host) => Ok(host),
            None => Err(Failure::HostnameExtractionFailed),
        },
    }
}

/// The host named by the comment of the public key at `public_key_path`,
/// given what reading that file gave.
pub fn extract_hostname_from_public_key(public_key_path: &str, file: &KeyFile) -> (r: Result<
    String,
    DownloaderError,
>)
    ensures
        text_result(r) == extracted_hostname(public_key_path@, file@),
{
    match file {
        KeyFile::Missing => Err(DownloaderError::SshKeyNotFound(public_key_path.to_owned())),
        KeyFile::Unreadable(cause) => Err(DownloaderError::IoError(cause.clone())),
        KeyFile::Content(text) => {
            let parts = split_fields(text.as_str());
            if parts.len() < 3 {
                return Err(DownloaderError::HostnameExtractionFailed);
            }
            let comment = parts[2].as_str();
            let chars = chars_of(comment);
            match find_last(&chars, '@') {
                Some(at) => {
                    if at + 1 == chars.len() {
                        Err(DownloaderError::HostnameExtractionFailed)
                    } else {
                        Ok(comment.substring_char(at + 1, chars.len()).to_owned())
                    }
                },
                None => Err(DownloaderError::HostnameExtractionFailed),
            }
        },
    }
}

/// The ending that marks a public key file.
pub open spec fn public_suffix() -> Seq<char> {
    seq!['.', 'p', 'u', 'b']
}

/// The path of the private key that belongs to the public key at `path`:
/// `path` without one trailing `.pub`, or `path` itself where it has none.
pub open spec fn private_key_path(path: Seq<char>) -> Seq<char> {
    if public_suffix().is_suffix_of(path) {
        path.take(path.len() - 4)
    } else {
        path
    }
}

/// A path that ends in `.pub` loses exactly that ending, and any other path
/// is its own private key path.
pub proof fn lemma_private_key_path(base: Seq<char>, path: Seq<char>)
    ensures
        private_key_path(base + public_suffix()) == base,
        !public_suffix().is_suffix_of(path) ==> private_key_path(path) == path,
        public_suffix().is_suffix_of(path) ==> private_key_path(path) + public_suffix() == path,
{
    let full = base + public_suffix();
    assert(full.subrange(full.len() - 4, full.len() as int) == public_suffix());
    assert(full.take(full.len() - 4) == base);
    if public_suffix().is_suffix_of(path) {
        assert(path.take(path.len() - 4) + path.subrange(path.len() - 4, path.len() as int)
            == path);
    }
}

/// The path of the private key that belongs to the public key at
/// `public_key_path`. Never fails.
pub fn get_private_key_path(public_key_path: &str) -> (r: Result<String, DownloaderError>)
    ensures
        text_result(r) == Ok::<Seq<char>, Failure>(private_key_path(public_key_path@)),
{
    proof {
        reveal_strlit(".pub");
        assert(".pub"@ == public_suffix());
    }
    let chars = chars_of(public_key_path);
    let suffix = chars_of(".pub");
    if ends_with(&chars, &suffix) {
        assert(public_key_path@.take(chars@.len() - 4) == public_key_path@.subrange(
            0,
            chars@.len() - 4,
        ));
        Ok(public_key_path.substring_char(0, chars.len() - 4).to_owned())
    } else {
        Ok(public_key_path.to_owned())
    }
}

/// What the application found on disk for a pair of key files.
#[derive(Debug, PartialEq, Eq)]
pub struct KeyProbe {
    /// Whether there is a file at the public key's path.
    pub public_exists: bool,
    /// Whether there is a file at the private key's path.
    pub private_exists: bool,
    /// What reading the public key file gave.
    pub public_file: KeyFile,
}

/// The mathematical form of a `KeyProbe`.
pub struct KeyProbeView {
    pub public_exists: bool,
    pub private_exists: bool,
    pub public_file: KeyFileView,
}

impl View for KeyProbe {
    type V = KeyProbeView;

    open spec fn view(&self) -> KeyProbeView {
        KeyProbeView {
            public_exists: self.public_exists,
            private_exists: self.private_exists,
            public_file: self.public_file@,
        }
    }
}

/// What the validation of the key pair of the public key at `path` gives:
/// the private key's path where both files exist and the public key names a
/// host; else the first of these that fails.
pub open spec fn validated_keys(path: Seq<char>, probe: KeyProbeView) -> Result<
    Seq<char>,
    Failure,
> {
    if !probe.public_exists {
        Err(Failure::SshKeyNotFound(path))
    } else if !probe.private_exists {
        Err(Failure::SshKeyNotFound(private_key_path(path)))
    } else {
        match extracted_hostname(path, probe.public_file) {
            Ok(_) => Ok(private_key_path(path)),
            Err(failure) => Err(failure),
        }
    }
}

/// Checks the key pair of the public key at `public_key_path` against what
/// was found on disk, and gives the private key's path.
pub fn validate_ssh_keys(public_key_path: &str, probe: &KeyProbe) -> (r: Result<
    String,
    DownloaderError,
>)
    ensures
        text_result(r) == validated_keys(public_key_path@, probe@),
{
    if !probe.public_exists {
        return Err(DownloaderError::SshKeyNotFound(public_key_path.to_owned()));
    }
    let private = match get_private_key_path(public_key_path) {
        Ok(path) => path,
        Err(failure) => {
            return Err(failure);
        },
    };
    if !probe.private_exists {
        return Err(DownloaderError::SshKeyNotFound(private));
    }
    match extract_hostname_from_public_key(public_key_path, &probe.public_file) {
        Ok(_) => Ok(private),
        Err(failure) => Err(failure),
    }
}

/// A failure reported by the transport.
#[derive(Debug, PartialEq, Eq)]
pub struct SshFailure {
    /// The transport's message, without its code.
    pub message: String,
    /// The failure as it is shown to the user.
    pub text: String,
}

/// The mathematical form of an `SshFailure`.
pub struct SshFailureView {
    pub message: Seq<char>,
    pub text: Seq<char>,
}

impl View for SshFailure {
    type V = SshFailureView;

    open spec fn view(&self) -> SshFailureView {
        SshFailureView { message: self.message@, text: self.text@ }
    }
}

/// The parameters of a session.
#[derive(Debug, PartialEq, Eq)]
pub struct Target {
    pub hostname: String,
    pub port: u16,
    pub username: String,
    pub ssh_key_path: String,
}

/// The mathematical form of a `Target`.
pub struct TargetView {
    pub hostname: Seq<char>,
    pub port: u16,
    pub username: Seq<char>,
    pub ssh_key_path: Seq<char>,
}

impl TargetView {
    /// The address to connect to: host, a colon, the port in decimal.
    pub open spec fn address(self) -> Seq<char> {
        self.hostname + ":"@ + decimal(self.port as nat)
    }
}

impl View for Target {
    type V = TargetView;

    open spec fn view(&self) -> TargetView {
        TargetView {
            hostname: self.hostname@,
            port: self.port,
            username: self.username@,
            ssh_key_path: self.ssh_key_path@,
        }
    }
}

impl Target {
    /// The address to connect to.
    pub fn address(&self) -> (text: String)
        ensures
            text@ == self@.address(),
    {
        let mut text = chain(self.hostname.as_str(), ":");
        let port = format_number(self.port as u32);
        text.append(port.as_str());
        text
    }
}

/// An open, authenticated session. A value of this type comes only from a
/// `Connection` that went through every step.
#[derive(Debug, PartialEq, Eq)]
pub struct SshClient {
    target: Target,
}

impl View for SshClient {
    type V = TargetView;

    closed spec fn view(&self) -> TargetView {
        self.target@
    }
}

/// Where the opening of a session stands.
#[derive(Debug, PartialEq, Eq)]
pub enum Connection {
    /// Find out whether there is a file at the key path.
    CheckKey { target: Target },
    /// Open a TCP connection to the target's address.
    OpenTcp { target: Target },
    /// Create the session object.
    CreateSession { target: Target },
    /// Run the transport handshake over the TCP connection.
    Handshake { target: Target },
    /// Authenticate with the user name and the private key.
    Authenticate { target: Target },
    /// The session is open; nothing follows.
    Ready(SshClient),
    /// The session could not be opened; nothing follows.
    Failed(DownloaderError),
}

/// The mathematical form of a `Connection`.
pub enum ConnectionView {
    CheckKey { target: TargetView },
    OpenTcp { target: TargetView },
    CreateSession { target: TargetView },
    Handshake { target: TargetView },
    Authenticate { target: TargetView },
    Ready(TargetView),
    Failed(Failure),
}

impl ConnectionView {
    /// Whether this state asks the application to use the network.
    pub open spec fn uses_network(self) -> bool {
        self is OpenTcp || self is Handshake || self is Authenticate
    }
}

impl View for Connection {
    type V = ConnectionView;

    open spec fn view(&self) -> ConnectionView {
        match self {
            Connection::CheckKey { target } => ConnectionView::CheckKey { target: target@ },
            Connection::OpenTcp { target } => ConnectionView::OpenTcp { target: target@ },
            Connection::CreateSession { target } => ConnectionView::CreateSession {
                target: target@,
            },
            Connection::Handshake { target } => ConnectionView::Handshake { target: target@ },
            Connection::Authenticate { target } => ConnectionView::Authenticate {
                target: target@,
            },
            Connection::Ready(client) => ConnectionView::Ready(client@),
            Connection::Failed(failure) => ConnectionView::Failed(failure@),
        }
    }
}

/// What the application hands in after a step of opening a session.
#[derive(Debug, PartialEq, Eq)]
pub enum ConnectEvent {
    /// Whether there is a file at the key path.
    KeyFound(bool),
    /// The step succeeded.
    Succeeded,
    /// The step failed, with this cause.
    Failed(String),
}

/// The mathematical form of a `ConnectEvent`.
pub enum ConnectEventView {
    KeyFound(bool),
    Succeeded,
    Failed(Seq<char>),
}

impl View for ConnectEvent {
    type V = ConnectEventView;

    open spec fn view(&self) -> ConnectEventView {
        match self {
            ConnectEvent::KeyFound(found) => ConnectEventView::KeyFound(*found),
            ConnectEvent::Succeeded => ConnectEventView::Succeeded,
            ConnectEvent::Failed(cause) => ConnectEventView::Failed(cause@),
        }
    }
}

/// The state that follows `state` on `event`. An event that the state does
/// not wait for changes nothing.
pub open spec fn next_connection(state: ConnectionView, event: ConnectEventView) -> ConnectionView {
    match state {
        ConnectionView::CheckKey { target } => match event {
            ConnectEventView::KeyFound(true) => ConnectionView::OpenTcp { target },
            ConnectEventView::KeyFound(false) => ConnectionView::Failed(
                Failure::SshKeyNotFound(target.ssh_key_path),
            ),
            _ => state,
        },
        ConnectionView::OpenTcp { target } => match event {
            ConnectEventView::Succeeded => ConnectionView::CreateSession { target },
            ConnectEventView::Failed(cause) => ConnectionView::Failed(
                Failure::ConnectionFailed(
                    "Failed to connect to "@ + target.address() + " - "@ + cause,
                ),
            ),
            _ => state,
        },
        ConnectionView::CreateSession { target } => match event {
            ConnectEventView::Succeeded => ConnectionView::Handshake { target },
            ConnectEventView::Failed(cause) => ConnectionView::Failed(Failure::SshError(cause)),
            _ => state,
        },
        ConnectionView::Handshake { target } => match event {
            ConnectEventView::Succeeded => ConnectionView::Authenticate { target },
            ConnectEventView::Failed(cause) => ConnectionView::Failed(
                Failure::ConnectionFailed("SSH handshake failed: "@ + cause),
            ),
            _ => state,
        },
        ConnectionView::Authenticate { target } => match event {
            ConnectEventView::Succeeded => ConnectionView::Ready(target),
            ConnectEventView::Failed(cause) => ConnectionView::Failed(
                Failure::ConnectionFailed("SSH authentication failed: "@ + cause),
            ),
            _ => state,
        },
        ConnectionView::Ready(_) => state,
        ConnectionView::Failed(_) => state,
    }
}

/// The state reached from `state` by `events`, in order.
pub open spec fn connection_after(
    state: ConnectionView,
    events: Seq<ConnectEventView>,
) -> ConnectionView
    decreases events.len(),
{
    if events.len() == 0 {
        state
    } else {
        next_connection(connection_after(state, events.drop_last()), events.last())
    }
}

impl Connection {
    /// Moves the opening of a session on by one event.
    pub fn advance(self, event: ConnectEvent) -> (next: Connection)
        ensures
            next@ == next_connection(self@, event@),
    {
        match self {
            Connection::CheckKey { target } => match event {
                ConnectEvent::KeyFound(true) => Connection::OpenTcp { target },
                ConnectEvent::KeyFound(false) => Connection::Failed(
                    DownloaderError::SshKeyNotFound(target.ssh_key_path),
                ),
                _ => Connection::CheckKey { target },
            },
            Connection::OpenTcp { target } => match event {
                ConnectEvent::Succeeded => Connection::CreateSession { target },
                ConnectEvent::Failed(cause) => {
                    let address = target.address();
                    let mut text = chain("Failed to connect to ", address.as_str());
                    text.append(" - ");
                    text.append(cause.as_str());
                    Connection::Failed(DownloaderError::ConnectionFailed(text))
                },
                _ => Connection::OpenTcp { target },
            },
            Connection::CreateSession { target } => match event {
                ConnectEvent::Succeeded => Connection::Handshake { target },
                ConnectEvent::Failed(cause) => Connection::Failed(DownloaderError::SshError(cause)),
                _ => Connection::CreateSession { target },
            },
            Connection::Handshake { target } => match event {
                ConnectEvent::Succeeded => Connection::Authenticate { target },
                ConnectEvent::Failed(cause) => Connection::Failed(
                    DownloaderError::ConnectionFailed(
                        chain("SSH handshake failed: ", cause.as_str()),
                    ),
                ),
                _ => Connection::Handshake { target },
            },
            Connection::Authenticate { target } => match event {
                ConnectEvent::Succeeded => Connection::Ready(SshClient { target }),
                ConnectEvent::Failed(cause) => Connection::Failed(
                    DownloaderError::ConnectionFailed(
                        chain("SSH authentication failed: ", cause.as_str()),
                    ),
                ),
                _ => Connection::Authenticate { target },
            },
            Connection::Ready(client) => Connection::Ready(client),
            Connection::Failed(failure) => Connection::Failed(failure),
        }
    }
}

/// What a remote stat gave.
#[derive(Debug, PartialEq, Eq)]
pub enum RemoteStat {
    /// The file channel could not be opened.
    NoChannel(SshFailure),
    /// The stat succeeded.
    Present,
    /// The stat failed.
    Refused(SshFailure),
}

/// The mathematical form of a `RemoteStat`.
pub enum RemoteStatView {
    NoChannel(SshFailureView),
    Present,
    Refused(SshFailureView),
}

impl View for RemoteStat {
    type V = RemoteStatView;

    open spec fn view(&self) -> RemoteStatView {
        match self {
            RemoteStat::NoChannel(failure) => RemoteStatView::NoChannel(failure@),
            RemoteStat::Present => RemoteStatView::Present,
            RemoteStat::Refused(failure) => RemoteStatView::Refused(failure@),
        }
    }
}

/// Whether a transport message says that a stat found nothing.
pub open spec fn says_not_found(message: Seq<char>) -> bool {
    contains_text(message, "No such file"@) || contains_text(message, "does not exist"@)
}

/// Whether a transport message says that the file to copy is not there.
pub open spec fn says_file_missing(message: Seq<char>) -> bool {
    contains_text(message, "File not found"@)
}

/// Whether the remote file exists, given what the stat gave: a failure that
/// says the file is not there is the answer no; any other failure is an
/// error.
pub open spec fn file_exists(stat: RemoteStatView) -> Result<bool, Failure> {
    match stat {
        RemoteStatView::NoChannel(failure) => Err(Failure::SshError(failure.text)),
        RemoteStatView::Present => Ok(true),
        RemoteStatView::Refused(failure) => if says_not_found(failure.message) {
            Ok(false)
        } else {
            Err(Failure::SshError(failure.text))
        },
    }
}

/// Where the copying of a remote file stands.
#[derive(Debug, PartialEq, Eq)]
pub enum Transfer {
    /// Open `remote_path` on the remote side for reading.
    OpenRemote { remote_path: String, local_path: String },
    /// Create the file at `local_path`, or empty it.
    CreateLocal { local_path: String },
    /// Read up to `CHUNK_SIZE` bytes of the remote file.
    Read,
    /// Write `chunk`, the bytes that were read, to the local file.
    Write { chunk: Vec<u8> },
    /// The whole file was copied; nothing follows.
    Done,
    /// The copy failed; nothing follows.
    Failed(DownloaderError),
}

/// The mathematical form of a `Transfer`.
pub enum TransferView {
    OpenRemote { remote_path: Seq<char>, local_path: Seq<char> },
    CreateLocal { local_path: Seq<char> },
    Read,
    Write { chunk: Seq<u8> },
    Done,
    Failed(Failure),
}

impl View for Transfer {
    type V = TransferView;

    open spec fn view(&self) -> TransferView {
        match self {
            Transfer::OpenRemote { remote_path, local_path } => TransferView::OpenRemote {
                remote_path: remote_path@,
                local_path: local_path@,
            },
            Transfer::CreateLocal { local_path } => TransferView::CreateLocal {
                local_path: local_path@,
            },
            Transfer::Read => TransferView::Read,
            Transfer::Write { chunk } => TransferView::Write { chunk: chunk@ },
            Transfer::Done => TransferView::Done,
            Transfer::Failed(failure) => TransferView::Failed(failure@),
        }
    }
}

/// What the application hands in after a step of a copy.
#[derive(Debug, PartialEq, Eq)]
pub enum TransferEvent {
    /// The remote file is open.
    Opened,
    /// The remote file could not be opened.
    OpenFailed(SshFailure),
    /// The local file is there and empty.
    Created,
    /// A read gave these bytes; none at the end of the file.
    Read(Vec<u8>),
    /// The bytes were written.
    Written,
    /// A local or remote read or write failed, with this cause.
    IoFailed(String),
}

/// The mathematical form of a `TransferEvent`.
pub enum TransferEventView {
    Opened,
    OpenFailed(SshFailureView),
    Created,
    Read(Seq<u8>),
    Written,
    IoFailed(Seq<char>),
}

impl View for TransferEvent {
    type V = TransferEventView;

    open spec fn view(&self) -> TransferEventView {
        match self {
            TransferEvent::Opened => TransferEventView::Opened,
            TransferEvent::OpenFailed(failure) => TransferEventView::OpenFailed(failure@),
            TransferEvent::Created => TransferEventView::Created,
            TransferEvent::Read(chunk) => TransferEventView::Read(chunk@),
            TransferEvent::Written => TransferEventView::Written,
            TransferEvent::IoFailed(cause) => TransferEventView::IoFailed(cause@),
        }
    }
}

/// The cause given where a read hands over more bytes than `CHUNK_SIZE`.
pub open spec fn oversized_read() -> Seq<char> {
    "read gave more bytes than were asked for"@
}

/// The state that follows `state` on `event`. A read that gives more bytes
/// than were asked for ends the copy with an I/O error, so that no byte is
/// passed over; any other event that the state does not wait for changes
/// nothing.
pub open spec fn next_transfer(state: TransferView, event: TransferEventView) -> TransferView {
    match state {
        TransferView::OpenRemote { remote_path, local_path } => match event {
            TransferEventView::Opened => TransferView::CreateLocal { local_path },
            TransferEventView::OpenFailed(failure) => TransferView::Failed(
                if says_file_missing(failure.message) {
                    Failure::RemoteFileNotFound(remote_path)
                } else {
                    Failure::SshError(failure.text)
                },
            ),
            _ => state,
        },
        TransferView::CreateLocal { local_path } => match event {
            TransferEventView::Created => TransferView::Read,
            TransferEventView::IoFailed(cause) => TransferView::Failed(Failure::IoError(cause)),
            _ => state,
        },
        TransferView::Read => match event {
            TransferEventView::Read(chunk) => if chunk.len() == 0 {
                TransferView::Done
            } else if chunk.len() <= CHUNK_SIZE {
                TransferView::Write { chunk }
            } else {
                TransferView::Failed(Failure::IoError(oversized_read()))
            },
            TransferEventView::IoFailed(cause) => TransferView::Failed(Failure::IoError(cause)),
            _ => state,
        },
        TransferView::Write { chunk } => match event {
            TransferEventView::Written => TransferView::Read,
            TransferEventView::IoFailed(cause) => TransferView::Failed(Failure::IoError(cause)),
            _ => state,
        },
        TransferView::Done => state,
        TransferView::Failed(_) => state,
    }
}

impl Transfer {
    /// Moves the copy on by one event.
    pub fn advance(self, event: TransferEvent) -> (next: Transfer)
        ensures
            next@ == next_transfer(self@, event@),
    {
        match self {
            Transfer::OpenRemote { remote_path, local_path } => match event {
                TransferEvent::Opened => Transfer::CreateLocal { local_path },
                TransferEvent::OpenFailed(failure) => {
                    if contains(failure.message.as_str(), "File not found") {
                        Transfer::Failed(DownloaderError::RemoteFileNotFound(remote_path))
                    } else {
                        Transfer::Failed(DownloaderError::SshError(failure.text))
                    }
                },
                _ => Transfer::OpenRemote { remote_path, local_path },
            },
            Transfer::CreateLocal { local_path } => match event {
                TransferEvent::Created => Transfer::Read,
                TransferEvent::IoFailed(cause) => Transfer::Failed(DownloaderError::IoError(cause)),
                _ => Transfer::CreateLocal { local_path },
            },
            Transfer::Read => match event {
                TransferEvent::Read(chunk) => if chunk.len() == 0 {
                    Transfer::Done
                } else if chunk.len() <= CHUNK_SIZE {
                    Transfer::Write { chunk }
                } else {
                    Transfer::Failed(
                        DownloaderError::IoError(
                            "read gave more bytes than were asked for".to_owned(),
                        ),
                    )
                },
                TransferEvent::IoFailed(cause) => Transfer::Failed(DownloaderError::IoError(cause)),
                _ => Transfer::Read,
            },
            Transfer::Write { chunk } => match event {
                TransferEvent::Written => Transfer::Read,
                TransferEvent::IoFailed(cause) => Transfer::Failed(DownloaderError::IoError(cause)),
                _ => Transfer::Write { chunk },
            },
            Transfer::Done => Transfer::Done,
            Transfer::Failed(failure) => Transfer::Failed(failure),
        }
    }
}

impl SshClient {
    /// Begins to open a session: the first thing asked for is whether the
    /// key file exists.
    pub fn connect(hostname: &str, port: u16, username: &str, ssh_key_path: &str) -> (state:
        Connection)
        ensures
            state@ == (ConnectionView::CheckKey {
                target: TargetView {
                    hostname: hostname@,
                    port,
                    username: username@,
                    ssh_key_path: ssh_key_path@,
                },
            }),
    {
        Connection::CheckKey {
            target: Target {
                hostname: hostname.to_owned(),
                port,
                username: username.to_owned(),
                ssh_key_path: ssh_key_path.to_owned(),
            },
        }
    }

    /// The parameters with which this session was opened.
    pub fn target(&self) -> (target: &Target)
        ensures
            target@ == self@,
    {
        &self.target
    }

    /// Whether the remote file exists, given what a stat of it gave.
    pub fn check_file_exists(&self, stat: RemoteStat) -> (r: Result<bool, DownloaderError>)
        ensures
            match r {
                Ok(found) => file_exists(stat@) == Ok::<bool, Failure>(found),
                Err(failure) => file_exists(stat@) == Err::<bool, Failure>(failure@),
            },
    {
        match stat {
            RemoteStat::NoChannel(failure) => Err(DownloaderError::SshError(failure.text)),
            RemoteStat::Present => Ok(true),
            RemoteStat::Refused(failure) => {
                if contains(failure.message.as_str(), "No such file") || contains(
                    failure.message.as_str(),
                    "does not exist",
                ) {
                    Ok(false)
                } else {
                    Err(DownloaderError::SshError(failure.text))
                }
            },
        }
    }

    /// Begins to copy `remote_path` to `local_path`: the first thing asked
    /// for is to open the remote file.
    pub fn download_file(&self, remote_path: &str, local_path: &str) -> (state: Transfer)
        ensures
            state@ == (TransferView::OpenRemote {
                remote_path: remote_path@,
                local_path: local_path@,
            }),
    {
        Transfer::OpenRemote {
            remote_path: remote_path.to_owned(),
            local_path: local_path.to_owned(),
        }
    }
}

/// The state reached from `state` by `events`, in order.
pub open spec fn transfer_after(state: TransferView, events: Seq<TransferEventView>) -> TransferView
    decreases events.len(),
{
    if events.len() == 0 {
        state
    } else {
        next_transfer(transfer_after(state, events.drop_last()), events.last())
    }
}

/// The bytes that the states reached by `events`, one after the other,
/// asked the application to write.
pub open spec fn bytes_to_write(state: TransferView, events: Seq<TransferEventView>) -> Seq<u8>
    decreases events.len(),
{
    if events.len() == 0 {
        Seq::empty()
    } else {
        let before = transfer_after(state, events.drop_last());
        let after = next_transfer(before, events.last());
        let earlier = bytes_to_write(state, events.drop_last());
        if after is Write && !(before is Write) {
            earlier + after->chunk
        } else {
            earlier
        }
    }
}

/// What happens while a file of the given chunks is copied without
/// failure: the remote file is opened, the local file created, and each
/// chunk is read and then written.
pub open spec fn copy_events(chunks: Seq<Seq<u8>>) -> Seq<TransferEventView>
    decreases chunks.len(),
{
    if chunks.len() == 0 {
        seq![TransferEventView::Opened, TransferEventView::Created]
    } else {
        copy_events(chunks.drop_last()) + seq![
            TransferEventView::Read(chunks.last()),
            TransferEventView::Written,
        ]
    }
}

/// The bytes of `chunks`, one chunk after the other.
pub open spec fn all_bytes(chunks: Seq<Seq<u8>>) -> Seq<u8>
    decreases chunks.len(),
{
    if chunks.len() == 0 {
        Seq::empty()
    } else {
        all_bytes(chunks.drop_last()) + chunks.last()
    }
}

/// A file that arrives in chunks of one to `CHUNK_SIZE` bytes is copied
/// whole: after each chunk was read and written the copy waits for the next
/// read, the bytes it asked to write are the bytes of the chunks in order,
/// and an empty read then ends it.
pub proof fn lemma_copy_keeps_every_byte(
    remote_path: Seq<char>,
    local_path: Seq<char>,
    chunks: Seq<Seq<u8>>,
)
    requires
        forall|i: int| 0 <= i < chunks.len() ==> 0 < (#[trigger] chunks[i]).len() <= CHUNK_SIZE,
    ensures
        transfer_after(
            TransferView::OpenRemote { remote_path, local_path },
            copy_events(chunks),
        ) == TransferView::Read,
        bytes_to_write(TransferView::OpenRemote { remote_path, local_path }, copy_events(chunks))
            == all_bytes(chunks),
        transfer_after(
            TransferView::OpenRemote { remote_path, local_path },
            copy_events(chunks).push(TransferEventView::Read(Seq::empty())),
        ) == TransferView::Done,
        bytes_to_write(
            TransferView::OpenRemote { remote_path, local_path },
            copy_events(chunks).push(TransferEventView::Read(Seq::empty())),
        ) == all_bytes(chunks),
    decreases chunks.len(),
{
    let start = TransferView::OpenRemote { remote_path, local_path };
    let events = copy_events(chunks);
    if chunks.len() == 0 {
        let first = seq![TransferEventView::Opened];
        assert(events.drop_last() == first);
        let none = Seq::<TransferEventView>::empty();
        assert(first.drop_last() == none);
        assert(transfer_after(start, none) == start);
        assert(bytes_to_write(start, none) == Seq::<u8>::empty());
        assert(transfer_after(start, first) == TransferView::CreateLocal { local_path });
        assert(bytes_to_write(start, first) == Seq::<u8>::empty());
    } else {
        let front = chunks.drop_last();
        let chunk = chunks.last();
        assert forall|i: int| 0 <= i < front.len() implies 0 < (#[trigger] front[i]).len()
            <= CHUNK_SIZE by {
            assert(front[i] == chunks[i]);
        }
        lemma_copy_keeps_every_byte(remote_path, local_path, front);
        let earlier = copy_events(front);
        let read = earlier.push(TransferEventView::Read(chunk));
        assert(events == read.push(TransferEventView::Written));
        assert(events.drop_last() == read);
        assert(read.drop_last() == earlier);
        assert(transfer_after(start, read) == TransferView::Write { chunk });
        assert(bytes_to_write(start, read) == all_bytes(front) + chunk);
    }
    let end = events.push(TransferEventView::Read(Seq::empty()));
    assert(end.drop_last() == events);
}

/// A local or remote failure while the local file is made, a chunk is read
/// or a chunk is written ends the copy with an I/O error that carries the
/// cause; a copy that has ended stays as it is.
pub proof fn lemma_failure_ends_the_copy(state: TransferView, event: TransferEventView)
    ensures
        (state is CreateLocal || state is Read || state is Write) && event is IoFailed
            ==> next_transfer(state, event) == TransferView::Failed(
            Failure::IoError(event->IoFailed_0),
        ),
        state is Done || state is Failed ==> next_transfer(state, event) == state,
{
}

/// Where the key file is missing, opening a session fails with
/// `SshKeyNotFound` for the key path, whatever the application hands in
/// afterwards, and no state on the way asks for the network.
pub proof fn lemma_missing_key_fails_before_network(
    target: TargetView,
    events: Seq<ConnectEventView>,
)
    requires
        events.len() > 0,
        events[0] == ConnectEventView::KeyFound(false),
    ensures
        connection_after(ConnectionView::CheckKey { target }, events) == ConnectionView::Failed(
            Failure::SshKeyNotFound(target.ssh_key_path),
        ),
        forall|k: int|
            0 <= k <= events.len() ==> !(#[trigger] connection_after(
                ConnectionView::CheckKey { target },
                events.take(k),
            )).uses_network(),
    decreases events.len(),
{
    let start = ConnectionView::CheckKey { target };
    if events.len() == 1 {
        assert(events.drop_last().len() == 0);
    } else {
        let shorter = events.drop_last();
        lemma_missing_key_fails_before_network(target, shorter);
    }
    assert forall|k: int| 0 <= k <= events.len() implies !(#[trigger] connection_after(
        start,
        events.take(k),
    )).uses_network() by {
        if k == events.len() {
            assert(events.take(k) == events);
        } else if k == 0 {
            assert(events.take(0).len() == 0);
        } else {
            let shorter = events.drop_last();
            assert(shorter.take(k) == events.take(k));
        }
    }
}

/// A session is ready only after the key file was found and the TCP
/// connection, the session object, the handshake and the authentication
/// each succeeded, in that order.
pub proof fn lemma_ready_takes_every_step(state: ConnectionView, event: ConnectEventView)
    ensures
        next_connection(state, event) is Ready && !(state is Ready) ==> state is Authenticate
            && event is Succeeded,
        next_connection(state, event) is Authenticate && !(state is Authenticate) ==> state
            is Handshake && event is Succeeded,
        next_connection(state, event) is Handshake && !(state is Handshake) ==> state
            is CreateSession && event is Succeeded,
        next_connection(state, event) is CreateSession && !(state is CreateSession) ==> state
            is OpenTcp && event is Succeeded,
        next_connection(state, event) is OpenTcp && !(state is OpenTcp) ==> state is CheckKey
            && event == ConnectEventView::KeyFound(true),
{
}

} // verus!
