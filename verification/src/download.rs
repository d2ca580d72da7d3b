//! The download command, as a state machine, and the rules by which the
//! local destination of the file is chosen.
//!
//! The application does what a stage asks for and hands the outcome in as
//! an event; the stage that comes back says what to do next.

use vstd::prelude::*;
use crate::config::{Config, ServerConfig, ServerProfile};
use crate::error::{DownloaderError, Failure};
use crate::paths::{file_name, join, joined, last_component};
use crate::text::{chars_of, chain3, text_of, trimmed, trimmed_bounds};

verus! {

/// Where the user wants the file when no destination was given.
#[derive(Debug, Clone, Copy, PartialEq, Eq, Structural)]
pub enum LocationChoice {
    CurrentDirectory,
    Desktop,
    Downloads,
    Custom,
}

/// The location that an answer stands for: `2`, `3` and `4`, with
/// whitespace around them ignored, pick the desktop, the downloads folder
/// and a custom path; anything else picks the current directory.
pub open spec fn chosen_location(answer: Seq<char>) -> LocationChoice {
    let t = trimmed(answer);
    if t == seq!['2'] {
        LocationChoice::Desktop
    } else if t == seq!['3'] {
        LocationChoice::Downloads
    } else if t == seq!['4'] {
        LocationChoice::Custom
    } else {
        LocationChoice::CurrentDirectory
    }
}

/// The location that the user's answer stands for.
pub fn parse_location_choice(answer: &str) -> (choice: LocationChoice)
    ensures
        choice == chosen_location(answer@),
{
    let chars = chars_of(answer);
    let (start, end) = trimmed_bounds(&chars);
    let ghost t = trimmed(answer@);
    assert(forall|k: int| 0 <= k < t.len() ==> t[k] == chars@[start + k]);
    proof {
        assert(seq!['2'].len() == 1 && seq!['2'][0] == '2');
        assert(seq!['3'].len() == 1 && seq!['3'][0] == '3');
        assert(seq!['4'].len() == 1 && seq!['4'][0] == '4');
    }
    if end - start != 1 {
        assert(t.len() != 1);
        LocationChoice::CurrentDirectory
    } else if chars[start] == '2' {
        assert(t == seq!['2']);
        LocationChoice::Desktop
    } else if chars[start] == '3' {
        assert(t == seq!['3']);
        LocationChoice::Downloads
    } else if chars[start] == '4' {
        assert(t == seq!['4']);
        LocationChoice::Custom
    } else {
        assert(t[0] != '2' && t[0] != '3' && t[0] != '4');
        LocationChoice::CurrentDirectory
    }
}

/// The local path for a file named `name` when the user pointed at
/// `destination`: inside it where it is an existing directory, else
/// `destination` itself.
pub open spec fn resolved_destination(
    destination: Seq<char>,
    is_directory: bool,
    name: Seq<char>,
) -> Seq<char> {
    if is_directory {
        joined(destination, name)
    } else {
        destination
    }
}

/// The local path for a file named `name` when the user pointed at
/// `destination`.
pub fn resolve_destination(destination: &str, is_directory: bool, name: &str) -> (path: String)
    ensures
        path@ == resolved_destination(destination@, is_directory, name@),
{
    if is_directory {
        join(destination, name)
    } else {
        destination.to_owned()
    }
}

/// The local path for a file named `name` in one of the folders that the
/// user can pick without typing a path. `home` is the home directory that
/// the environment names, if it names one.
pub open spec fn preset_destination(
    choice: LocationChoice,
    home: Option<Seq<char>>,
    name: Seq<char>,
) -> Seq<char> {
    let base = match home {
        Some(dir) => dir,
        None => Seq::empty(),
    };
    match choice {
        LocationChoice::Desktop => base + "/Desktop/"@ + name,
        LocationChoice::Downloads => base + "/Downloads/"@ + name,
        _ => name,
    }
}

/// What the application is asked to do at one point of a download.
#[derive(Debug, PartialEq, Eq)]
pub enum Stage {
    /// Open a session with `server`.
    Connect { server: ServerConfig, destination: Option<String> },
    /// Ask the remote side whether the remote path exists.
    CheckRemote { destination: Option<String> },
    /// Find out whether `path` is an existing directory.
    ProbeDirectory { path: String, file_name: String, confirm: bool },
    /// Ask the user to pick one of the four locations.
    ChooseLocation { file_name: String },
    /// Ask the user for a path.
    AskCustomPath { file_name: String },
    /// Show both paths and ask whether to go on.
    Confirm { local_path: String },
    /// Copy the remote file to `local_path`.
    Transfer { local_path: String },
    /// Report that the file is at `local_path`; nothing follows.
    Done { local_path: String },
    /// The user did not go on; nothing follows.
    Cancelled,
    /// The remote path names no file; nothing follows.
    Unnamed,
    /// The command failed; nothing follows.
    Failed(DownloaderError),
}

/// The mathematical form of a `Stage`.
pub enum StageView {
    Connect { server: ServerProfile, destination: Option<Seq<char>> },
    CheckRemote { destination: Option<Seq<char>> },
    ProbeDirectory { path: Seq<char>, file_name: Seq<char>, confirm: bool },
    ChooseLocation { file_name: Seq<char> },
    AskCustomPath { file_name: Seq<char> },
    Confirm { local_path: Seq<char> },
    Transfer { local_path: Seq<char> },
    Done { local_path: Seq<char> },
    Cancelled,
    Unnamed,
    Failed(Failure),
}

impl StageView {
    /// Whether nothing follows this stage.
    pub open spec fn is_final(self) -> bool {
        self is Done || self is Cancelled || self is Unnamed || self is Failed
    }
}

impl View for Stage {
    type V = StageView;

    open spec fn view(&self) -> StageView {
        match self {
            Stage::Connect { server, destination } => StageView::Connect {
                server: server@,
                destination: text_of(*destination),
            },
            Stage::CheckRemote { destination } => StageView::CheckRemote {
                destination: text_of(*destination),
            },
            Stage::ProbeDirectory { path, file_name, confirm } => StageView::ProbeDirectory {
                path: path@,
                file_name: file_name@,
                confirm: *confirm,
            },
            Stage::ChooseLocation { file_name } => StageView::ChooseLocation {
                file_name: file_name@,
            },
            Stage::AskCustomPath { file_name } => StageView::AskCustomPath { file_name: file_name@ },
            Stage::Confirm { local_path } => StageView::Confirm { local_path: local_path@ },
            Stage::Transfer { local_path } => StageView::Transfer { local_path: local_path@ },
            Stage::Done { local_path } => StageView::Done { local_path: local_path@ },
            Stage::Cancelled => StageView::Cancelled,
            Stage::Unnamed => StageView::Unnamed,
            Stage::Failed(failure) => StageView::Failed(failure@),
        }
    }
}

/// What the application hands in after doing what a stage asked for.
#[derive(Debug, PartialEq, Eq)]
pub enum DownloadEvent {
    /// The session is open.
    Connected,
    /// Whether the remote path exists.
    RemoteChecked(bool),
    /// Whether the probed path is an existing directory.
    IsDirectory(bool),
    /// The user's pick of a location, as typed, and the home directory that
    /// the environment names.
    Choice { answer: String, home: Option<String> },
    /// The path that the user typed.
    CustomPath(String),
    /// The user's answer to whether to go on.
    Proceed(bool),
    /// The file was copied.
    Transferred,
    /// What the stage asked for failed.
    Failed(DownloaderError),
}

/// The mathematical form of a `DownloadEvent`.
pub enum DownloadEventView {
    Connected,
    RemoteChecked(bool),
    IsDirectory(bool),
    Choice { answer: Seq<char>, home: Option<Seq<char>> },
    CustomPath(Seq<char>),
    Proceed(bool),
    Transferred,
    Failed(Failure),
}

impl View for DownloadEvent {
    type V = DownloadEventView;

    open spec fn view(&self) -> DownloadEventView {
        match self {
            DownloadEvent::Connected => DownloadEventView::Connected,
            DownloadEvent::RemoteChecked(found) => DownloadEventView::RemoteChecked(*found),
            DownloadEvent::IsDirectory(yes) => DownloadEventView::IsDirectory(*yes),
            DownloadEvent::Choice { answer, home } => DownloadEventView::Choice {
                answer: answer@,
                home: text_of(*home),
            },
            DownloadEvent::CustomPath(path) => DownloadEventView::CustomPath(path@),
            DownloadEvent::Proceed(yes) => DownloadEventView::Proceed(*yes),
            DownloadEvent::Transferred => DownloadEventView::Transferred,
            DownloadEvent::Failed(failure) => DownloadEventView::Failed(failure@),
        }
    }
}

/// The stage in which a download of `remote_path` from the server stored
/// under `alias` begins.
pub open spec fn first_stage(
    store: Map<Seq<char>, ServerProfile>,
    alias: Seq<char>,
    destination: Option<Seq<char>>,
) -> StageView {
    if store.contains_key(alias) {
        StageView::Connect { server: store[alias], destination }
    } else {
        StageView::Failed(Failure::ServerNotFound(alias))
    }
}

/// The stage that follows once the remote file is known to exist.
pub open spec fn stage_after_check(
    remote_path: Seq<char>,
    destination: Option<Seq<char>>,
) -> StageView {
    match file_name(remote_path) {
        None => StageView::Unnamed,
        Some(name) => match destination {
            Some(path) => StageView::ProbeDirectory { path, file_name: name, confirm: false },
            None => StageView::ChooseLocation { file_name: name },
        },
    }
}

/// The stage that follows `stage` on `event` in a download of `remote_path`.
/// A failure ends the download from every stage that is not final; any other
/// event that the stage does not wait for changes nothing.
pub open spec fn next_stage(
    remote_path: Seq<char>,
    stage: StageView,
    event: DownloadEventView,
) -> StageView {
    if stage.is_final() {
        stage
    } else if event is Failed {
        StageView::Failed(event->Failed_0)
    } else {
        match stage {
            StageView::Connect { server, destination } => match event {
                DownloadEventView::Connected => StageView::CheckRemote { destination },
                _ => stage,
            },
            StageView::CheckRemote { destination } => match event {
                DownloadEventView::RemoteChecked(true) => stage_after_check(
                    remote_path,
                    destination,
                ),
                DownloadEventView::RemoteChecked(false) => StageView::Failed(
                    Failure::RemoteFileNotFound(remote_path),
                ),
                _ => stage,
            },
            StageView::ProbeDirectory { path, file_name, confirm } => match event {
                DownloadEventView::IsDirectory(yes) => {
                    let local_path = resolved_destination(path, yes, file_name);
                    if confirm {
                        StageView::Confirm { local_path }
                    } else {
                        StageView::Transfer { local_path }
                    }
                },
                _ => stage,
            },
            StageView::ChooseLocation { file_name } => match event {
                DownloadEventView::Choice { answer, home } => {
                    let choice = chosen_location(answer);
                    if choice == LocationChoice::Custom {
                        StageView::AskCustomPath { file_name }
                    } else {
                        StageView::Confirm {
                            local_path: preset_destination(choice, home, file_name),
                        }
                    }
                },
                _ => stage,
            },
            StageView::AskCustomPath { file_name } => match event {
                DownloadEventView::CustomPath(path) => StageView::ProbeDirectory {
                    path,
                    file_name,
                    confirm: true,
                },
                _ => stage,
            },
            StageView::Confirm { local_path } => match event {
                DownloadEventView::Proceed(true) => StageView::Transfer { local_path },
                DownloadEventView::Proceed(false) => StageView::Cancelled,
                _ => stage,
            },
            StageView::Transfer { local_path } => match event {
                DownloadEventView::Transferred => StageView::Done { local_path },
                _ => stage,
            },
            _ => stage,
        }
    }
}

/// One run of the download command.
#[derive(Debug, PartialEq, Eq)]
pub struct Download {
    pub remote_path: String,
    pub stage: Stage,
}

/// The mathematical form of a `Download`.
pub struct DownloadView {
    pub remote_path: Seq<char>,
    pub stage: StageView,
}

impl View for Download {
    type V = DownloadView;

    open spec fn view(&self) -> DownloadView {
        DownloadView { remote_path: self.remote_path@, stage: self.stage@ }
    }
}

/// Begins a download of `remote_path` from the server stored under `alias`,
/// to `destination` where one is given.
pub fn download_file(
    store: &Config,
    alias: &str,
    remote_path: String,
    destination: Option<String>,
) -> (download: Download)
    ensures
        download@.remote_path == remote_path@,
        download@.stage == first_stage(store@, alias@, text_of(destination)),
{
    match store.get_server(alias) {
        Ok(server) => Download {
            remote_path,
            stage: Stage::Connect { server: server.clone(), destination },
        },
        Err(failure) => Download { remote_path, stage: Stage::Failed(failure) },
    }
}

impl Download {
    /// Moves the download on by one event.
    pub fn advance(self, event: DownloadEvent) -> (next: Download)
        ensures
            next@.remote_path == self@.remote_path,
            next@.stage == next_stage(self@.remote_path, self@.stage, event@),
    {
        let Download { remote_path, stage } = self;
        let stage = match stage {
            Stage::Done { local_path } => Stage::Done { local_path },
            Stage::Cancelled => Stage::Cancelled,
            Stage::Unnamed => Stage::Unnamed,
            Stage::Failed(failure) => Stage::Failed(failure),
            stage => match event {
                DownloadEvent::Failed(failure) => Stage::Failed(failure),
                event => Self::follow(remote_path.as_str(), stage, event),
            },
        };
        Download { remote_path, stage }
    }

    /// The stage after `stage` on an event that is no failure.
    fn follow(remote_path: &str, stage: Stage, event: DownloadEvent) -> (next: Stage)
        requires
            !stage@.is_final(),
            !(event@ is Failed),
        ensures
            next@ == next_stage(remote_path@, stage@, event@),
    {
        match stage {
            Stage::Connect { server, destination } => match event {
                DownloadEvent::Connected => Stage::CheckRemote { destination },
                _ => Stage::Connect { server, destination },
            },
            Stage::CheckRemote { destination } => match event {
                DownloadEvent::RemoteChecked(true) => match last_component(remote_path) {
                    None => Stage::Unnamed,
                    Some(file_name) => match destination {
                        Some(path) => Stage::ProbeDirectory { path, file_name, confirm: false },
                        None => Stage::ChooseLocation { file_name },
                    },
                },
                DownloadEvent::RemoteChecked(false) => Stage::Failed(
                    DownloaderError::RemoteFileNotFound(remote_path.to_owned()),
                ),
                _ => Stage::CheckRemote { destination },
            },
            Stage::ProbeDirectory { path, file_name, confirm } => match event {
                DownloadEvent::IsDirectory(yes) => {
                    let local_path = resolve_destination(path.as_str(), yes, file_name.as_str());
                    if confirm {
                        Stage::Confirm { local_path }
                    } else {
                        Stage::Transfer { local_path }
                    }
                },
                _ => Stage::ProbeDirectory { path, file_name, confirm },
            },
            Stage::ChooseLocation { file_name } => match event {
                DownloadEvent::Choice { answer, home } => {
                    let base = match home {
                        Some(dir) => dir,
                        None => String::new(),
                    };
                    match parse_location_choice(answer.as_str()) {
                        LocationChoice::Custom => Stage::AskCustomPath { file_name },
                        LocationChoice::Desktop => Stage::Confirm {
                            local_path: chain3(base.as_str(), "/Desktop/", file_name.as_str()),
                        },
                        LocationChoice::Downloads => Stage::Confirm {
                            local_path: chain3(base.as_str(), "/Downloads/", file_name.as_str()),
                        },
                        LocationChoice::CurrentDirectory => Stage::Confirm {
                            local_path: file_name,
                        },
                    }
                },
                _ => Stage::ChooseLocation { file_name },
            },
            Stage::AskCustomPath { file_name } => match event {
                DownloadEvent::CustomPath(path) => Stage::ProbeDirectory {
                    path,
                    file_name,
                    confirm: true,
                },
                _ => Stage::AskCustomPath { file_name },
            },
            Stage::Confirm { local_path } => match event {
                DownloadEvent::Proceed(true) => Stage::Transfer { local_path },
                DownloadEvent::Proceed(false) => Stage::Cancelled,
                _ => Stage::Confirm { local_path },
            },
            Stage::Transfer { local_path } => match event {
                DownloadEvent::Transferred => Stage::Done { local_path },
                _ => Stage::Transfer { local_path },
            },
            stage => stage,
        }
    }
}

/// A destination that is no existing directory is taken as the path of the
/// file, letter for letter; one that is an existing directory gets the
/// file's name put under it.
pub proof fn lemma_destination_resolution(destination: Seq<char>, name: Seq<char>)
    ensures
        resolved_destination(destination, false, name) == destination,
        resolved_destination(destination, true, name) == joined(destination, name),
        destination.len() > 0 && destination.last() != '/' && (name.len() == 0 || name[0] != '/')
            ==> resolved_destination(destination, true, name) == destination + seq!['/'] + name,
{
}

/// With a destination given on the command line, a remote file that exists
/// and has a name is copied without asking: to the destination itself where
/// that is no existing directory, and under it where it is one.
pub proof fn lemma_given_destination_is_used(
    remote_path: Seq<char>,
    destination: Seq<char>,
    is_directory: bool,
)
    requires
        file_name(remote_path) is Some,
    ensures
        next_stage(
            remote_path,
            next_stage(
                remote_path,
                StageView::CheckRemote { destination: Some(destination) },
                DownloadEventView::RemoteChecked(true),
            ),
            DownloadEventView::IsDirectory(is_directory),
        ) == (StageView::Transfer {
            local_path: if is_directory {
                joined(destination, file_name(remote_path)->0)
            } else {
                destination
            },
        }),
{
}

/// A download whose remote file is missing fails before any destination is
/// asked for or any byte is copied.
pub proof fn lemma_missing_remote_file_fails(remote_path: Seq<char>, destination: Option<Seq<char>>)
    ensures
        next_stage(
            remote_path,
            StageView::CheckRemote { destination },
            DownloadEventView::RemoteChecked(false),
        ) == StageView::Failed(Failure::RemoteFileNotFound(remote_path)),
{
}

/// A final stage is never left.
pub proof fn lemma_final_stages_stay(
    remote_path: Seq<char>,
    stage: StageView,
    event: DownloadEventView,
)
    requires
        stage.is_final(),
    ensures
        next_stage(remote_path, stage, event) == stage,
{
}

} // verus!
