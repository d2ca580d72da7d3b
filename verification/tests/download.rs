use download_from_server::config::{Config, ServerConfig};
use download_from_server::download::{
    download_file, parse_location_choice, resolve_destination, Download, DownloadEvent,
    LocationChoice, Stage,
};
use download_from_server::error::DownloaderError;

fn server() -> ServerConfig {
    ServerConfig {
        hostname: "example.org".to_string(),
        username: "alice".to_string(),
        ssh_key_path: "/k".to_string(),
        port: 22,
        created_at: "2024-05-01T10:00:00+00:00".to_string(),
    }
}

fn store() -> Config {
    let mut store = Config::new();
    store.add_server("web".to_string(), server()).unwrap();
    store
}

fn begin(destination: Option<&str>) -> Download {
    download_file(&store(), "web", "/a/b/file.txt".to_string(), destination.map(|d| d.to_string()))
}

fn checked(destination: Option<&str>) -> Download {
    begin(destination).advance(DownloadEvent::Connected).advance(DownloadEvent::RemoteChecked(true))
}

fn choice(answer: &str, home: Option<&str>) -> DownloadEvent {
    DownloadEvent::Choice { answer: answer.to_string(), home: home.map(|h| h.to_string()) }
}

#[test]
fn destination_in_an_existing_directory_gets_the_file_name() {
    assert_eq!(resolve_destination("/tmp/out", true, "file.txt"), "/tmp/out/file.txt");
    assert_eq!(resolve_destination("/tmp/out/", true, "file.txt"), "/tmp/out/file.txt");
    assert_eq!(resolve_destination(".", true, "file.txt"), "./file.txt");
}

#[test]
fn destination_that_is_no_directory_is_taken_verbatim() {
    assert_eq!(resolve_destination("/tmp/out.txt", false, "file.txt"), "/tmp/out.txt");
    assert_eq!(resolve_destination("out dir/", false, "file.txt"), "out dir/");
    assert_eq!(resolve_destination("", false, "file.txt"), "");
}

#[test]
fn location_answers() {
    assert_eq!(parse_location_choice("1"), LocationChoice::CurrentDirectory);
    assert_eq!(parse_location_choice("2"), LocationChoice::Desktop);
    assert_eq!(parse_location_choice(" 3\n"), LocationChoice::Downloads);
    assert_eq!(parse_location_choice("4"), LocationChoice::Custom);
    for answer in ["", "5", "0", "22", "two", "2 2", "x"] {
        assert_eq!(parse_location_choice(answer), LocationChoice::CurrentDirectory);
    }
}

#[test]
fn an_unknown_alias_fails_at_once() {
    let download = download_file(&store(), "db", "/a/b/file.txt".to_string(), None);
    assert_eq!(download.remote_path, "/a/b/file.txt");
    assert_eq!(download.stage, Stage::Failed(DownloaderError::ServerNotFound("db".to_string())));
}

#[test]
fn a_known_alias_leads_to_a_connection_with_its_profile() {
    let download = begin(Some("/tmp"));
    assert_eq!(download.stage, Stage::Connect { server: server(), destination: Some("/tmp".to_string()) });
    let download = download.advance(DownloadEvent::Connected);
    assert_eq!(download.stage, Stage::CheckRemote { destination: Some("/tmp".to_string()) });
    assert_eq!(download.remote_path, "/a/b/file.txt");
}

#[test]
fn a_missing_remote_file_fails_the_download() {
    let download = begin(None).advance(DownloadEvent::Connected).advance(DownloadEvent::RemoteChecked(false));
    assert_eq!(download.stage, Stage::Failed(DownloaderError::RemoteFileNotFound("/a/b/file.txt".to_string())));
}

#[test]
fn a_given_destination_is_used_without_asking() {
    let download = checked(Some("/tmp/out"));
    assert_eq!(
        download.stage,
        Stage::ProbeDirectory { path: "/tmp/out".to_string(), file_name: "file.txt".to_string(), confirm: false }
    );
    let download = download.advance(DownloadEvent::IsDirectory(true));
    assert_eq!(download.stage, Stage::Transfer { local_path: "/tmp/out/file.txt".to_string() });
    let download = download.advance(DownloadEvent::Transferred);
    assert_eq!(download.stage, Stage::Done { local_path: "/tmp/out/file.txt".to_string() });

    let download = checked(Some("/tmp/copy.txt")).advance(DownloadEvent::IsDirectory(false));
    assert_eq!(download.stage, Stage::Transfer { local_path: "/tmp/copy.txt".to_string() });
}

#[test]
fn without_a_destination_the_user_picks_a_location() {
    let download = checked(None);
    assert_eq!(download.stage, Stage::ChooseLocation { file_name: "file.txt".to_string() });
    assert_eq!(
        checked(None).advance(choice("1", Some("/home/alice"))).stage,
        Stage::Confirm { local_path: "file.txt".to_string() }
    );
    assert_eq!(
        checked(None).advance(choice("2", Some("/home/alice"))).stage,
        Stage::Confirm { local_path: "/home/alice/Desktop/file.txt".to_string() }
    );
    assert_eq!(
        checked(None).advance(choice("3", Some("/home/alice"))).stage,
        Stage::Confirm { local_path: "/home/alice/Downloads/file.txt".to_string() }
    );
    assert_eq!(
        checked(None).advance(choice("3", None)).stage,
        Stage::Confirm { local_path: "/Downloads/file.txt".to_string() }
    );
    assert_eq!(
        checked(None).advance(choice("9", Some("/home/alice"))).stage,
        Stage::Confirm { local_path: "file.txt".to_string() }
    );
}

#[test]
fn a_custom_path_is_probed_and_then_confirmed() {
    let download = checked(None).advance(choice("4", Some("/home/alice")));
    assert_eq!(download.stage, Stage::AskCustomPath { file_name: "file.txt".to_string() });
    let download = download.advance(DownloadEvent::CustomPath("/srv/in".to_string()));
    assert_eq!(
        download.stage,
        Stage::ProbeDirectory { path: "/srv/in".to_string(), file_name: "file.txt".to_string(), confirm: true }
    );
    let download = download.advance(DownloadEvent::IsDirectory(true));
    assert_eq!(download.stage, Stage::Confirm { local_path: "/srv/in/file.txt".to_string() });
    let download = download.advance(DownloadEvent::Proceed(true));
    assert_eq!(download.stage, Stage::Transfer { local_path: "/srv/in/file.txt".to_string() });
}

#[test]
fn saying_no_cancels_the_download() {
    let download = checked(None).advance(choice("1", None)).advance(DownloadEvent::Proceed(false));
    assert_eq!(download.stage, Stage::Cancelled);
    assert_eq!(download.advance(DownloadEvent::Transferred).stage, Stage::Cancelled);
}

#[test]
fn a_remote_path_without_a_file_name_stops_the_download() {
    for remote in ["/", "/a/b/..", ""] {
        let download = download_file(&store(), "web", remote.to_string(), None)
            .advance(DownloadEvent::Connected)
            .advance(DownloadEvent::RemoteChecked(true));
        assert_eq!(download.stage, Stage::Unnamed);
    }
}

#[test]
fn a_failure_ends_the_download_from_any_stage() {
    let failure = DownloaderError::ConnectionFailed("SSH handshake failed: x".to_string());
    assert_eq!(begin(None).advance(DownloadEvent::Failed(failure.clone())).stage, Stage::Failed(failure.clone()));
    let io = DownloaderError::IoError("disk full".to_string());
    let download = checked(Some("/tmp")).advance(DownloadEvent::IsDirectory(true)).advance(DownloadEvent::Failed(io.clone()));
    assert_eq!(download.stage, Stage::Failed(io.clone()));
    assert_eq!(download.advance(DownloadEvent::Failed(failure)).stage, Stage::Failed(io));
    let done = checked(Some("/tmp")).advance(DownloadEvent::IsDirectory(true)).advance(DownloadEvent::Transferred);
    assert_eq!(
        done.advance(DownloadEvent::Failed(DownloaderError::HomeDirectoryNotFound)).stage,
        Stage::Done { local_path: "/tmp/file.txt".to_string() }
    );
}

#[test]
fn download_events_out_of_turn_change_nothing() {
    assert_eq!(
        begin(None).advance(DownloadEvent::Transferred).stage,
        Stage::Connect { server: server(), destination: None }
    );
    assert_eq!(
        checked(None).advance(DownloadEvent::Proceed(true)).stage,
        Stage::ChooseLocation { file_name: "file.txt".to_string() }
    );
}
