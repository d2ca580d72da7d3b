use download_from_server::config::{Config, ServerConfig};
use download_from_server::error::DownloaderError;

fn profile(host: &str, port: u16) -> ServerConfig {
    ServerConfig {
        hostname: host.to_string(),
        username: "alice".to_string(),
        ssh_key_path: "/home/alice/.ssh/id_rsa".to_string(),
        port,
        created_at: "2024-05-01T10:00:00+00:00".to_string(),
    }
}

#[test]
fn new_store_is_empty() {
    let store = Config::new();
    assert!(store.is_empty());
    assert!(store.list_servers().is_empty());
    assert!(!store.contains_key("web"));
}

#[test]
fn get_and_remove_of_unknown_alias_fail() {
    let mut store = Config::new();
    store.add_server("web".to_string(), profile("example.org", 22)).unwrap();
    assert_eq!(
        store.get_server("db"),
        Err(DownloaderError::ServerNotFound("db".to_string()))
    );
    assert_eq!(
        store.remove_server("db"),
        Err(DownloaderError::ServerNotFound("db".to_string()))
    );
    assert!(store.contains_key("web"));
    assert_eq!(store.list_servers().len(), 1);
}

#[test]
fn add_server_keeps_every_field() {
    let mut store = Config::new();
    store.add_server("web".to_string(), profile("example.org", 2222)).unwrap();
    let found = store.get_server("web").unwrap();
    assert_eq!(found.hostname, "example.org");
    assert_eq!(found.username, "alice");
    assert_eq!(found.ssh_key_path, "/home/alice/.ssh/id_rsa");
    assert_eq!(found.port, 2222);
    assert_eq!(found.created_at, "2024-05-01T10:00:00+00:00");
}

#[test]
fn add_server_overwrites_an_existing_alias() {
    let mut store = Config::new();
    store.add_server("web".to_string(), profile("old.example.org", 22)).unwrap();
    store.add_server("web".to_string(), profile("new.example.org", 2200)).unwrap();
    assert_eq!(store.list_servers().len(), 1);
    assert_eq!(store.get_server("web").unwrap().hostname, "new.example.org");
    assert_eq!(store.get_server("web").unwrap().port, 2200);
}

#[test]
fn remove_server_takes_out_only_the_named_alias() {
    let mut store = Config::new();
    store.add_server("web".to_string(), profile("a.example.org", 22)).unwrap();
    store.add_server("db".to_string(), profile("b.example.org", 22)).unwrap();
    store.add_server("cache".to_string(), profile("c.example.org", 22)).unwrap();
    assert_eq!(store.remove_server("db"), Ok(()));
    assert!(!store.contains_key("db"));
    assert_eq!(store.get_server("web").unwrap().hostname, "a.example.org");
    assert_eq!(store.get_server("cache").unwrap().hostname, "c.example.org");
    let mut aliases: Vec<String> =
        store.list_servers().iter().map(|(alias, _)| (*alias).clone()).collect();
    aliases.sort();
    assert_eq!(aliases, vec!["cache".to_string(), "web".to_string()]);
}

use download_from_server::config::{config_path_in, ConfigFile, SaveFailure};

#[test]
fn load_of_no_file_is_an_empty_store() {
    let store = Config::load(ConfigFile::Absent).unwrap();
    assert!(store.is_empty());
}

#[test]
fn load_reports_a_file_that_cannot_be_read() {
    let r = Config::load(ConfigFile::Unreadable("Permission denied (os error 13)".to_string()));
    assert_eq!(
        r.unwrap_err(),
        DownloaderError::ConfigError("Failed to read config file: Permission denied (os error 13)".to_string())
    );
}

#[test]
fn load_reports_a_file_that_cannot_be_parsed() {
    let r = Config::load(ConfigFile::Malformed("expected value at line 1 column 1".to_string()));
    assert_eq!(
        r.unwrap_err(),
        DownloaderError::ConfigError("Failed to parse config file: expected value at line 1 column 1".to_string())
    );
}

#[test]
fn load_takes_every_entry() {
    let entries = vec![
        ("web".to_string(), profile("a.example.org", 22)),
        ("db".to_string(), profile("b.example.org", 5432)),
    ];
    let store = Config::load(ConfigFile::Entries(entries)).unwrap();
    assert_eq!(store.list_servers().len(), 2);
    assert_eq!(store.get_server("web").unwrap(), &profile("a.example.org", 22));
    assert_eq!(store.get_server("db").unwrap(), &profile("b.example.org", 5432));
}

#[test]
fn load_keeps_the_later_of_two_entries_with_one_alias() {
    let entries = vec![
        ("web".to_string(), profile("first.example.org", 22)),
        ("web".to_string(), profile("second.example.org", 23)),
    ];
    let store = Config::load(ConfigFile::Entries(entries)).unwrap();
    assert_eq!(store.list_servers().len(), 1);
    assert_eq!(store.get_server("web").unwrap().hostname, "second.example.org");
}

#[test]
fn a_store_built_from_its_own_listing_is_the_same() {
    let mut store = Config::new();
    store.add_server("web".to_string(), profile("a.example.org", 22)).unwrap();
    store.add_server("db".to_string(), profile("b.example.org", 5432)).unwrap();
    store.add_server("cache".to_string(), profile("c.example.org", 6379)).unwrap();
    let listing: Vec<(String, ServerConfig)> =
        store.list_servers().into_iter().map(|(alias, p)| (alias.clone(), p.clone())).collect();
    let again = Config::load(ConfigFile::Entries(listing)).unwrap();
    assert_eq!(again.list_servers().len(), 3);
    for (alias, p) in store.list_servers() {
        assert_eq!(again.get_server(alias).unwrap(), p);
    }
}

#[test]
fn an_added_server_is_found_after_a_reload_with_every_field() {
    let mut store = Config::new();
    store.add_server("old".to_string(), profile("old.example.org", 22)).unwrap();
    let new = ServerConfig {
        hostname: "10.0.0.7".to_string(),
        username: "deploy".to_string(),
        ssh_key_path: "/keys/deploy".to_string(),
        port: 65535,
        created_at: "2024-12-31T23:59:59.123456789+00:00".to_string(),
    };
    store.add_server("new".to_string(), new.clone()).unwrap();
    let listing: Vec<(String, ServerConfig)> =
        store.list_servers().into_iter().map(|(alias, p)| (alias.clone(), p.clone())).collect();
    let again = Config::load(ConfigFile::Entries(listing)).unwrap();
    assert_eq!(again.get_server("new").unwrap(), &new);
    assert_eq!(again.get_server("new").unwrap().port, 65535);
    assert_eq!(again.get_server("new").unwrap().created_at, "2024-12-31T23:59:59.123456789+00:00");
}

#[test]
fn save_names_the_step_that_failed() {
    let store = Config::new();
    assert_eq!(store.save(Ok(())), Ok(()));
    assert_eq!(
        store.save(Err(SaveFailure::CreateDirectory("Read-only file system".to_string()))),
        Err(DownloaderError::ConfigError("Failed to create config directory: Read-only file system".to_string()))
    );
    assert_eq!(
        store.save(Err(SaveFailure::Serialize("key must be a string".to_string()))),
        Err(DownloaderError::ConfigError("Failed to serialize config: key must be a string".to_string()))
    );
    assert_eq!(
        store.save(Err(SaveFailure::Write("No space left on device".to_string()))),
        Err(DownloaderError::ConfigError("Failed to write config file: No space left on device".to_string()))
    );
}

#[test]
fn config_path_is_under_the_home_directory() {
    assert_eq!(
        config_path_in(Some("/home/alice".to_string())),
        Ok("/home/alice/.downloader-from-server/config.json".to_string())
    );
    assert_eq!(
        config_path_in(Some("/home/alice/".to_string())),
        Ok("/home/alice/.downloader-from-server/config.json".to_string())
    );
    assert_eq!(config_path_in(Some("/".to_string())), Ok("/.downloader-from-server/config.json".to_string()));
    assert_eq!(config_path_in(None), Err(DownloaderError::HomeDirectoryNotFound));
}

#[test]
fn config_path_of_this_machine_has_the_fixed_ending() {
    match Config::get_config_path() {
        Ok(path) => assert!(path.ends_with(".downloader-from-server/config.json")),
        Err(failure) => assert_eq!(failure, DownloaderError::HomeDirectoryNotFound),
    }
}

#[test]
fn clone_of_a_profile_is_equal() {
    let p = profile("example.org", 2200);
    assert_eq!(p.clone(), p);
}

#[test]
fn the_listing_is_as_long_as_the_store() {
    let mut store = Config::new();
    assert_eq!(store.list_servers().len(), 0);
    store.add_server("web".to_string(), profile("a.example.org", 22)).unwrap();
    assert_eq!(store.list_servers().len(), 1);
    store.add_server("db".to_string(), profile("b.example.org", 22)).unwrap();
    assert_eq!(store.list_servers().len(), 2);
    store.add_server("web".to_string(), profile("c.example.org", 22)).unwrap();
    assert_eq!(store.list_servers().len(), 2);
    store.remove_server("web").unwrap();
    assert_eq!(store.list_servers().len(), 1);
}

#[test]
fn clone_of_a_store_holds_the_same_profiles() {
    let mut store = Config::new();
    store.add_server("web".to_string(), profile("a.example.org", 22)).unwrap();
    store.add_server("db".to_string(), profile("b.example.org", 5432)).unwrap();
    let mut copy = store.clone();
    assert_eq!(copy.list_servers().len(), 2);
    assert_eq!(copy.get_server("web").unwrap(), store.get_server("web").unwrap());
    assert_eq!(copy.get_server("db").unwrap(), store.get_server("db").unwrap());
    copy.remove_server("web").unwrap();
    assert!(store.contains_key("web"));
    assert!(!copy.contains_key("web"));
    assert!(Config::new().clone().is_empty());
}
