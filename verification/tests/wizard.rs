use download_from_server::add::{
    add_server_interactive, advance_at, default_key_path, default_username, start, AuthStep, Draft,
    Ending, RetryReason, WizardEvent, WizardState, DEFAULT_PORT,
};
use download_from_server::config::{Config, ServerConfig};
use download_from_server::error::DownloaderError;

const NOW: &str = "2024-05-01T10:00:00+00:00";

fn store_with_web() -> Config {
    let mut store = Config::new();
    store
        .add_server(
            "web".to_string(),
            ServerConfig {
                hostname: "example.org".to_string(),
                username: "alice".to_string(),
                ssh_key_path: "/k".to_string(),
                port: 22,
                created_at: NOW.to_string(),
            },
        )
        .unwrap();
    store
}

fn step(state: WizardState, event: WizardEvent) -> WizardState {
    advance_at(state, event, &store_with_web(), NOW.to_string())
}

fn draft() -> Draft {
    Draft {
        alias: "db".to_string(),
        hostname: "db.example.org".to_string(),
        username: "postgres".to_string(),
        port: 2200,
        ssh_key_path: "/keys/db".to_string(),
    }
}

fn up_to_test() -> WizardState {
    let state = step(start(), WizardEvent::Alias("db".to_string()));
    let state = step(state, WizardEvent::Hostname("db.example.org".to_string()));
    let state = step(state, WizardEvent::Username("postgres".to_string()));
    let state = step(state, WizardEvent::Port("2200".to_string()));
    step(state, WizardEvent::KeyPath { path: "/keys/db".to_string(), exists: true })
}

#[test]
fn the_wizard_begins_by_asking_for_the_alias() {
    assert_eq!(start(), WizardState::CollectAlias);
}

#[test]
fn a_new_alias_leads_through_every_question() {
    let state = step(start(), WizardEvent::Alias("db".to_string()));
    assert_eq!(state, WizardState::CollectHost { alias: "db".to_string() });
    let state = step(state, WizardEvent::Hostname("db.example.org".to_string()));
    assert_eq!(
        state,
        WizardState::CollectAuth {
            alias: "db".to_string(),
            hostname: "db.example.org".to_string(),
            step: AuthStep::Username
        }
    );
    let state = step(state, WizardEvent::Username("postgres".to_string()));
    assert_eq!(
        state,
        WizardState::CollectAuth {
            alias: "db".to_string(),
            hostname: "db.example.org".to_string(),
            step: AuthStep::Port { username: "postgres".to_string() }
        }
    );
    let state = step(state, WizardEvent::Port("2200".to_string()));
    assert_eq!(
        state,
        WizardState::CollectAuth {
            alias: "db".to_string(),
            hostname: "db.example.org".to_string(),
            step: AuthStep::KeyPath { username: "postgres".to_string(), port: 2200 }
        }
    );
    let state = step(state, WizardEvent::KeyPath { path: "/keys/db".to_string(), exists: true });
    assert_eq!(state, WizardState::TestConnection { draft: draft() });
    let state = step(state, WizardEvent::Connected);
    assert_eq!(state, WizardState::Confirm { draft: draft() });
    let state = step(state, WizardEvent::Save(true));
    assert_eq!(
        state,
        WizardState::Done {
            alias: "db".to_string(),
            profile: ServerConfig {
                hostname: "db.example.org".to_string(),
                username: "postgres".to_string(),
                ssh_key_path: "/keys/db".to_string(),
                port: 2200,
                created_at: NOW.to_string(),
            }
        }
    );
}

#[test]
fn an_alias_that_is_taken_is_rejected() {
    let state = step(start(), WizardEvent::Alias("web".to_string()));
    assert_eq!(state, WizardState::OfferRetry { reason: RetryReason::AliasTaken });
    assert_eq!(step(state, WizardEvent::Retry(true)), WizardState::CollectAlias);
    let state = step(start(), WizardEvent::Alias("web".to_string()));
    assert_eq!(step(state, WizardEvent::Retry(false)), WizardState::Aborted { ending: Ending::Declined });
}

#[test]
fn a_port_that_is_no_port_ends_the_wizard() {
    for text in ["", "ssh", "65536", "-1", " 22", "22 "] {
        let state = step(start(), WizardEvent::Alias("db".to_string()));
        let state = step(state, WizardEvent::Hostname("h".to_string()));
        let state = step(state, WizardEvent::Username("u".to_string()));
        let state = step(state, WizardEvent::Port(text.to_string()));
        assert_eq!(state, WizardState::Aborted { ending: Ending::InvalidPort });
    }
}

#[test]
fn the_default_port_is_accepted() {
    assert_eq!(DEFAULT_PORT, 22);
    let state = step(start(), WizardEvent::Alias("db".to_string()));
    let state = step(state, WizardEvent::Hostname("h".to_string()));
    let state = step(state, WizardEvent::Username("u".to_string()));
    let state = step(state, WizardEvent::Port("22".to_string()));
    assert_eq!(
        state,
        WizardState::CollectAuth {
            alias: "db".to_string(),
            hostname: "h".to_string(),
            step: AuthStep::KeyPath { username: "u".to_string(), port: 22 }
        }
    );
}

#[test]
fn a_missing_key_file_is_rejected() {
    let state = step(start(), WizardEvent::Alias("db".to_string()));
    let state = step(state, WizardEvent::Hostname("h".to_string()));
    let state = step(state, WizardEvent::Username("u".to_string()));
    let state = step(state, WizardEvent::Port("22".to_string()));
    let state = step(state, WizardEvent::KeyPath { path: "/nowhere".to_string(), exists: false });
    assert_eq!(state, WizardState::OfferRetry { reason: RetryReason::KeyMissing });
    assert_eq!(step(state, WizardEvent::Retry(false)), WizardState::Aborted { ending: Ending::Declined });
}

#[test]
fn a_failed_connection_offers_to_start_over() {
    let failure = DownloaderError::ConnectionFailed("SSH handshake failed: reset".to_string());
    let state = step(up_to_test(), WizardEvent::ConnectionFailed(failure.clone()));
    assert_eq!(state, WizardState::OfferRetry { reason: RetryReason::ConnectionFailed(failure) });
    assert_eq!(step(state, WizardEvent::Retry(true)), WizardState::CollectAlias);
}

#[test]
fn declining_to_save_discards_the_draft() {
    let state = step(step(up_to_test(), WizardEvent::Connected), WizardEvent::Save(false));
    assert_eq!(state, WizardState::OfferRetry { reason: RetryReason::SaveDeclined });
    assert_eq!(step(state, WizardEvent::Retry(false)), WizardState::Aborted { ending: Ending::Discarded });
    let state = step(step(up_to_test(), WizardEvent::Connected), WizardEvent::Save(false));
    assert_eq!(step(state, WizardEvent::Retry(true)), WizardState::CollectAlias);
}

#[test]
fn wizard_events_out_of_turn_change_nothing() {
    assert_eq!(step(start(), WizardEvent::Save(true)), WizardState::CollectAlias);
    assert_eq!(step(start(), WizardEvent::Connected), WizardState::CollectAlias);
    assert_eq!(step(start(), WizardEvent::Retry(false)), WizardState::CollectAlias);
    assert_eq!(step(up_to_test(), WizardEvent::Save(true)), WizardState::TestConnection { draft: draft() });
    let host = step(start(), WizardEvent::Alias("db".to_string()));
    assert_eq!(
        step(host, WizardEvent::Alias("other".to_string())),
        WizardState::CollectHost { alias: "db".to_string() }
    );
    let auth = step(
        step(start(), WizardEvent::Alias("db".to_string())),
        WizardEvent::Hostname("h".to_string()),
    );
    assert_eq!(
        step(auth, WizardEvent::Port("22".to_string())),
        WizardState::CollectAuth { alias: "db".to_string(), hostname: "h".to_string(), step: AuthStep::Username }
    );
}

#[test]
fn the_endings_are_final() {
    let done = step(step(up_to_test(), WizardEvent::Connected), WizardEvent::Save(true));
    let again = step(step(up_to_test(), WizardEvent::Connected), WizardEvent::Save(true));
    assert_eq!(step(done, WizardEvent::Retry(true)), again);
    let aborted = WizardState::Aborted { ending: Ending::InvalidPort };
    assert_eq!(step(aborted, WizardEvent::Alias("x".to_string())), WizardState::Aborted { ending: Ending::InvalidPort });
}

#[test]
fn a_step_taken_now_differs_only_in_the_time_stamp() {
    let store = store_with_web();
    let state = add_server_interactive(start(), WizardEvent::Alias("web".to_string()), &store);
    assert_eq!(state, WizardState::OfferRetry { reason: RetryReason::AliasTaken });
    let confirm = WizardState::Confirm { draft: draft() };
    match add_server_interactive(confirm, WizardEvent::Save(true), &store) {
        WizardState::Done { alias, profile } => {
            assert_eq!(alias, "db");
            assert_eq!(profile.hostname, "db.example.org");
            assert_eq!(profile.username, "postgres");
            assert_eq!(profile.ssh_key_path, "/keys/db");
            assert_eq!(profile.port, 2200);
            assert!(profile.created_at.chars().count() >= 25);
            assert!(profile.created_at.ends_with("+00:00"));
            assert_eq!(profile.created_at.as_bytes()[4], b'-');
            assert_eq!(profile.created_at.as_bytes()[10], b'T');
        }
        other => panic!("not saved: {:?}", other),
    }
}

#[test]
fn defaults_come_from_the_environment() {
    assert_eq!(default_username(Some("alice")), "alice");
    assert_eq!(default_username(None), "root");
    assert_eq!(default_username(Some("")), "");
    assert_eq!(default_key_path(Some("/home/alice")), "/home/alice/.ssh/id_rsa");
    assert_eq!(default_key_path(None), "/.ssh/id_rsa");
    assert_eq!(default_key_path(Some("")), "/.ssh/id_rsa");
}
