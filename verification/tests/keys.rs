use download_from_server::error::DownloaderError;
use download_from_server::ssh::{
    extract_hostname_from_public_key, get_private_key_path, validate_ssh_keys, KeyFile, KeyProbe,
};

fn content(text: &str) -> KeyFile {
    KeyFile::Content(text.to_string())
}

#[test]
fn private_key_path_drops_the_public_suffix() {
    assert_eq!(get_private_key_path("id_rsa.pub"), Ok("id_rsa".to_string()));
    assert_eq!(get_private_key_path("/home/a/.ssh/id_ed25519.pub"), Ok("/home/a/.ssh/id_ed25519".to_string()));
    assert_eq!(get_private_key_path(".pub"), Ok(String::new()));
}

#[test]
fn private_key_path_keeps_a_path_without_the_suffix() {
    assert_eq!(get_private_key_path("id_rsa"), Ok("id_rsa".to_string()));
    assert_eq!(get_private_key_path(""), Ok(String::new()));
    assert_eq!(get_private_key_path("pub"), Ok("pub".to_string()));
    assert_eq!(get_private_key_path("id_rsa.pub.bak"), Ok("id_rsa.pub.bak".to_string()));
    assert_eq!(get_private_key_path("id_rsa.PUB"), Ok("id_rsa.PUB".to_string()));
}

#[test]
fn private_key_path_drops_one_suffix_only() {
    assert_eq!(get_private_key_path("id_rsa.pub.pub"), Ok("id_rsa.pub".to_string()));
}

#[test]
fn hostname_is_what_follows_the_last_at_sign() {
    assert_eq!(
        extract_hostname_from_public_key("k.pub", &content("ssh-rsa AAAA... alice@myhost")),
        Ok("myhost".to_string())
    );
    assert_eq!(
        extract_hostname_from_public_key("k.pub", &content("ssh-ed25519 AAAAC3 bob@mail@box.example.org\n")),
        Ok("box.example.org".to_string())
    );
    assert_eq!(
        extract_hostname_from_public_key("k.pub", &content("  ssh-rsa\tAAAA   @h  trailing words")),
        Ok("h".to_string())
    );
}

#[test]
fn hostname_needs_three_fields() {
    for text in ["", "ssh-rsa", "ssh-rsa AAAA", "ssh-rsa AAAA\n", "alice@myhost", "   "] {
        assert_eq!(
            extract_hostname_from_public_key("k.pub", &content(text)),
            Err(DownloaderError::HostnameExtractionFailed)
        );
    }
}

#[test]
fn hostname_needs_an_at_sign_with_text_after_it() {
    for text in ["ssh-rsa AAAA alice", "ssh-rsa AAAA alice@", "ssh-rsa AAAA @", "ssh-rsa AAAA a@b@",
        "ssh-rsa AAAA comment user@host"]
    {
        assert_eq!(
            extract_hostname_from_public_key("k.pub", &content(text)),
            Err(DownloaderError::HostnameExtractionFailed)
        );
    }
}

#[test]
fn hostname_of_a_file_that_cannot_be_read() {
    assert_eq!(
        extract_hostname_from_public_key("/k/id.pub", &KeyFile::Missing),
        Err(DownloaderError::SshKeyNotFound("/k/id.pub".to_string()))
    );
    assert_eq!(
        extract_hostname_from_public_key("/k/id.pub", &KeyFile::Unreadable("stream did not contain valid UTF-8".to_string())),
        Err(DownloaderError::IoError("stream did not contain valid UTF-8".to_string()))
    );
}

fn probe(public_exists: bool, private_exists: bool, public_file: KeyFile) -> KeyProbe {
    KeyProbe { public_exists, private_exists, public_file }
}

#[test]
fn valid_keys_give_the_private_path() {
    assert_eq!(
        validate_ssh_keys("/k/id_rsa.pub", &probe(true, true, content("ssh-rsa AAAA alice@myhost"))),
        Ok("/k/id_rsa".to_string())
    );
    assert_eq!(
        validate_ssh_keys("/k/id_rsa", &probe(true, true, content("ssh-rsa AAAA alice@myhost"))),
        Ok("/k/id_rsa".to_string())
    );
}

#[test]
fn missing_public_key_is_reported_first() {
    assert_eq!(
        validate_ssh_keys("/k/id_rsa.pub", &probe(false, false, KeyFile::Missing)),
        Err(DownloaderError::SshKeyNotFound("/k/id_rsa.pub".to_string()))
    );
    assert_eq!(
        validate_ssh_keys("/k/id_rsa.pub", &probe(false, true, content("ssh-rsa AAAA alice@myhost"))),
        Err(DownloaderError::SshKeyNotFound("/k/id_rsa.pub".to_string()))
    );
}

#[test]
fn missing_private_key_is_reported_by_its_own_path() {
    assert_eq!(
        validate_ssh_keys("/k/id_rsa.pub", &probe(true, false, content("ssh-rsa AAAA alice@myhost"))),
        Err(DownloaderError::SshKeyNotFound("/k/id_rsa".to_string()))
    );
}

#[test]
fn keys_without_a_host_are_rejected() {
    assert_eq!(
        validate_ssh_keys("/k/id_rsa.pub", &probe(true, true, content("ssh-rsa AAAA"))),
        Err(DownloaderError::HostnameExtractionFailed)
    );
    assert_eq!(
        validate_ssh_keys("/k/id_rsa.pub", &probe(true, true, KeyFile::Missing)),
        Err(DownloaderError::SshKeyNotFound("/k/id_rsa.pub".to_string()))
    );
    assert_eq!(
        validate_ssh_keys("/k/id_rsa.pub", &probe(true, true, KeyFile::Unreadable("denied".to_string()))),
        Err(DownloaderError::IoError("denied".to_string()))
    );
}
