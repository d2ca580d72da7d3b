//! The list command: the lines that describe the stored profiles.

use vstd::prelude::*;
use vstd::string::*;
use crate::config::{enumerates, listed, Config, ServerConfig, ServerProfile};
use crate::text::{chain, decimal, format_number};

verus! {

/// The lines that describe the profile stored under `alias`.
pub open spec fn profile_lines(alias: Seq<char>, profile: ServerProfile) -> Seq<Seq<char>> {
    seq![
        "  Name: "@ + alias,
        "    Host: "@ + profile.username + "@"@ + profile.hostname + ":"@ + decimal(
            profile.port as nat,
        ),
        "    SSH Key: "@ + profile.ssh_key_path,
        "    Added: "@ + profile.created_at,
        Seq::empty(),
    ]
}

/// The lines that describe `pairs`, one after the other.
pub open spec fn all_profile_lines(pairs: Seq<(Seq<char>, ServerProfile)>) -> Seq<Seq<char>>
    decreases pairs.len(),
{
    if pairs.len() == 0 {
        Seq::empty()
    } else {
        all_profile_lines(pairs.drop_last()) + profile_lines(pairs.last().0, pairs.last().1)
    }
}

/// What the list command prints for `pairs`: a hint where there are none,
/// else a heading and the lines of each profile.
pub open spec fn listing_lines(pairs: Seq<(Seq<char>, ServerProfile)>) -> Seq<Seq<char>> {
    if pairs.len() == 0 {
        seq![
            "No servers configured."@,
            "Use 'download-from-server add server <name> <ssh-key-path>' to add a server."@,
        ]
    } else {
        seq!["Configured servers:"@, Seq::empty()] + all_profile_lines(pairs)
    }
}

/// The texts of `lines`.
pub open spec fn texts(lines: Seq<String>) -> Seq<Seq<char>> {
    Seq::new(lines.len(), |i: int| lines[i]@)
}

/// The lines that describe one profile.
fn describe(alias: &String, profile: &ServerConfig, lines: &mut Vec<String>)
    ensures
        texts(final(lines)@) == texts(old(lines)@) + profile_lines(alias@, profile@),
{
    let ghost before = texts(lines@);
    let name = chain("  Name: ", alias.as_str());
    let mut host = chain("    Host: ", profile.username.as_str());
    host.append("@");
    host.append(profile.hostname.as_str());
    host.append(":");
    let port = format_number(profile.port as u32);
    host.append(port.as_str());
    let key = chain("    SSH Key: ", profile.ssh_key_path.as_str());
    let added = chain("    Added: ", profile.created_at.as_str());
    lines.push(name);
    lines.push(host);
    lines.push(key);
    lines.push(added);
    lines.push(String::new());
    assert(texts(lines@) =~= before + profile_lines(alias@, profile@));
}

/// What the list command prints for the store.
pub fn list_servers(store: &Config) -> (lines: Vec<String>)
    ensures
        exists|pairs: Seq<(Seq<char>, ServerProfile)>|
            enumerates(pairs, store@) && texts(lines@) == listing_lines(pairs),
{
    let listing = store.list_servers();
    let ghost pairs = listed(listing@);
    let mut lines: Vec<String> = Vec::new();
    if listing.len() == 0 {
        lines.push("No servers configured.".to_owned());
        lines.push(
            "Use 'download-from-server add server <name> <ssh-key-path>' to add a server.".to_owned(),
        );
        assert(texts(lines@) =~= listing_lines(pairs));
        return lines;
    }
    lines.push("Configured servers:".to_owned());
    lines.push(String::new());
    let ghost heading = seq!["Configured servers:"@, Seq::<char>::empty()];
    assert(texts(lines@) =~= heading);
    assert(pairs.take(0) == Seq::<(Seq<char>, ServerProfile)>::empty());
    let mut i: usize = 0;
    while i < listing.len()
        invariant
            i <= listing@.len(),
            pairs == listed(listing@),
            heading == seq!["Configured servers:"@, Seq::<char>::empty()],
            texts(lines@) == heading + all_profile_lines(pairs.take(i as int)),
        decreases listing@.len() - i,
    {
        let (alias, profile) = listing[i];
        proof {
            let longer = pairs.take(i + 1);
            assert(longer.drop_last() == pairs.take(i as int));
            assert(longer.last() == (alias@, profile@));
            assert(heading + (all_profile_lines(pairs.take(i as int)) + profile_lines(
                alias@,
                profile@,
            )) == heading + all_profile_lines(pairs.take(i as int)) + profile_lines(
                alias@,
                profile@,
            ));
        }
        describe(alias, profile, &mut lines);
        i = i + 1;
    }
    assert(pairs.take(listing@.len() as int) == pairs);
    assert(enumerates(pairs, store@) && texts(lines@) == listing_lines(pairs));
    lines
}

} // verus!
