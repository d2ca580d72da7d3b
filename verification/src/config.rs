//! The store of server profiles, each under its alias.

use vstd::prelude::*;
use crate::error::{text_result, DownloaderError, Failure};
use crate::paths::{join, joined};
use crate::platform::home_directory;
use crate::text::{chain, text_of};

verus! {

/// How to reach one server, and when the profile was made.
#[derive(Debug, PartialEq, Eq)]
pub struct ServerConfig {
    pub hostname: String,
    pub username: String,
    pub ssh_key_path: String,
    pub port: u16,
    pub created_at: String,
}

/// The mathematical form of a `ServerConfig`.
pub struct ServerProfile {
    pub hostname: Seq<char>,
    pub username: Seq<char>,
    pub ssh_key_path: Seq<char>,
    pub port: u16,
    pub created_at: Seq<char>,
}

impl View for ServerConfig {
    type V = ServerProfile;

    open spec fn view(&self) -> ServerProfile {
        ServerProfile {
            hostname: self.hostname@,
            username: self.username@,
            ssh_key_path: self.ssh_key_path@,
            port: self.port,
            created_at: self.created_at@,
        }
    }
}

impl Clone for ServerConfig {
    fn clone(&self) -> (copy: Self)
        ensures
            copy == *self,
    {
        ServerConfig {
            hostname: self.hostname.clone(),
            username: self.username.clone(),
            ssh_key_path: self.ssh_key_path.clone(),
            port: self.port,
            created_at: self.created_at.clone(),
        }
    }
}

/// Whether `pairs` names every alias of `store` exactly once, each with the
/// profile stored under it.
pub open spec fn enumerates(
    pairs: Seq<(Seq<char>, ServerProfile)>,
    store: Map<Seq<char>, ServerProfile>,
) -> bool {
    &&& forall|i: int|
        0 <= i < pairs.len() ==> store.contains_key((#[trigger] pairs[i]).0) && store[pairs[i].0]
            == pairs[i].1
    &&& forall|i: int, j: int|
        0 <= i < j < pairs.len() ==> (#[trigger] pairs[i]).0 != (#[trigger] pairs[j]).0
    &&& forall|alias: Seq<char>| #[trigger]
        store.contains_key(alias) ==> exists|i: int|
            0 <= i < pairs.len() && (#[trigger] pairs[i]).0 == alias
}

/// The aliases and profiles of `entries`, in order.
pub open spec fn pairs_of(entries: Seq<(String, ServerConfig)>) -> Seq<(Seq<char>, ServerProfile)> {
    Seq::new(entries.len(), |i: int| (entries[i].0@, entries[i].1@))
}

/// Whether no alias stands twice in `entries`.
pub open spec fn distinct_aliases(entries: Seq<(String, ServerConfig)>) -> bool {
    forall|i: int, j: int|
        0 <= i < j < entries.len() ==> (#[trigger] entries[i]).0@ != (#[trigger] entries[j]).0@
}

/// The map that `entries` stand for: each alias with the profile beside it.
pub open spec fn map_of(entries: Seq<(String, ServerConfig)>) -> Map<Seq<char>, ServerProfile> {
    Map::new(
        |alias: Seq<char>|
            exists|i: int| 0 <= i < entries.len() && (#[trigger] entries[i]).0@ == alias,
        |alias: Seq<char>|
            entries[choose|i: int| 0 <= i < entries.len() && (#[trigger] entries[i]).0@ == alias].1@,
    )
}

/// With distinct aliases, the map holds for each entry its own profile.
pub proof fn lemma_map_of_entry(entries: Seq<(String, ServerConfig)>, i: int)
    requires
        distinct_aliases(entries),
        0 <= i < entries.len(),
    ensures
        map_of(entries).contains_key(entries[i].0@),
        map_of(entries)[entries[i].0@] == entries[i].1@,
{
    let alias = entries[i].0@;
    let j = choose|j: int| 0 <= j < entries.len() && (#[trigger] entries[j]).0@ == alias;
    assert(j == i);
}

/// Adding an entry under a new alias inserts it into the map.
pub proof fn lemma_map_of_push(entries: Seq<(String, ServerConfig)>, entry: (String, ServerConfig))
    requires
        distinct_aliases(entries),
        forall|i: int| 0 <= i < entries.len() ==> (#[trigger] entries[i]).0@ != entry.0@,
    ensures
        distinct_aliases(entries.push(entry)),
        map_of(entries.push(entry)) == map_of(entries).insert(entry.0@, entry.1@),
{
    let after = entries.push(entry);
    assert(distinct_aliases(after)) by {
        assert forall|a: int, b: int| 0 <= a < b < after.len() implies (#[trigger] after[a]).0@ != (
        #[trigger] after[b]).0@ by {
            assert(after[a] == entries[a]);
            if b < entries.len() {
                assert(after[b] == entries[b]);
            }
        }
    }
    let wanted = map_of(entries).insert(entry.0@, entry.1@);
    assert forall|alias: Seq<char>| map_of(after).contains_key(alias) <==> #[trigger]
        wanted.contains_key(alias) by {
        if map_of(after).contains_key(alias) {
            let k = choose|k: int| 0 <= k < after.len() && (#[trigger] after[k]).0@ == alias;
            if k < entries.len() {
                assert(entries[k].0@ == alias);
            }
        }
        if map_of(entries).contains_key(alias) {
            let k = choose|k: int| 0 <= k < entries.len() && (#[trigger] entries[k]).0@ == alias;
            assert(after[k].0@ == alias);
        }
        if alias == entry.0@ {
            assert(after[entries.len() as int].0@ == alias);
        }
    }
    assert forall|alias: Seq<char>| #[trigger] map_of(after).contains_key(alias) implies map_of(
        after,
    )[alias] == wanted[alias] by {
        let k = choose|k: int| 0 <= k < after.len() && (#[trigger] after[k]).0@ == alias;
        lemma_map_of_entry(after, k);
        if k < entries.len() {
            assert(after[k] == entries[k]);
            lemma_map_of_entry(entries, k);
        }
    }
    assert(map_of(after) =~= wanted);
}

/// Replacing the entry of an alias replaces its profile in the map.
pub proof fn lemma_map_of_update(
    entries: Seq<(String, ServerConfig)>,
    i: int,
    entry: (String, ServerConfig),
)
    requires
        distinct_aliases(entries),
        0 <= i < entries.len(),
        entries[i].0@ == entry.0@,
    ensures
        distinct_aliases(entries.update(i, entry)),
        map_of(entries.update(i, entry)) == map_of(entries).insert(entry.0@, entry.1@),
{
    let after = entries.update(i, entry);
    assert(distinct_aliases(after)) by {
        assert forall|a: int, b: int| 0 <= a < b < after.len() implies (#[trigger] after[a]).0@ != (
        #[trigger] after[b]).0@ by {
            assert(after[a].0@ == entries[a].0@);
            assert(after[b].0@ == entries[b].0@);
        }
    }
    let wanted = map_of(entries).insert(entry.0@, entry.1@);
    assert forall|alias: Seq<char>| map_of(after).contains_key(alias) <==> #[trigger]
        wanted.contains_key(alias) by {
        if map_of(after).contains_key(alias) {
            let k = choose|k: int| 0 <= k < after.len() && (#[trigger] after[k]).0@ == alias;
            assert(entries[k].0@ == alias);
        }
        if map_of(entries).contains_key(alias) {
            let k = choose|k: int| 0 <= k < entries.len() && (#[trigger] entries[k]).0@ == alias;
            assert(after[k].0@ == alias);
        }
        if alias == entry.0@ {
            assert(after[i].0@ == alias);
        }
    }
    assert forall|alias: Seq<char>| #[trigger] map_of(after).contains_key(alias) implies map_of(
        after,
    )[alias] == wanted[alias] by {
        let k = choose|k: int| 0 <= k < after.len() && (#[trigger] after[k]).0@ == alias;
        lemma_map_of_entry(after, k);
        if k != i {
            assert(after[k] == entries[k]);
            lemma_map_of_entry(entries, k);
        }
    }
    assert(map_of(after) =~= wanted);
}

/// Taking an entry out removes its alias from the map.
pub proof fn lemma_map_of_remove(entries: Seq<(String, ServerConfig)>, i: int)
    requires
        distinct_aliases(entries),
        0 <= i < entries.len(),
    ensures
        distinct_aliases(entries.remove(i)),
        map_of(entries.remove(i)) == map_of(entries).remove(entries[i].0@),
{
    let after = entries.remove(i);
    assert forall|k: int| 0 <= k < after.len() implies #[trigger] after[k] == entries[if k < i {
        k
    } else {
        k + 1
    }] by {}
    assert(distinct_aliases(after)) by {
        assert forall|a: int, b: int| 0 <= a < b < after.len() implies (#[trigger] after[a]).0@ != (
        #[trigger] after[b]).0@ by {
            let a0 = if a < i { a } else { a + 1 };
            let b0 = if b < i { b } else { b + 1 };
            assert(after[a] == entries[a0]);
            assert(after[b] == entries[b0]);
        }
    }
    let wanted = map_of(entries).remove(entries[i].0@);
    assert forall|alias: Seq<char>| map_of(after).contains_key(alias) <==> #[trigger]
        wanted.contains_key(alias) by {
        if map_of(after).contains_key(alias) {
            let k = choose|k: int| 0 <= k < after.len() && (#[trigger] after[k]).0@ == alias;
            let k0 = if k < i { k } else { k + 1 };
            assert(after[k] == entries[k0]);
            assert(entries[k0].0@ == alias);
        }
        if wanted.contains_key(alias) {
            let k = choose|k: int| 0 <= k < entries.len() && (#[trigger] entries[k]).0@ == alias;
            let k1 = if k < i { k } else { k - 1 };
            assert(after[k1] == entries[k]);
            assert(after[k1].0@ == alias);
        }
    }
    assert forall|alias: Seq<char>| #[trigger] map_of(after).contains_key(alias) implies map_of(
        after,
    )[alias] == wanted[alias] by {
        let k = choose|k: int| 0 <= k < after.len() && (#[trigger] after[k]).0@ == alias;
        let k0 = if k < i { k } else { k + 1 };
        assert(after[k] == entries[k0]);
        lemma_map_of_entry(after, k);
        lemma_map_of_entry(entries, k0);
    }
    assert(map_of(after) =~= wanted);
}

/// The aliases of `entries`, in order.
pub open spec fn aliases_of(entries: Seq<(String, ServerConfig)>) -> Seq<Seq<char>> {
    Seq::new(entries.len(), |i: int| entries[i].0@)
}

/// With distinct aliases, the map is finite and holds as many profiles as
/// there are entries.
pub proof fn lemma_map_of_size(entries: Seq<(String, ServerConfig)>)
    requires
        distinct_aliases(entries),
    ensures
        map_of(entries).dom().finite(),
        map_of(entries).len() == entries.len(),
{
    let aliases = aliases_of(entries);
    assert(aliases.no_duplicates()) by {
        assert forall|i: int, j: int|
            0 <= i < aliases.len() && 0 <= j < aliases.len() && i != j implies aliases[i]
            != aliases[j] by {
            if i < j {
                assert(entries[i].0@ != entries[j].0@);
            } else {
                assert(entries[j].0@ != entries[i].0@);
            }
        }
    }
    assert(map_of(entries).dom() =~= aliases.to_set()) by {
        assert forall|alias: Seq<char>|
            map_of(entries).dom().contains(alias) <==> aliases.to_set().contains(alias) by {
            if map_of(entries).dom().contains(alias) {
                let k = choose|k: int|
                    0 <= k < entries.len() && (#[trigger] entries[k]).0@ == alias;
                assert(aliases[k] == alias);
            }
            if aliases.to_set().contains(alias) {
                let k = choose|k: int| 0 <= k < aliases.len() && aliases[k] == alias;
                assert(entries[k].0@ == alias);
            }
        }
    }
    vstd::seq_lib::seq_to_set_is_finite(aliases);
    aliases.unique_seq_to_set();
}

/// With distinct aliases, the entries name every alias of their map once.
pub proof fn lemma_pairs_enumerate(entries: Seq<(String, ServerConfig)>)
    requires
        distinct_aliases(entries),
    ensures
        enumerates(pairs_of(entries), map_of(entries)),
{
    let pairs = pairs_of(entries);
    assert forall|i: int| 0 <= i < pairs.len() implies map_of(entries).contains_key(
        (#[trigger] pairs[i]).0,
    ) && map_of(entries)[pairs[i].0] == pairs[i].1 by {
        lemma_map_of_entry(entries, i);
    }
    assert forall|alias: Seq<char>| #[trigger]
        map_of(entries).contains_key(alias) implies exists|i: int|
        0 <= i < pairs.len() && (#[trigger] pairs[i]).0 == alias by {
        let k = choose|k: int| 0 <= k < entries.len() && (#[trigger] entries[k]).0@ == alias;
        assert(pairs[k].0 == alias);
    }
}

/// The aliases and profiles that a listing names, in order.
pub open spec fn listed(listing: Seq<(&String, &ServerConfig)>) -> Seq<(Seq<char>, ServerProfile)> {
    Seq::new(listing.len(), |i: int| (listing[i].0@, listing[i].1@))
}

/// What the application found at the path of the stored profiles.
#[derive(Debug, PartialEq, Eq)]
pub enum ConfigFile {
    /// There is no file.
    Absent,
    /// The file could not be read, with this cause.
    Unreadable(String),
    /// The file does not hold profiles, with this cause.
    Malformed(String),
    /// The aliases and profiles that the file holds, in the file's order.
    Entries(Vec<(String, ServerConfig)>),
}

/// The mathematical form of a `ConfigFile`.
pub enum ConfigFileView {
    Absent,
    Unreadable(Seq<char>),
    Malformed(Seq<char>),
    Entries(Seq<(Seq<char>, ServerProfile)>),
}

impl View for ConfigFile {
    type V = ConfigFileView;

    open spec fn view(&self) -> ConfigFileView {
        match self {
            ConfigFile::Absent => ConfigFileView::Absent,
            ConfigFile::Unreadable(cause) => ConfigFileView::Unreadable(cause@),
            ConfigFile::Malformed(cause) => ConfigFileView::Malformed(cause@),
            ConfigFile::Entries(entries) => ConfigFileView::Entries(pairs_of(entries@)),
        }
    }
}

/// The map built by storing `pairs` one after the other: where an alias
/// stands twice, the later profile stays.
pub open spec fn loaded(pairs: Seq<(Seq<char>, ServerProfile)>) -> Map<Seq<char>, ServerProfile>
    decreases pairs.len(),
{
    if pairs.len() == 0 {
        Map::empty()
    } else {
        loaded(pairs.drop_last()).insert(pairs.last().0, pairs.last().1)
    }
}

/// What loading gives for what was found: no file is an empty store, a file
/// that cannot be read or understood is a configuration error.
pub open spec fn load_result(file: ConfigFileView) -> Result<Map<Seq<char>, ServerProfile>, Failure> {
    match file {
        ConfigFileView::Absent => Ok(Map::empty()),
        ConfigFileView::Unreadable(cause) => Err(
            Failure::ConfigError("Failed to read config file: "@ + cause),
        ),
        ConfigFileView::Malformed(cause) => Err(
            Failure::ConfigError("Failed to parse config file: "@ + cause),
        ),
        ConfigFileView::Entries(pairs) => Ok(loaded(pairs)),
    }
}

/// The step of saving that failed, with the text of its cause.
#[derive(Debug, PartialEq, Eq)]
pub enum SaveFailure {
    /// The directory of the file could not be made.
    CreateDirectory(String),
    /// The profiles could not be written as JSON.
    Serialize(String),
    /// The file could not be written.
    Write(String),
}

/// The mathematical form of a `SaveFailure`.
pub enum SaveFailureView {
    CreateDirectory(Seq<char>),
    Serialize(Seq<char>),
    Write(Seq<char>),
}

impl View for SaveFailure {
    type V = SaveFailureView;

    open spec fn view(&self) -> SaveFailureView {
        match self {
            SaveFailure::CreateDirectory(cause) => SaveFailureView::CreateDirectory(cause@),
            SaveFailure::Serialize(cause) => SaveFailureView::Serialize(cause@),
            SaveFailure::Write(cause) => SaveFailureView::Write(cause@),
        }
    }
}

/// The configuration error that a failed step of saving becomes.
pub open spec fn save_error(failure: SaveFailureView) -> Failure {
    match failure {
        SaveFailureView::CreateDirectory(cause) => Failure::ConfigError(
            "Failed to create config directory: "@ + cause,
        ),
        SaveFailureView::Serialize(cause) => Failure::ConfigError(
            "Failed to serialize config: "@ + cause,
        ),
        SaveFailureView::Write(cause) => Failure::ConfigError(
            "Failed to write config file: "@ + cause,
        ),
    }
}

/// The path of the stored profiles under the home directory `home`.
pub open spec fn config_path_under(home: Seq<char>) -> Seq<char> {
    joined(joined(home, ".downloader-from-server"@), "config.json"@)
}

/// The path of the stored profiles, given the home directory if there is one.
pub open spec fn config_path_of(home: Option<Seq<char>>) -> Result<Seq<char>, Failure> {
    match home {
        Some(dir) => Ok(config_path_under(dir)),
        None => Err(Failure::HomeDirectoryNotFound),
    }
}

/// The path of the stored profiles, given the home directory if there is one.
pub fn config_path_in(home: Option<String>) -> (r: Result<String, DownloaderError>)
    ensures
        text_result(r) == config_path_of(text_of(home)),
{
    match home {
        Some(dir) => {
            let directory = join(dir.as_str(), ".downloader-from-server");
            Ok(join(directory.as_str(), "config.json"))
        },
        None => Err(DownloaderError::HomeDirectoryNotFound),
    }
}

/// Storing pairs that name every alias of a map once gives that map back.
pub proof fn lemma_loaded_enumeration(
    pairs: Seq<(Seq<char>, ServerProfile)>,
    store: Map<Seq<char>, ServerProfile>,
)
    requires
        enumerates(pairs, store),
    ensures
        loaded(pairs) == store,
    decreases pairs.len(),
{
    if pairs.len() == 0 {
        assert(store =~= Map::empty());
    } else {
        let front = pairs.drop_last();
        let last = pairs.last();
        let rest = store.remove(last.0);
        assert(enumerates(front, rest)) by {
            assert forall|i: int| 0 <= i < front.len() implies rest.contains_key(
                (#[trigger] front[i]).0,
            ) && rest[front[i].0] == front[i].1 by {
                assert(front[i] == pairs[i]);
                assert(pairs[i].0 != pairs[pairs.len() - 1].0);
            }
            assert forall|i: int, j: int| 0 <= i < j < front.len() implies (#[trigger] front[i]).0
                != (#[trigger] front[j]).0 by {
                assert(front[i] == pairs[i]);
                assert(front[j] == pairs[j]);
            }
            assert forall|alias: Seq<char>| #[trigger]
                rest.contains_key(alias) implies exists|i: int|
                0 <= i < front.len() && (#[trigger] front[i]).0 == alias by {
                assert(store.contains_key(alias));
                let k = choose|k: int| 0 <= k < pairs.len() && (#[trigger] pairs[k]).0 == alias;
                assert(k < front.len());
                assert(front[k] == pairs[k]);
            }
        }
        lemma_loaded_enumeration(front, rest);
        assert(store.contains_key(pairs[pairs.len() - 1].0));
        assert(rest.insert(last.0, last.1) =~= store);
    }
}

/// The server profiles, each under its alias. No alias occurs twice.
#[derive(Debug)]
pub struct Config {
    entries: Vec<(String, ServerConfig)>,
}

impl View for Config {
    type V = Map<Seq<char>, ServerProfile>;

    closed spec fn view(&self) -> Map<Seq<char>, ServerProfile> {
        map_of(self.entries@)
    }
}

impl Clone for Config {
    /// A store with the same aliases and the same profiles.
    fn clone(&self) -> (copy: Self)
        ensures
            copy@ == self@,
    {
        proof {
            use_type_invariant(self);
        }
        let mut entries: Vec<(String, ServerConfig)> = Vec::new();
        let mut i: usize = 0;
        while i < self.entries.len()
            invariant
                i <= self.entries@.len(),
                entries@ == self.entries@.take(i as int),
            decreases self.entries@.len() - i,
        {
            let alias = self.entries[i].0.clone();
            let profile = self.entries[i].1.clone();
            entries.push((alias, profile));
            assert(entries@ == self.entries@.take(i + 1));
            i = i + 1;
        }
        assert(entries@ == self.entries@);
        Config { entries }
    }
}

impl Config {
    #[verifier::type_invariant]
    spec fn well_formed(self) -> bool {
        distinct_aliases(self.entries@)
    }

    /// A store without profiles.
    pub fn new() -> (store: Config)
        ensures
            store@ == Map::<Seq<char>, ServerProfile>::empty(),
    {
        let store = Config { entries: Vec::new() };
        assert(store@ =~= Map::<Seq<char>, ServerProfile>::empty());
        store
    }

    /// The store that the file of stored profiles stands for.
    pub fn load(file: ConfigFile) -> (r: Result<Config, DownloaderError>)
        ensures
            match r {
                Ok(store) => load_result(file@) == Ok::<Map<Seq<char>, ServerProfile>, Failure>(
                    store@,
                ),
                Err(failure) => load_result(file@) == Err::<Map<Seq<char>, ServerProfile>, Failure>(
                    failure@,
                ),
            },
    {
        match file {
            ConfigFile::Absent => Ok(Config::new()),
            ConfigFile::Unreadable(cause) => Err(
                DownloaderError::ConfigError(chain("Failed to read config file: ", cause.as_str())),
            ),
            ConfigFile::Malformed(cause) => Err(
                DownloaderError::ConfigError(
                    chain("Failed to parse config file: ", cause.as_str()),
                ),
            ),
            ConfigFile::Entries(entries) => {
                let ghost pairs = pairs_of(entries@);
                let mut store = Config::new();
                let mut i: usize = 0;
                assert(pairs.take(0) == Seq::<(Seq<char>, ServerProfile)>::empty());
                while i < entries.len()
                    invariant
                        i <= entries@.len(),
                        pairs == pairs_of(entries@),
                        store@ == loaded(pairs.take(i as int)),
                    decreases entries@.len() - i,
                {
                    let alias = entries[i].0.clone();
                    let profile = entries[i].1.clone();
                    proof {
                        let longer = pairs.take(i + 1);
                        assert(longer.drop_last() == pairs.take(i as int));
                        assert(longer.last() == (alias@, profile@));
                    }
                    let _ = store.add_server(alias, profile);
                    i = i + 1;
                }
                assert(pairs.take(entries@.len() as int) == pairs);
                Ok(store)
            },
        }
    }

    /// What saving ends with, given how writing the file went: a failed
    /// step becomes a configuration error that names the step.
    pub fn save(&self, written: Result<(), SaveFailure>) -> (r: Result<(), DownloaderError>)
        ensures
            match written {
                Ok(()) => r is Ok,
                Err(failure) => r is Err && r->Err_0@ == save_error(failure@),
            },
    {
        match written {
            Ok(()) => Ok(()),
            Err(SaveFailure::CreateDirectory(cause)) => Err(
                DownloaderError::ConfigError(
                    chain("Failed to create config directory: ", cause.as_str()),
                ),
            ),
            Err(SaveFailure::Serialize(cause)) => Err(
                DownloaderError::ConfigError(chain("Failed to serialize config: ", cause.as_str())),
            ),
            Err(SaveFailure::Write(cause)) => Err(
                DownloaderError::ConfigError(chain("Failed to write config file: ", cause.as_str())),
            ),
        }
    }

    /// The path of the stored profiles under the home directory of the user
    /// who runs the program; fails where no home directory is known.
    pub fn get_config_path() -> (r: Result<String, DownloaderError>)
        ensures
            exists|home: Option<Seq<char>>| text_result(r) == config_path_of(home),
    {
        let home = home_directory();
        let ghost found = text_of(home);
        let r = config_path_in(home);
        assert(text_result(r) == config_path_of(found));
        r
    }

    /// Where `name` stands among the entries.
    fn position(&self, name: &str) -> (found: Option<usize>)
        ensures
            match found {
                Some(i) => i < self.entries@.len() && self.entries@[i as int].0@ == name@,
                None => forall|i: int|
                    0 <= i < self.entries@.len() ==> (#[trigger] self.entries@[i]).0@ != name@,
            },
    {
        let wanted = name.to_owned();
        let mut i: usize = 0;
        while i < self.entries.len()
            invariant
                wanted@ == name@,
                i <= self.entries@.len(),
                forall|k: int| 0 <= k < i ==> (#[trigger] self.entries@[k]).0@ != name@,
            decreases self.entries@.len() - i,
        {
            if self.entries[i].0 == wanted {
                return Some(i);
            }
            i = i + 1;
        }
        None
    }

    /// Whether a profile is stored under `name`.
    pub fn contains_key(&self, name: &str) -> (found: bool)
        ensures
            found == self@.contains_key(name@),
    {
        proof {
            use_type_invariant(self);
        }
        match self.position(name) {
            Some(i) => {
                proof {
                    lemma_map_of_entry(self.entries@, i as int);
                }
                true
            },
            None => false,
        }
    }

    /// Whether the store holds no profile.
    pub fn is_empty(&self) -> (empty: bool)
        ensures
            empty == (self@ == Map::<Seq<char>, ServerProfile>::empty()),
    {
        proof {
            use_type_invariant(self);
            if self.entries@.len() > 0 {
                lemma_map_of_entry(self.entries@, 0);
            } else {
                assert(self@ =~= Map::<Seq<char>, ServerProfile>::empty());
            }
        }
        self.entries.is_empty()
    }

    /// Stores `config` under `name`, in place of what was stored there.
    pub fn add_server(&mut self, name: String, config: ServerConfig) -> (r: Result<
        (),
        DownloaderError,
    >)
        ensures
            r is Ok,
            final(self)@ == old(self)@.insert(name@, config@),
    {
        proof {
            use_type_invariant(&*self);
        }
        let found = self.position(name.as_str());
        let mut entries: Vec<(String, ServerConfig)> = Vec::new();
        std::mem::swap(&mut self.entries, &mut entries);
        match found {
            Some(i) => {
                proof {
                    lemma_map_of_update(entries@, i as int, (name, config));
                }
                entries.set(i, (name, config));
            },
            None => {
                proof {
                    lemma_map_of_push(entries@, (name, config));
                }
                entries.push((name, config));
            },
        }
        std::mem::swap(&mut self.entries, &mut entries);
        Ok(())
    }

    /// Takes out the profile stored under `name`. Fails, and changes
    /// nothing, where there is none.
    pub fn remove_server(&mut self, name: &str) -> (r: Result<(), DownloaderError>)
        ensures
            match r {
                Ok(()) => old(self)@.contains_key(name@) && final(self)@ == old(self)@.remove(
                    name@,
                ),
                Err(e) => !old(self)@.contains_key(name@) && e@ == Failure::ServerNotFound(name@)
                    && final(self)@ == old(self)@,
            },
    {
        proof {
            use_type_invariant(&*self);
        }
        match self.position(name) {
            Some(i) => {
                let mut entries: Vec<(String, ServerConfig)> = Vec::new();
                std::mem::swap(&mut self.entries, &mut entries);
                proof {
                    lemma_map_of_entry(entries@, i as int);
                    lemma_map_of_remove(entries@, i as int);
                }
                entries.remove(i);
                std::mem::swap(&mut self.entries, &mut entries);
                Ok(())
            },
            None => Err(DownloaderError::ServerNotFound(name.to_owned())),
        }
    }

    /// The profile stored under `name`.
    pub fn get_server(&self, name: &str) -> (r: Result<&ServerConfig, DownloaderError>)
        ensures
            match r {
                Ok(profile) => self@.contains_key(name@) && profile@ == self@[name@],
                Err(e) => !self@.contains_key(name@) && e@ == Failure::ServerNotFound(name@),
            },
    {
        proof {
            use_type_invariant(self);
        }
        match self.position(name) {
            Some(i) => {
                proof {
                    lemma_map_of_entry(self.entries@, i as int);
                }
                Ok(&self.entries[i].1)
            },
            None => Err(DownloaderError::ServerNotFound(name.to_owned())),
        }
    }

    /// Every alias with its profile, each once, in no particular order.
    pub fn list_servers(&self) -> (listing: Vec<(&String, &ServerConfig)>)
        ensures
            enumerates(listed(listing@), self@),
            self@.dom().finite(),
            listing@.len() == self@.len(),
    {
        proof {
            use_type_invariant(self);
        }
        let mut listing: Vec<(&String, &ServerConfig)> = Vec::new();
        let mut i: usize = 0;
        while i < self.entries.len()
            invariant
                i <= self.entries@.len(),
                listing@.len() == i,
                forall|k: int|
                    0 <= k < i ==> (#[trigger] listing@[k]).0@ == self.entries@[k].0@
                        && listing@[k].1@ == self.entries@[k].1@,
            decreases self.entries@.len() - i,
        {
            listing.push((&self.entries[i].0, &self.entries[i].1));
            i = i + 1;
        }
        proof {
            lemma_pairs_enumerate(self.entries@);
            lemma_map_of_size(self.entries@);
            assert(listed(listing@) =~= pairs_of(self.entries@));
        }
        listing
    }
}

/// What a store lists is enough to build it again: loading the listing of
/// a store gives a store with the same aliases and the same profiles.
pub proof fn lemma_listing_restores_store(
    listing: Seq<(Seq<char>, ServerProfile)>,
    store: Map<Seq<char>, ServerProfile>,
)
    requires
        enumerates(listing, store),
    ensures
        load_result(ConfigFileView::Entries(listing)) == Ok::<
            Map<Seq<char>, ServerProfile>,
            Failure,
        >(store),
{
    lemma_loaded_enumeration(listing, store);
}

/// A profile that was added is found again, with every field as it was
/// given, in the store built from the listing taken after the addition.
pub proof fn lemma_added_server_is_restored(
    before: Map<Seq<char>, ServerProfile>,
    alias: Seq<char>,
    profile: ServerProfile,
    listing: Seq<(Seq<char>, ServerProfile)>,
)
    requires
        enumerates(listing, before.insert(alias, profile)),
    ensures
        loaded(listing).contains_key(alias),
        loaded(listing)[alias] == profile,
        loaded(listing) == before.insert(alias, profile),
{
    lemma_loaded_enumeration(listing, before.insert(alias, profile));
}

} // verus!
