//! What the user's data holds in memory: the history of connections, the
//! peers that are known, and the preferences.
use vstd::prelude::*;
use vstd::string::*;
use crate::clock::unix_millis;
use crate::ordering::{newest_first, newest_first_order, picked, Dated};
use crate::text::concat;
use crate::text_map::TextMap;

verus! {

/// Entries of the history kept where no other number is asked for.
pub const DEFAULT_MAX_HISTORY_ENTRIES: usize = 1000;

/// Seconds in a day.
pub const SECONDS_PER_DAY: u64 = 86400;

/// One connection of the history.
#[derive(Debug)]
pub struct ConnectionHistory {
    /// The identifier of the connection
    pub id: String,
    /// The identifier of the peer
    pub peer_id: String,
    /// When the connection began, in milliseconds since the epoch
    pub timestamp: u64,
    /// How long it lasted, in seconds; `None` while it lasts
    pub duration_secs: Option<u64>,
    /// `outgoing` or `incoming`
    pub direction: String,
    /// Whether it was established
    pub success: bool,
    /// Why it ended, where that is known
    pub disconnect_reason: Option<String>,
}

/// A peer that is known.
#[derive(Debug)]
pub struct KnownPeer {
    /// The identifier of the peer
    pub peer_id: String,
    /// The name the user gave it
    pub display_name: Option<String>,
    /// When it was last seen, in milliseconds since the epoch
    pub last_seen: u64,
    /// Whether it is a favorite
    pub favorite: bool,
    /// Connections that were established with it
    pub connection_count: u32,
    /// Notes of the user
    pub notes: Option<String>,
}

/// All that is stored.
pub struct StorageData {
    /// The version of the layout of the data
    pub version: u32,
    /// The history of connections
    pub connections_history: Vec<ConnectionHistory>,
    /// The known peers, by identifier
    pub known_peers: TextMap<KnownPeer>,
    /// The preferences of the user, by name
    pub user_preferences: TextMap<String>,
    /// When the data was last saved, in milliseconds since the epoch
    pub last_saved: u64,
}

/// The store: the data in memory, where it is kept on disk, and how long a
/// history it keeps.
pub struct Storage {
    storage_path: String,
    backup_path: String,
    data: StorageData,
    max_history_entries: usize,
}

/// Numbers about the stored data.
#[derive(Debug, Clone, Copy, PartialEq, Eq, Structural)]
pub struct StorageStats {
    pub total_connections: usize,
    pub known_peers: usize,
    pub favorite_peers: usize,
    pub preferences: usize,
    pub last_saved: u64,
}

/// What was found of a file of stored data.
pub enum StoredFile {
    /// There is no such file.
    Missing,
    /// The file is there, but holds no stored data.
    Unreadable,
    /// The data that the file holds.
    Read(StorageData),
}

fn copy_text(text: &Option<String>) -> (copy: Option<String>)
    ensures
        copy == *text,
{
    match text {
        Some(s) => Some(s.clone()),
        None => None,
    }
}

impl Clone for ConnectionHistory {
    fn clone(&self) -> (copy: Self)
        ensures
            copy == *self,
    {
        ConnectionHistory {
            id: self.id.clone(),
            peer_id: self.peer_id.clone(),
            timestamp: self.timestamp,
            duration_secs: self.duration_secs,
            direction: self.direction.clone(),
            success: self.success,
            disconnect_reason: copy_text(&self.disconnect_reason),
        }
    }
}

impl Clone for KnownPeer {
    fn clone(&self) -> (copy: Self)
        ensures
            copy == *self,
    {
        KnownPeer {
            peer_id: self.peer_id.clone(),
            display_name: copy_text(&self.display_name),
            last_seen: self.last_seen,
            favorite: self.favorite,
            connection_count: self.connection_count,
            notes: copy_text(&self.notes),
        }
    }
}

impl Dated for ConnectionHistory {
    open spec fn stamp(&self) -> u64 {
        self.timestamp
    }

    fn time_stamp(&self) -> (t: u64) {
        self.timestamp
    }
}

impl Dated for KnownPeer {
    open spec fn stamp(&self) -> u64 {
        self.last_seen
    }

    fn time_stamp(&self) -> (t: u64) {
        self.last_seen
    }
}

/// The version of the layout of data written now.
pub fn default_version() -> (version: u32)
    ensures
        version == 1,
{
    1
}

impl StorageData {
    /// As many values as keys in each map, and no key twice.
    pub open spec fn wf(&self) -> bool {
        self.known_peers.wf() && self.user_preferences.wf()
    }

    /// The stored data of a fresh store: nothing, never saved.
    pub fn empty() -> (data: Self)
        ensures
            data.wf(),
            data.version == 0,
            data.connections_history@.len() == 0,
            data.known_peers.map() == Map::<Seq<char>, KnownPeer>::empty(),
            data.user_preferences.map() == Map::<Seq<char>, String>::empty(),
            data.last_saved == 0,
    {
        StorageData {
            version: 0,
            connections_history: Vec::new(),
            known_peers: TextMap::new(),
            user_preferences: TextMap::new(),
            last_saved: 0,
        }
    }
}

/// The first `limit` records, or all of them where there are fewer or
/// `limit` is `None`.
pub open spec fn limited<T>(records: Seq<T>, limit: Option<usize>) -> Seq<T> {
    match limit {
        Some(n) => if n < records.len() {
            records.take(n as int)
        } else {
            records
        },
        None => records,
    }
}

/// The history after `entry` came in: the entry goes last; where that makes
/// more than `max` entries, the `max` newest are kept, newest first.
pub open spec fn history_with(
    history: Seq<ConnectionHistory>,
    entry: ConnectionHistory,
    max: usize,
) -> Seq<ConnectionHistory> {
    let grown = history.push(entry);
    if grown.len() > max {
        newest_first(grown).take(max as int)
    } else {
        grown
    }
}

/// The entries of `history` that began at `cutoff_ms` or later, in their
/// order.
pub open spec fn since(history: Seq<ConnectionHistory>, cutoff_ms: u64) -> Seq<ConnectionHistory>
    decreases history.len(),
{
    if history.len() == 0 {
        history
    } else if history.last().timestamp >= cutoff_ms {
        since(history.drop_last(), cutoff_ms).push(history.last())
    } else {
        since(history.drop_last(), cutoff_ms)
    }
}

/// The time, in milliseconds since the epoch, `days` days before the time
/// `now_secs`, in seconds since the epoch; the epoch or the end of time
/// where it would lie beyond.
pub open spec fn cutoff_ms(now_secs: u64, days: u64) -> u64 {
    let back = days * SECONDS_PER_DAY;
    if back >= now_secs {
        0
    } else if (now_secs - back) * 1000 > u64::MAX {
        u64::MAX
    } else {
        ((now_secs - back) * 1000) as u64
    }
}

/// The favorites among `peers`, in their order.
pub open spec fn favorites(peers: Seq<KnownPeer>) -> Seq<KnownPeer>
    decreases peers.len(),
{
    if peers.len() == 0 {
        peers
    } else if peers.last().favorite {
        favorites(peers.drop_last()).push(peers.last())
    } else {
        favorites(peers.drop_last())
    }
}

/// The position of the first entry of the history whose identifier is `id`.
pub open spec fn first_with_id(history: Seq<ConnectionHistory>, id: Seq<char>) -> Option<int> {
    if exists|i: int| 0 <= i < history.len() && history[i].id@ == id {
        Some(
            choose|i: int|
                0 <= i < history.len() && history[i].id@ == id && forall|j: int|
                    0 <= j < i ==> history[j].id@ != id,
        )
    } else {
        None
    }
}

/// The records that the references point to.
pub open spec fn targets<T>(refs: Seq<&T>) -> Seq<T> {
    Seq::new(refs.len(), |i: int| *refs[i])
}

impl Storage {
    /// The data in memory.
    pub closed spec fn stored(&self) -> StorageData {
        self.data
    }

    /// Entries of the history that the store keeps.
    pub closed spec fn max_history(&self) -> usize {
        self.max_history_entries
    }

    /// Where the data is kept on disk.
    pub closed spec fn storage_file(&self) -> Seq<char> {
        self.storage_path@
    }

    /// Where the backup of the data is kept on disk.
    pub closed spec fn backup_file(&self) -> Seq<char> {
        self.backup_path@
    }

    /// The stored data is well formed.
    pub open spec fn wf(&self) -> bool {
        self.stored().wf()
    }

    /// The history of connections.
    pub open spec fn history(&self) -> Seq<ConnectionHistory> {
        self.stored().connections_history@
    }

    /// The known peers, by identifier.
    pub open spec fn peers(&self) -> Map<Seq<char>, KnownPeer> {
        self.stored().known_peers.map()
    }

    /// The preferences, by name.
    pub open spec fn preferences(&self) -> Map<Seq<char>, String> {
        self.stored().user_preferences.map()
    }

    /// A store for the directory `storage_dir` that holds `data`, what was
    /// loaded from there, and keeps a history of `max_history_entries`
    /// entries, a thousand where no number is given.
    pub fn new(storage_dir: &str, max_history_entries: Option<usize>, data: StorageData) -> (store:
        Self)
        ensures
            store.stored() == data,
            store.storage_file() == storage_dir@ + "/storage.json"@,
            store.backup_file() == storage_dir@ + "/storage.backup.json"@,
            store.max_history() == match max_history_entries {
                Some(n) => n,
                None => DEFAULT_MAX_HISTORY_ENTRIES,
            },
    {
        Storage {
            storage_path: concat(storage_dir, "/storage.json"),
            backup_path: concat(storage_dir, "/storage.backup.json"),
            data,
            max_history_entries: match max_history_entries {
                Some(n) => n,
                None => DEFAULT_MAX_HISTORY_ENTRIES,
            },
        }
    }

    /// The data to start from, given what was found of the storage file and
    /// of its backup: that of the storage file where it could be read, else
    /// that of the backup where it could be read, else none.
    pub fn load_from_file(main: StoredFile, backup: StoredFile) -> (data: StorageData)
        ensures
            match main {
                StoredFile::Read(found) => data == found,
                _ => match backup {
                    StoredFile::Read(found) => data == found,
                    _ => data.wf() && data.connections_history@.len() == 0 && data.known_peers.map()
                        == Map::<Seq<char>, KnownPeer>::empty() && data.user_preferences.map()
                        == Map::<Seq<char>, String>::empty() && data.last_saved == 0
                        && data.version == 0,
                },
            },
    {
        match main {
            StoredFile::Read(found) => found,
            _ => match backup {
                StoredFile::Read(found) => found,
                _ => StorageData::empty(),
            },
        }
    }

    /// Where the data is kept on disk.
    pub fn storage_path(&self) -> (path: &String)
        ensures
            path@ == self.storage_file(),
    {
        &self.storage_path
    }

    /// Where the backup of the data is kept on disk.
    pub fn backup_path(&self) -> (path: &String)
        ensures
            path@ == self.backup_file(),
    {
        &self.backup_path
    }

    /// The data in memory.
    pub fn data(&self) -> (data: &StorageData)
        ensures
            *data == self.stored(),
    {
        &self.data
    }

    /// Notes that the data is being saved at `now_ms`.
    pub fn mark_saved(&mut self, now_ms: u64)
        ensures
            final(self).stored() == (StorageData { last_saved: now_ms, ..old(self).stored() }),
            final(self).max_history() == old(self).max_history(),
            final(self).storage_file() == old(self).storage_file(),
            final(self).backup_file() == old(self).backup_file(),
    {
        self.data.last_saved = now_ms;
    }

    /// Adds an entry to the history. Where that makes more entries than the
    /// store keeps, only the newest are kept, newest first.
    pub fn add_connection_history(&mut self, entry: ConnectionHistory)
        ensures
            final(self).stored() == (StorageData {
                connections_history: final(self).stored().connections_history,
                ..old(self).stored()
            }),
            final(self).history() == history_with(
                old(self).history(),
                entry,
                old(self).max_history(),
            ),
            final(self).max_history() == old(self).max_history(),
            final(self).storage_file() == old(self).storage_file(),
            final(self).backup_file() == old(self).backup_file(),
    {
        self.data.connections_history.push(entry);
        if self.data.connections_history.len() > self.max_history_entries {
            let order = newest_first_order(&self.data.connections_history);
            let ghost grown = self.data.connections_history@;
            let mut newest: Vec<ConnectionHistory> = Vec::new();
            let mut i: usize = 0;
            while i < self.max_history_entries
                invariant
                    i <= self.max_history_entries < grown.len(),
                    grown == self.data.connections_history@,
                    order@.len() == grown.len(),
                    forall|k: int| 0 <= k < order@.len() ==> #[trigger] order@[k] < grown.len(),
                    newest@ == picked(grown, order@).take(i as int),
                decreases self.max_history_entries - i,
            {
                newest.push(self.data.connections_history[order[i]].clone());
                assert(newest@ =~= picked(grown, order@).take(i + 1));
                i += 1;
            }
            self.data.connections_history = newest;
        }
    }

    /// Changes the first entry of the history whose identifier is `id` as
    /// `update_fn` says, and tells whether there is such an entry.
    pub fn update_connection_history<F>(&mut self, id: &str, update_fn: F) -> (found: bool) where
        F: FnOnce(ConnectionHistory) -> ConnectionHistory,

        requires
            forall|entry: ConnectionHistory| update_fn.requires((entry,)),
        ensures
            final(self).stored() == (StorageData {
                connections_history: final(self).stored().connections_history,
                ..old(self).stored()
            }),
            final(self).max_history() == old(self).max_history(),
            final(self).storage_file() == old(self).storage_file(),
            final(self).backup_file() == old(self).backup_file(),
            match first_with_id(old(self).history(), id@) {
                Some(at) => found && final(self).history().len() == old(self).history().len()
                    && update_fn.ensures((old(self).history()[at],), final(self).history()[at])
                    && forall|i: int|
                    0 <= i < old(self).history().len() && i != at ==> final(self).history()[i]
                        == old(self).history()[i],
                None => !found && final(self).history() == old(self).history(),
            },
    {
        let mut i: usize = 0;
        while i < self.data.connections_history.len()
            invariant
                i <= self.data.connections_history.len(),
                *self == *old(self),
                forall|entry: ConnectionHistory| update_fn.requires((entry,)),
                forall|k: int| 0 <= k < i ==> self.data.connections_history@[k].id@ != id@,
            decreases self.data.connections_history.len() - i,
        {
            if crate::text::str_equal(self.data.connections_history[i].id.as_str(), id) {
                let ghost before = self.data.connections_history@;
                proof {
                    let at = first_with_id(before, id@).unwrap();
                    assert(at == i);
                }
                let entry = self.data.connections_history.remove(i);
                let updated = update_fn(entry);
                self.data.connections_history.insert(i, updated);
                assert(self.data.connections_history@.len() == before.len());
                return true;
            }
            i += 1;
        }
        false
    }

    /// The history newest first, at most `limit` entries of it.
    pub fn get_connection_history(&self, limit: Option<usize>) -> (entries: Vec<
        &ConnectionHistory,
    >)
        ensures
            targets(entries@) == limited(newest_first(self.history()), limit),
    {
        let order = newest_first_order(&self.data.connections_history);
        let count: usize = match limit {
            Some(n) => if n < order.len() {
                n
            } else {
                order.len()
            },
            None => order.len(),
        };
        let mut entries: Vec<&ConnectionHistory> = Vec::new();
        let mut i: usize = 0;
        while i < count
            invariant
                i <= count <= order@.len(),
                order@.len() == self.data.connections_history@.len(),
                forall|k: int|
                    0 <= k < order@.len() ==> #[trigger] order@[k]
                        < self.data.connections_history@.len(),
                entries@.len() == i,
                targets(entries@) == picked(self.data.connections_history@, order@).take(i as int),
            decreases count - i,
        {
            let ghost before = entries@;
            entries.push(&self.data.connections_history[order[i]]);
            proof {
                let sorted = picked(self.data.connections_history@, order@);
                assert forall|k: int| 0 <= k < i + 1 implies targets(entries@)[k] == sorted.take(
                    i + 1,
                )[k] by {
                    if k < i {
                        assert(targets(before)[k] == sorted.take(i as int)[k]);
                        assert(entries@[k] == before[k]);
                    }
                }
                assert(targets(entries@) =~= sorted.take(i + 1));
            }
            i += 1;
        }
        proof {
            let sorted = picked(self.data.connections_history@, order@);
            assert(sorted.take(sorted.len() as int) =~= sorted);
        }
        entries
    }
}


impl Storage {
    /// Adds a known peer, in place of the peer of the same identifier where
    /// there is one.
    pub fn upsert_known_peer(&mut self, peer: KnownPeer)
        requires
            old(self).wf(),
        ensures
            final(self).wf(),
            final(self).peers() == old(self).peers().insert(peer.peer_id@, peer),
            final(self).history() == old(self).history(),
            final(self).preferences() == old(self).preferences(),
            final(self).stored().last_saved == old(self).stored().last_saved,
            final(self).max_history() == old(self).max_history(),
    {
        let key = peer.peer_id.clone();
        let _ = self.data.known_peers.insert(key, peer);
    }

    /// The known peer of the identifier `peer_id`.
    pub fn get_known_peer(&self, peer_id: &str) -> (r: Option<&KnownPeer>)
        requires
            self.wf(),
        ensures
            match r {
                Some(peer) => self.peers().contains_key(peer_id@) && *peer
                    == self.peers()[peer_id@],
                None => !self.peers().contains_key(peer_id@),
            },
    {
        self.data.known_peers.get(peer_id)
    }

    /// The known peers that are favorites, in the order in which the peers
    /// became known.
    pub fn get_favorite_peers(&self) -> (peers: Vec<&KnownPeer>)
        requires
            self.wf(),
        ensures
            targets(peers@) == favorites(self.stored().known_peers.items()),
    {
        let all = self.data.known_peers.values();
        let mut peers: Vec<&KnownPeer> = Vec::new();
        let mut i: usize = 0;
        assert(all@.take(0) =~= Seq::<KnownPeer>::empty());
        assert(targets(peers@) =~= favorites(all@.take(0)));
        while i < all.len()
            invariant
                i <= all.len(),
                targets(peers@) == favorites(all@.take(i as int)),
            decreases all.len() - i,
        {
            let ghost before = peers@;
            assert(all@.take(i + 1).drop_last() =~= all@.take(i as int));
            assert(all@.take(i + 1).last() == all@[i as int]);
            if all[i].favorite {
                peers.push(&all[i]);
                proof {
                    assert(targets(before).len() == before.len());
                    assert forall|k: int| 0 <= k < peers@.len() implies targets(peers@)[k]
                        == favorites(all@.take(i as int)).push(all@[i as int])[k] by {
                        if k < before.len() {
                            assert(peers@[k] == before[k]);
                            assert(targets(before)[k] == favorites(all@.take(i as int))[k]);
                        }
                    }
                    assert(targets(peers@) =~= favorites(all@.take(i as int)).push(
                        all@[i as int],
                    ));
                }
            }
            i += 1;
        }
        assert(all@.take(all@.len() as int) =~= all@);
        peers
    }

    /// All known peers, the one seen last first.
    pub fn get_all_known_peers(&self) -> (peers: Vec<&KnownPeer>)
        requires
            self.wf(),
        ensures
            targets(peers@) == newest_first(self.stored().known_peers.items()),
    {
        let all = self.data.known_peers.values();
        let order = newest_first_order(all);
        let mut peers: Vec<&KnownPeer> = Vec::new();
        let mut i: usize = 0;
        while i < order.len()
            invariant
                i <= order@.len(),
                order@.len() == all@.len(),
                forall|k: int| 0 <= k < order@.len() ==> #[trigger] order@[k] < all@.len(),
                peers@.len() == i,
                targets(peers@) == picked(all@, order@).take(i as int),
            decreases order.len() - i,
        {
            let ghost before = peers@;
            peers.push(&all[order[i]]);
            proof {
                let sorted = picked(all@, order@);
                assert forall|k: int| 0 <= k < i + 1 implies targets(peers@)[k] == sorted.take(
                    i + 1,
                )[k] by {
                    if k < i {
                        assert(targets(before)[k] == sorted.take(i as int)[k]);
                        assert(peers@[k] == before[k]);
                    }
                }
                assert(targets(peers@) =~= sorted.take(i + 1));
            }
            i += 1;
        }
        proof {
            let sorted = picked(all@, order@);
            assert(sorted.take(sorted.len() as int) =~= sorted);
        }
        peers
    }

    /// Marks the known peer of the identifier `peer_id` as a favorite, or as
    /// none, and tells whether there is such a peer.
    pub fn set_peer_favorite(&mut self, peer_id: &str, favorite: bool) -> (found: bool)
        requires
            old(self).wf(),
        ensures
            final(self).wf(),
            found == old(self).peers().contains_key(peer_id@),
            final(self).peers() == if found {
                old(self).peers().insert(
                    peer_id@,
                    KnownPeer { favorite, ..old(self).peers()[peer_id@] },
                )
            } else {
                old(self).peers()
            },
            final(self).history() == old(self).history(),
            final(self).preferences() == old(self).preferences(),
            final(self).stored().last_saved == old(self).stored().last_saved,
            final(self).max_history() == old(self).max_history(),
    {
        let changed = match self.data.known_peers.get(peer_id) {
            Some(peer) => {
                let mut copy = peer.clone();
                copy.favorite = favorite;
                copy
            },
            None => {
                return false;
            },
        };
        let _ = self.data.known_peers.insert(String::from_str(peer_id), changed);
        true
    }

    /// Sets the preference `key` to `value`.
    pub fn set_preference(&mut self, key: String, value: String)
        requires
            old(self).wf(),
        ensures
            final(self).wf(),
            final(self).preferences() == old(self).preferences().insert(key@, value),
            final(self).history() == old(self).history(),
            final(self).peers() == old(self).peers(),
            final(self).stored().last_saved == old(self).stored().last_saved,
            final(self).max_history() == old(self).max_history(),
    {
        let _ = self.data.user_preferences.insert(key, value);
    }

    /// The preference `key`.
    pub fn get_preference(&self, key: &str) -> (r: Option<&String>)
        requires
            self.wf(),
        ensures
            match r {
                Some(value) => self.preferences().contains_key(key@) && *value
                    == self.preferences()[key@],
                None => !self.preferences().contains_key(key@),
            },
    {
        self.data.user_preferences.get(key)
    }

    /// Takes the preference `key` out, and hands its value back.
    pub fn remove_preference(&mut self, key: &str) -> (former: Option<String>)
        requires
            old(self).wf(),
        ensures
            final(self).wf(),
            final(self).preferences() == old(self).preferences().remove(key@),
            former == if old(self).preferences().contains_key(key@) {
                Some(old(self).preferences()[key@])
            } else {
                None::<String>
            },
            final(self).history() == old(self).history(),
            final(self).peers() == old(self).peers(),
            final(self).stored().last_saved == old(self).stored().last_saved,
            final(self).max_history() == old(self).max_history(),
    {
        self.data.user_preferences.remove(key)
    }

    /// Drops from the history the connections that began more than
    /// `days_to_keep` days before now, by the clock.
    pub fn cleanup_history(&mut self, days_to_keep: u64)
        ensures
            exists|now_secs: u64|
                final(self).history() == since(
                    old(self).history(),
                    cutoff_ms(now_secs, days_to_keep),
                ),
            final(self).stored() == (StorageData {
                connections_history: final(self).stored().connections_history,
                ..old(self).stored()
            }),
            final(self).max_history() == old(self).max_history(),
    {
        let now_secs = unix_millis() / 1000;
        self.cleanup_history_at(days_to_keep, now_secs);
        assert(self.history() == since(old(self).history(), cutoff_ms(now_secs, days_to_keep)));
    }

    /// Drops from the history the connections that began more than
    /// `days_to_keep` days before `now_secs`, in seconds since the epoch.
    pub fn cleanup_history_at(&mut self, days_to_keep: u64, now_secs: u64)
        ensures
            final(self).history() == since(
                old(self).history(),
                cutoff_ms(now_secs, days_to_keep),
            ),
            final(self).stored() == (StorageData {
                connections_history: final(self).stored().connections_history,
                ..old(self).stored()
            }),
            final(self).max_history() == old(self).max_history(),
            final(self).storage_file() == old(self).storage_file(),
            final(self).backup_file() == old(self).backup_file(),
    {
        assert(days_to_keep * SECONDS_PER_DAY <= u64::MAX * 86400) by (nonlinear_arith)
            requires
                days_to_keep <= u64::MAX,
                SECONDS_PER_DAY == 86400,
        ;
        let back: u128 = days_to_keep as u128 * SECONDS_PER_DAY as u128;
        let cutoff: u64 = if back >= now_secs as u128 {
            0
        } else {
            assert((now_secs - back) * 1000 <= u64::MAX * 1000) by (nonlinear_arith)
                requires
                    0 <= back < now_secs <= u64::MAX,
            ;
            let from: u128 = (now_secs as u128 - back) * 1000;
            if from > u64::MAX as u128 {
                u64::MAX
            } else {
                from as u64
            }
        };
        assert(cutoff == cutoff_ms(now_secs, days_to_keep));
        let mut recent: Vec<ConnectionHistory> = Vec::new();
        let mut i: usize = 0;
        let ghost history = self.data.connections_history@;
        assert(history.take(0) =~= Seq::<ConnectionHistory>::empty());
        while i < self.data.connections_history.len()
            invariant
                i <= history.len(),
                history == self.data.connections_history@,
                recent@ == since(history.take(i as int), cutoff),
            decreases self.data.connections_history.len() - i,
        {
            assert(history.take(i + 1).drop_last() =~= history.take(i as int));
            assert(history.take(i + 1).last() == history[i as int]);
            if self.data.connections_history[i].timestamp >= cutoff {
                recent.push(self.data.connections_history[i].clone());
            }
            i += 1;
        }
        assert(history.take(history.len() as int) =~= history);
        self.data.connections_history = recent;
    }

    /// Numbers about the stored data.
    pub fn get_stats(&self) -> (stats: StorageStats)
        requires
            self.wf(),
        ensures
            stats.total_connections == self.history().len(),
            stats.known_peers == self.peers().dom().len(),
            stats.favorite_peers == favorites(self.stored().known_peers.items()).len(),
            stats.preferences == self.preferences().dom().len(),
            stats.last_saved == self.stored().last_saved,
    {
        let favorite_peers = self.get_favorite_peers().len();
        StorageStats {
            total_connections: self.data.connections_history.len(),
            known_peers: self.data.known_peers.len(),
            favorite_peers,
            preferences: self.data.user_preferences.len(),
            last_saved: self.data.last_saved,
        }
    }
}

/// The identifier of the connection to `peer_id` that began at `timestamp`.
pub open spec fn connection_id(peer_id: Seq<char>, timestamp: u64) -> Seq<char> {
    "conn-"@ + crate::text::decimal(timestamp as nat) + "-"@ + peer_id
}

/// The peer `peer_id` after a connection with it was established at
/// `timestamp`: seen then, with one connection more; a peer that was not
/// known has only this one.
pub open spec fn seen_again(known: Option<KnownPeer>, peer_id: String, timestamp: u64)
    -> KnownPeer {
    match known {
        Some(peer) => KnownPeer {
            last_seen: timestamp,
            connection_count: if peer.connection_count == u32::MAX {
                u32::MAX
            } else {
                (peer.connection_count + 1) as u32
            },
            ..peer
        },
        None => KnownPeer {
            peer_id,
            display_name: None,
            last_seen: timestamp,
            favorite: false,
            connection_count: 1,
            notes: None,
        },
    }
}

/// The entry is that of an outgoing connection to `peer_id` that was
/// established at `timestamp` and still lasts.
pub open spec fn is_connection_entry(
    entry: ConnectionHistory,
    peer_id: Seq<char>,
    timestamp: u64,
) -> bool {
    &&& entry.id@ == connection_id(peer_id, timestamp)
    &&& entry.peer_id@ == peer_id
    &&& entry.timestamp == timestamp
    &&& entry.duration_secs is None
    &&& entry.direction@ == "outgoing"@
    &&& entry.success
    &&& entry.disconnect_reason is None
}

impl Storage {
    /// The store `next` is this store after an outgoing connection to
    /// `peer_id`, established at `timestamp`, was recorded with the history
    /// entry `entry` and the peer as `peer`.
    pub open spec fn recorded(
        &self,
        next: Storage,
        peer_id: Seq<char>,
        timestamp: u64,
        entry: ConnectionHistory,
        peer: KnownPeer,
    ) -> bool {
        &&& is_connection_entry(entry, peer_id, timestamp)
        &&& next.history() == history_with(self.history(), entry, self.max_history())
        &&& peer.peer_id@ == peer_id || self.peers().contains_key(peer_id)
        &&& peer == seen_again(
            if self.peers().contains_key(peer_id) {
                Some(self.peers()[peer_id])
            } else {
                None
            },
            peer.peer_id,
            timestamp,
        )
        &&& next.peers() == self.peers().insert(peer_id, peer)
    }

    /// Records that an outgoing connection to `peer_id` was established at
    /// `timestamp`, in milliseconds since the epoch: the history gets an
    /// entry for it, and the peer is known as seen then, with one connection
    /// more.
    pub fn record_connection(&mut self, peer_id: &str, timestamp: u64)
        requires
            old(self).wf(),
        ensures
            final(self).wf(),
            exists|entry: ConnectionHistory, peer: KnownPeer|
                old(self).recorded(*final(self), peer_id@, timestamp, entry, peer),
            final(self).preferences() == old(self).preferences(),
            final(self).stored().last_saved == old(self).stored().last_saved,
            final(self).max_history() == old(self).max_history(),
    {
        let mut id = String::from_str("conn-");
        id.append(crate::text::decimal_string(timestamp).as_str());
        id.append("-");
        id.append(peer_id);
        let entry = ConnectionHistory {
            id,
            peer_id: String::from_str(peer_id),
            timestamp,
            duration_secs: None,
            direction: "outgoing".to_string(),
            success: true,
            disconnect_reason: None,
        };
        let ghost noted = entry;
        self.add_connection_history(entry);
        let peer = match self.data.known_peers.get(peer_id) {
            Some(known) => {
                let mut peer = known.clone();
                peer.last_seen = timestamp;
                if peer.connection_count < u32::MAX {
                    peer.connection_count = peer.connection_count + 1;
                }
                peer
            },
            None => KnownPeer {
                peer_id: String::from_str(peer_id),
                display_name: None,
                last_seen: timestamp,
                favorite: false,
                connection_count: 1,
                notes: None,
            },
        };
        let ghost seen = peer;
        let _ = self.data.known_peers.insert(String::from_str(peer_id), peer);
        assert(old(self).recorded(*self, peer_id@, timestamp, noted, seen));
    }
}

/// What is kept of the history after a cleanup began at the cutoff or
/// later, and every entry that began at the cutoff or later is kept.
pub proof fn lemma_since(history: Seq<ConnectionHistory>, cutoff: u64)
    ensures
        since(history, cutoff).len() <= history.len(),
        forall|i: int|
            0 <= i < since(history, cutoff).len() ==> (#[trigger] since(
                history,
                cutoff,
            )[i]).timestamp >= cutoff && history.contains(since(history, cutoff)[i]),
        forall|i: int|
            0 <= i < history.len() && history[i].timestamp >= cutoff ==> since(
                history,
                cutoff,
            ).contains(#[trigger] history[i]),
    decreases history.len(),
{
    if history.len() > 0 {
        let front = history.drop_last();
        lemma_since(front, cutoff);
        let result = since(history, cutoff);
        assert forall|i: int| 0 <= i < result.len() implies (#[trigger] result[i]).timestamp
            >= cutoff && history.contains(result[i]) by {
            if i < since(front, cutoff).len() {
                assert(result[i] == since(front, cutoff)[i]);
                let j = choose|j: int| 0 <= j < front.len() && front[j] == result[i];
                assert(history[j] == result[i]);
            } else {
                assert(result[i] == history[history.len() - 1]);
            }
        }
        assert forall|i: int|
            0 <= i < history.len() && history[i].timestamp >= cutoff implies result.contains(
            #[trigger] history[i],
        ) by {
            if i < front.len() {
                assert(front[i] == history[i]);
                let j = choose|j: int|
                    0 <= j < since(front, cutoff).len() && since(front, cutoff)[j] == front[i];
                assert(result[j] == history[i]);
            } else {
                assert(result[result.len() - 1] == history[i]);
            }
        }
    }
}

/// The history never holds more entries than the store keeps, once it holds
/// no more: an entry that comes in pushes the oldest out.
pub proof fn lemma_history_bounded(
    history: Seq<ConnectionHistory>,
    entry: ConnectionHistory,
    max: usize,
)
    requires
        history.len() <= max,
    ensures
        history_with(history, entry, max).len() <= max,
{
    crate::ordering::lemma_newest_first(history.push(entry));
}


/// The store for the directory `storage_dir` that holds `data`, what was
/// loaded from there, and keeps a history of the default length.
pub fn init_global_storage(storage_dir: &str, data: StorageData) -> (store: Storage)
    ensures
        store.stored() == data,
        store.storage_file() == storage_dir@ + "/storage.json"@,
        store.backup_file() == storage_dir@ + "/storage.backup.json"@,
        store.max_history() == DEFAULT_MAX_HISTORY_ENTRIES,
{
    Storage::new(storage_dir, None, data)
}

} // verus!
