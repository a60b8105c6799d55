use ghost_hand_client::storage::{
    default_version, ConnectionHistory, KnownPeer, Storage, StorageData, StoredFile,
};
use ghost_hand_client::text_map::TextMap;

fn entry(index: u64) -> ConnectionHistory {
    ConnectionHistory {
        id: format!("conn-{}", index),
        peer_id: format!("PEER-{}", index),
        timestamp: 1000 + index,
        duration_secs: Some(60),
        direction: "outgoing".to_string(),
        success: true,
        disconnect_reason: None,
    }
}

fn peer(id: &str, last_seen: u64, favorite: bool) -> KnownPeer {
    KnownPeer {
        peer_id: id.to_string(),
        display_name: None,
        last_seen,
        favorite,
        connection_count: 1,
        notes: None,
    }
}

#[test]
fn test_storage_creation() {
    let data = Storage::load_from_file(StoredFile::Missing, StoredFile::Missing);
    let storage = Storage::new("ghosthand_storage_test", None, data);
    assert_eq!(storage.data().connections_history.len(), 0);
}

#[test]
fn test_connection_history() {
    let mut storage = Storage::new("ghosthand_storage_test_history", Some(10), StorageData::empty());

    for i in 0..15 {
        storage.add_connection_history(entry(i));
    }

    assert_eq!(storage.data().connections_history.len(), 10);
}

#[test]
fn test_known_peers() {
    let mut storage = Storage::new("ghosthand_storage_test_peers", None, StorageData::empty());

    storage.upsert_known_peer(KnownPeer {
        peer_id: "PEER-123".to_string(),
        display_name: Some("Mon PC Bureau".to_string()),
        last_seen: 1000,
        favorite: false,
        connection_count: 1,
        notes: None,
    });

    let peer = storage.get_known_peer("PEER-123").unwrap();
    assert_eq!(peer.display_name.as_ref().unwrap(), "Mon PC Bureau");

    storage.set_peer_favorite("PEER-123", true);
    assert_eq!(storage.get_favorite_peers().len(), 1);
}

fn ids(entries: &[&ConnectionHistory]) -> Vec<String> {
    entries.iter().map(|entry| entry.id.clone()).collect()
}

#[test]
fn history_keeps_the_newest_entries() {
    let mut storage = Storage::new("dir", Some(3), StorageData::empty());
    assert_eq!(storage.storage_path(), "dir/storage.json");
    assert_eq!(storage.backup_path(), "dir/storage.backup.json");
    for index in [5u64, 1, 9] {
        storage.add_connection_history(entry(index));
    }
    // Up to the limit the entries stay in the order they came in.
    let stored: Vec<&ConnectionHistory> = storage.data().connections_history.iter().collect();
    assert_eq!(ids(&stored), vec!["conn-5", "conn-1", "conn-9"]);
    storage.add_connection_history(entry(7));
    let stored: Vec<&ConnectionHistory> = storage.data().connections_history.iter().collect();
    assert_eq!(ids(&stored), vec!["conn-9", "conn-7", "conn-5"]);
    // An entry older than all that are kept leaves at once.
    storage.add_connection_history(entry(0));
    let stored: Vec<&ConnectionHistory> = storage.data().connections_history.iter().collect();
    assert_eq!(ids(&stored), vec!["conn-9", "conn-7", "conn-5"]);

    let mut none = Storage::new("dir", Some(0), StorageData::empty());
    none.add_connection_history(entry(1));
    assert!(none.data().connections_history.is_empty());
}

#[test]
fn history_is_read_newest_first_and_stably() {
    let mut storage = Storage::new("dir", None, StorageData::empty());
    let mut twin = entry(5);
    twin.id = "twin".to_string();
    storage.add_connection_history(entry(5));
    storage.add_connection_history(entry(9));
    storage.add_connection_history(twin);
    storage.add_connection_history(entry(1));
    assert_eq!(
        ids(&storage.get_connection_history(None)),
        vec!["conn-9", "conn-5", "twin", "conn-1"]
    );
    assert_eq!(ids(&storage.get_connection_history(Some(2))), vec!["conn-9", "conn-5"]);
    assert_eq!(ids(&storage.get_connection_history(Some(9))).len(), 4);
    assert!(storage.get_connection_history(Some(0)).is_empty());
}

#[test]
fn history_entries_are_updated_by_identifier() {
    let mut storage = Storage::new("dir", None, StorageData::empty());
    storage.add_connection_history(entry(1));
    storage.add_connection_history(entry(2));
    let found = storage.update_connection_history("conn-2", |mut entry| {
        entry.duration_secs = Some(7);
        entry.disconnect_reason = Some("bye".to_string());
        entry
    });
    assert!(found);
    let history = storage.get_connection_history(None);
    assert_eq!(history[0].id, "conn-2");
    assert_eq!(history[0].duration_secs, Some(7));
    assert_eq!(history[0].disconnect_reason.as_deref(), Some("bye"));
    assert_eq!(history[1].duration_secs, Some(60));
    assert!(!storage.update_connection_history("conn-3", |entry| entry));
}

#[test]
fn history_is_cleaned_by_age() {
    let mut storage = Storage::new("dir", None, StorageData::empty());
    let day_ms = 86_400_000u64;
    for (name, timestamp) in [("a", 10 * day_ms), ("b", 3 * day_ms), ("c", 8 * day_ms - 1), ("d", 8 * day_ms)] {
        let mut e = entry(0);
        e.id = name.to_string();
        e.timestamp = timestamp;
        storage.add_connection_history(e);
    }
    // Ten days after the epoch, what began eight days after it or later is kept.
    storage.cleanup_history_at(2, 10 * 86_400);
    let stored: Vec<&ConnectionHistory> = storage.data().connections_history.iter().collect();
    assert_eq!(ids(&stored), vec!["a", "d"]);
    // Keeping more days than have passed keeps everything.
    storage.cleanup_history_at(u64::MAX, 10 * 86_400);
    assert_eq!(storage.data().connections_history.len(), 2);
    // By the clock all of this is long past.
    storage.cleanup_history(1);
    assert!(storage.data().connections_history.is_empty());
}

#[test]
fn peers_are_kept_by_identifier() {
    let mut storage = Storage::new("dir", None, StorageData::empty());
    storage.upsert_known_peer(peer("one", 10, false));
    storage.upsert_known_peer(peer("two", 30, true));
    storage.upsert_known_peer(peer("three", 20, true));
    storage.upsert_known_peer(peer("one", 40, false));
    assert_eq!(storage.get_known_peer("one").unwrap().last_seen, 40);
    assert!(storage.get_known_peer("four").is_none());

    let names = |peers: Vec<&KnownPeer>| -> Vec<String> {
        peers.iter().map(|peer| peer.peer_id.clone()).collect()
    };
    assert_eq!(names(storage.get_all_known_peers()), vec!["one", "two", "three"]);
    assert_eq!(names(storage.get_favorite_peers()), vec!["two", "three"]);

    assert!(storage.set_peer_favorite("one", true));
    assert!(storage.set_peer_favorite("two", false));
    assert!(!storage.set_peer_favorite("four", true));
    assert_eq!(names(storage.get_favorite_peers()), vec!["one", "three"]);
    assert_eq!(storage.get_known_peer("one").unwrap().last_seen, 40);

    let stats = storage.get_stats();
    assert_eq!(stats.known_peers, 3);
    assert_eq!(stats.favorite_peers, 2);
    assert_eq!(stats.total_connections, 0);
    assert_eq!(stats.preferences, 0);
    assert_eq!(stats.last_saved, 0);
}

#[test]
fn preferences_and_statistics() {
    let mut storage = Storage::new("dir", None, StorageData::empty());
    storage.set_preference("theme".to_string(), "dark".to_string());
    storage.set_preference("lang".to_string(), "fr".to_string());
    storage.set_preference("theme".to_string(), "light".to_string());
    assert_eq!(storage.get_preference("theme").unwrap(), "light");
    assert!(storage.get_preference("font").is_none());
    assert_eq!(storage.remove_preference("theme").as_deref(), Some("light"));
    assert_eq!(storage.remove_preference("theme"), None);
    assert!(storage.get_preference("theme").is_none());
    storage.add_connection_history(entry(1));
    storage.mark_saved(123);
    let stats = storage.get_stats();
    assert_eq!(stats.preferences, 1);
    assert_eq!(stats.total_connections, 1);
    assert_eq!(stats.last_saved, 123);
    assert_eq!(default_version(), 1);
}

#[test]
fn loading_falls_back_to_the_backup_and_then_to_nothing() {
    let with = |saved: u64| {
        let mut data = StorageData::empty();
        data.last_saved = saved;
        data
    };
    let data = Storage::load_from_file(StoredFile::Read(with(1)), StoredFile::Read(with(2)));
    assert_eq!(data.last_saved, 1);
    let data = Storage::load_from_file(StoredFile::Unreadable, StoredFile::Read(with(2)));
    assert_eq!(data.last_saved, 2);
    let data = Storage::load_from_file(StoredFile::Missing, StoredFile::Read(with(3)));
    assert_eq!(data.last_saved, 3);
    let data = Storage::load_from_file(StoredFile::Unreadable, StoredFile::Unreadable);
    assert_eq!(data.last_saved, 0);
    assert!(data.connections_history.is_empty());
}

#[test]
fn text_maps_keep_each_key_once_in_order() {
    let mut map: TextMap<u32> = TextMap::new();
    assert_eq!(map.len(), 0);
    assert_eq!(map.insert("b".to_string(), 1), None);
    assert_eq!(map.insert("a".to_string(), 2), None);
    assert_eq!(map.insert("b".to_string(), 3), Some(1));
    assert_eq!(map.len(), 2);
    assert_eq!(map.get("b"), Some(&3));
    assert_eq!(map.get("c"), None);
    assert!(map.contains_key("a"));
    assert_eq!(map.find("a"), Some(1));
    assert_eq!(map.key_at(0), "b");
    assert_eq!(*map.value_at(1), 2);
    assert_eq!(map.values(), &vec![3, 2]);
    assert_eq!(map.remove("b"), Some(3));
    assert_eq!(map.remove("b"), None);
    assert_eq!(map.key_at(0), "a");
    assert_eq!(map.len(), 1);
}

#[test]
fn established_connections_are_remembered() {
    let mut storage = Storage::new("dir", None, StorageData::empty());
    storage.record_connection("GHD-b", 1_000);
    storage.record_connection("GHD-b", 2_000);
    storage.record_connection("GHD-c", 3_000);
    let history = storage.get_connection_history(None);
    assert_eq!(ids(&history), vec!["conn-3000-GHD-c", "conn-2000-GHD-b", "conn-1000-GHD-b"]);
    assert_eq!(history[0].direction, "outgoing");
    assert_eq!(history[0].duration_secs, None);
    assert!(history[0].success);
    let peer = storage.get_known_peer("GHD-b").unwrap();
    assert_eq!(peer.connection_count, 2);
    assert_eq!(peer.last_seen, 2_000);
    assert!(!peer.favorite);
    assert_eq!(storage.get_known_peer("GHD-c").unwrap().connection_count, 1);

    let mut known = peer_of_many();
    known.record_connection("veteran", 5);
    let veteran = known.get_known_peer("veteran").unwrap();
    assert_eq!(veteran.connection_count, u32::MAX);
    assert!(veteran.favorite);
    assert_eq!(veteran.last_seen, 5);
}

fn peer_of_many() -> Storage {
    let mut storage = Storage::new("dir", None, StorageData::empty());
    let mut veteran = peer("veteran", 1, true);
    veteran.connection_count = u32::MAX;
    storage.upsert_known_peer(veteran);
    storage
}
