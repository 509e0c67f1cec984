use acso7::persistence::{
    auto_key, auto_ns, compress, decompress, entry_name, expired_snapshots, first_decodable, newest_first, Acos7Error, NullBackend,
    PersistenceBackend, WorldStore,
};
use std::collections::BTreeMap;
use std::sync::Mutex;

#[derive(Debug, Default)]
struct MemBackend {
    store: Mutex<BTreeMap<String, Vec<u8>>>,
}

impl PersistenceBackend for MemBackend {
    fn save(&self, key: &[&str], value: Vec<u8>) {
        self.store.lock().unwrap().insert(key.join("/"), value);
    }
    fn load(&self, key: &[&str]) -> Option<Vec<u8>> {
        self.store.lock().unwrap().get(&key.join("/")).cloned()
    }
    fn delete(&self, key: &[&str]) {
        self.store.lock().unwrap().remove(&key.join("/"));
    }
    fn list(&self, prefix: &[&str]) -> Vec<String> {
        let joined = prefix.join("/");
        let needle = if joined.is_empty() {
            String::new()
        } else {
            format!("{joined}/")
        };
        let mut children: Vec<String> = self
            .store
            .lock()
            .unwrap()
            .keys()
            .filter_map(|k| k.strip_prefix(&needle))
            .map(|rest| rest.split('/').next().unwrap().to_string())
            .collect();
        children.sort();
        children.dedup();
        children
    }
}

fn snapshot(text: &str) -> Vec<u8> {
    compress(text.as_bytes()).unwrap()
}

fn decode(bytes: &[u8]) -> Option<Vec<u8>> {
    decompress(bytes).ok()
}

#[test]
fn autosaves_are_namespaced_per_world() {
    let backend = MemBackend::default();
    let store = WorldStore::new(&backend);

    let a = "20250101000000000001";
    let b = "20250101000000000002";

    store.save_snapshot(a, "20250101000000000003", snapshot("Endeavour"), 10);
    store.save_snapshot(a, "20250101000000000004", snapshot("Endeavour"), 10);
    store.save_snapshot(b, "20250101000000000005", snapshot("Nostromo"), 10);

    assert_eq!(backend.list(&auto_ns(a)).len(), 2);
    assert_eq!(backend.list(&auto_ns(b)).len(), 1);
    let worlds = backend.list(&["worlds"]);
    let loadable = worlds
        .iter()
        .filter(|id| store.load_latest_with(id, decode).is_some())
        .count();
    assert_eq!(loadable, 2);
}

#[test]
fn rotation_keeps_only_the_newest() {
    let backend = MemBackend::default();
    let store = WorldStore::new(&backend);
    let id = "20250101000000000001";

    for stamp in ["20250101000000000010", "20250101000000000011", "20250101000000000012", "20250101000000000013", "20250101000000000014"] {
        store.save_snapshot(id, stamp, snapshot("Endeavour"), 3);
    }

    assert_eq!(backend.list(&auto_ns(id)).len(), 3);
    assert_eq!(
        backend.list(&auto_ns(id)),
        vec!["20250101000000000012", "20250101000000000013", "20250101000000000014"]
    );
    assert!(store.load_latest_with(id, decode).is_some());
}

#[test]
fn load_latest_skips_corrupt_snapshots() {
    let backend = MemBackend::default();
    let store = WorldStore::new(&backend);
    let id = "20250101000000000001";
    store.save_snapshot(id, "20250101000000000002", snapshot("Endeavour"), 10);

    backend.save(&auto_key(id, "99999999999999999999"), vec![0xff, 0x00, 0x13]);

    let loaded = store.load_latest_with(id, decode);
    assert!(loaded.is_some());
    assert_eq!(loaded.unwrap(), b"Endeavour".to_vec());
}

#[test]
fn load_latest_prefers_the_newest_stamp() {
    let backend = MemBackend::default();
    let store = WorldStore::new(&backend);
    let id = "w";
    store.save_snapshot(id, "2", snapshot("second"), 10);
    store.save_snapshot(id, "1", snapshot("first"), 10);
    store.save_snapshot(id, "3", snapshot("third"), 10);
    assert_eq!(store.load_latest_with(id, decode).unwrap(), b"third".to_vec());
    assert_eq!(store.stamps_newest_first(id), vec!["3", "2", "1"]);
}

#[test]
fn load_latest_of_unknown_world_is_none() {
    let backend = MemBackend::default();
    let store = WorldStore::new(&backend);
    assert!(store.load_latest_with("nobody", decode).is_none());
}

#[test]
fn delete_removes_every_snapshot_of_a_world() {
    let backend = MemBackend::default();
    let store = WorldStore::new(&backend);
    store.save_snapshot("a", "1", snapshot("x"), 10);
    store.save_snapshot("a", "2", snapshot("y"), 10);
    store.save_snapshot("b", "1", snapshot("z"), 10);
    store.delete("a");
    assert!(backend.list(&auto_ns("a")).is_empty());
    assert_eq!(backend.list(&auto_ns("b")).len(), 1);
}

#[test]
fn expired_snapshots_are_the_oldest() {
    let stamps: Vec<String> = ["5", "1", "4", "2", "3"].iter().map(|s| s.to_string()).collect();
    assert_eq!(expired_snapshots(&stamps, 3), vec!["1", "2"]);
    assert!(expired_snapshots(&stamps, 5).is_empty());
    assert!(expired_snapshots(&stamps, 9).is_empty());
    assert_eq!(expired_snapshots(&stamps, 0), vec!["1", "2", "3", "4", "5"]);
}

#[test]
fn keys_name_the_world_namespace() {
    assert_eq!(auto_ns("id"), ["worlds", "id", "auto"]);
    assert_eq!(auto_key("id", "42"), ["worlds", "id", "auto", "42"]);
}

#[test]
fn compression_round_trips() {
    let data: Vec<u8> = (0..2000u32).map(|i| (i % 251) as u8).collect();
    let packed = compress(&data).unwrap();
    assert_ne!(packed, data);
    assert_eq!(decompress(&packed).unwrap(), data);
    assert_eq!(decompress(&compress(&[]).unwrap()).unwrap(), Vec::<u8>::new());
}

#[test]
fn decompressing_garbage_is_an_io_error() {
    match decompress(&[0xff, 0x00, 0x13]) {
        Err(Acos7Error::Io(_)) => {}
        other => panic!("expected an I/O error, got {other:?}"),
    }
}

#[test]
fn null_backend_keeps_nothing() {
    let backend = NullBackend;
    backend.save(&["a"], vec![1, 2, 3]);
    assert!(backend.load(&["a"]).is_none());
    assert!(backend.list(&[]).is_empty());
    let store = WorldStore::new(&backend);
    store.save_snapshot("w", "1", vec![1], 3);
    assert!(store.load_latest_with("w", decode).is_none());
}

#[test]
fn listed_files_name_their_keys() {
    assert_eq!(entry_name("20250101.dat"), Some("20250101".to_string()));
    assert_eq!(entry_name("20250101.tmp"), None);
    assert_eq!(entry_name("worlds"), Some("worlds".to_string()));
    assert_eq!(entry_name(".dat"), Some(String::new()));
    assert_eq!(entry_name("é.dat"), Some("é".to_string()));
    assert_eq!(entry_name("dat"), Some("dat".to_string()));
}

#[test]
fn newest_first_orders_stamps_descending() {
    let listed = vec!["20240102".to_string(), "20231231".to_string(), "20240101".to_string(), "20240101".to_string()];
    assert_eq!(newest_first(&listed), vec!["20240102", "20240101", "20240101", "20231231"]);
    assert!(newest_first(&Vec::new()).is_empty());
}

#[test]
fn null_backend_store_lists_no_stamps() {
    let backend = NullBackend;
    backend.save(&["worlds", "a"], vec![1, 2, 3]);
    assert_eq!(backend.load(&["worlds", "a"]), None);
    assert!(backend.list(&["worlds"]).is_empty());
    let store = WorldStore::new(&backend);
    assert!(store.stamps_newest_first("a").is_empty());
    assert!(store.load_latest_with("a", |b: &[u8]| Some(b.to_vec())).is_none());
}

#[test]
fn first_decodable_takes_the_first_that_decodes() {
    let blobs = vec![None, Some(vec![0xff, 0x00, 0x13]), Some(compress(b"second").unwrap()), Some(compress(b"third").unwrap())];
    assert_eq!(first_decodable(&blobs, decode), Some(b"second".to_vec()));
    assert_eq!(first_decodable(&vec![None, Some(vec![1, 2, 3])], decode), None);
    assert_eq!(first_decodable(&Vec::new(), decode), None);
}

#[test]
fn compression_always_succeeds() {
    for data in [Vec::new(), vec![0u8; 10_000], (0..=255u8).collect::<Vec<u8>>()] {
        let packed = compress(&data);
        assert!(packed.is_ok());
        assert_eq!(decompress(&packed.unwrap()).unwrap(), data);
    }
}
