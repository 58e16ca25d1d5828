//! Plans and settlements one by one: what each hands out on given
//! arguments, and each failure with an input that gives it.

use rocksdb_sessions::backup::{signed, BackupCatalogEntry, BackupCommand, BackupInfo, RocksDBBackup};
use rocksdb_sessions::catalog::Families;
use rocksdb_sessions::engine::{
    Compaction, Compression, Direction, Entry, FamilyChange, Flush, LogLevel, OpenOptions,
    PropertyQuery, Read, Scan, Scanned, Seek, Step, Stepped, Tuning, Write, MAX_OPEN_FILES,
};
use rocksdb_sessions::error::{ErrorKind, SessionError};
use rocksdb_sessions::iterator::RocksDBIterator;
use rocksdb_sessions::reply;
use rocksdb_sessions::snapshot::RocksDBSnapshot;
use rocksdb_sessions::text::{decode, encode, same_bytes, size_text};
use rocksdb_sessions::transaction::{Ending, RocksDBTransaction, TransactionState};
use rocksdb_sessions::write_batch::RocksDBWriteBatch;
use rocksdb_sessions::{KeyValueResult, RocksDB};

fn s(text: &str) -> String {
    text.to_string()
}

fn b(text: &str) -> Vec<u8> {
    text.as_bytes().to_vec()
}

fn store_with(families: &[&str]) -> RocksDB {
    let listed = families.iter().map(|name| s(name)).collect();
    let options = OpenOptions::store(s("/data/store"), None, Some(listed));
    RocksDB::open(&options, Ok(())).expect("a session")
}

fn plain_options() -> OpenOptions {
    OpenOptions::session(s("/data/store"), Some(60))
}

fn engine_failure() -> SessionError {
    SessionError::Engine(s("IO error: lock held"))
}

fn failed<T>() -> Result<T, String> {
    Err(s("IO error: lock held"))
}

// Opening.

#[test]
fn every_handle_is_opened_with_the_fixed_options() {
    let plain = OpenOptions::session(s("/p"), Some(3600));
    assert_eq!(
        plain,
        OpenOptions {
            path: s("/p"),
            ttl_secs: Some(3600),
            create_if_missing: true,
            max_open_files: 1000,
            log_level: LogLevel::Warn,
            compression: None,
            merge_operator: false,
            families: vec![],
            transactional: false,
        }
    );
    assert_eq!(MAX_OPEN_FILES, 1000);
    let transactional = OpenOptions::transactional(s("/p"));
    assert_eq!(
        transactional,
        OpenOptions { ttl_secs: None, transactional: true, ..OpenOptions::session(s("/p"), None) }
    );
}

#[test]
fn the_store_is_opened_on_the_listed_families_and_the_default() {
    let fresh = OpenOptions::store(s("/p"), None, None);
    assert_eq!(fresh.families, vec![s("default")]);
    assert_eq!(fresh.compression, Some(Compression::Snappy));
    assert!(fresh.merge_operator);
    assert!(fresh.create_if_missing);
    assert_eq!(fresh.max_open_files, 1000);
    assert_eq!(fresh.log_level, LogLevel::Warn);
    assert_eq!(fresh.ttl_secs, None);

    let listed = OpenOptions::store(s("/p"), Some(5), Some(vec![s("default"), s("a"), s("b")]));
    assert_eq!(listed.families, vec![s("default"), s("a"), s("b")]);
    assert_eq!(listed.ttl_secs, Some(5));

    let without_default = OpenOptions::store(s("/p"), None, Some(vec![s("a"), s("a"), s("b")]));
    assert_eq!(without_default.families, vec![s("a"), s("b"), s("default")]);

    let none_listed = OpenOptions::store(s("/p"), None, Some(vec![]));
    assert_eq!(none_listed.families, vec![s("default")]);
}

#[test]
fn a_session_knows_the_families_its_handle_was_opened_on() {
    assert_eq!(store_with(&["default", "a"]).column_families(), vec![s("default"), s("a")]);
    assert_eq!(store_with(&[]).column_families(), vec![s("default")]);
    let plainly = RocksDB::open(&plain_options(), Ok(())).expect("a session");
    assert_eq!(plainly.column_families(), Vec::<String>::new());
    assert_eq!(plainly.put(s("k"), s("v"), Some(s("default"))), Err(SessionError::FamilyNotFound));
}

#[test]
fn a_failed_opening_gives_no_session_of_any_kind() {
    let options = plain_options();
    assert!(matches!(RocksDB::open(&options, failed()), Err(e) if e == engine_failure()));
    assert!(matches!(RocksDBIterator::open(&options, failed()), Err(e) if e == engine_failure()));
    assert!(matches!(RocksDBWriteBatch::open(&options, failed()), Err(e) if e == engine_failure()));
    assert!(matches!(RocksDBSnapshot::open(&options, failed()), Err(e) if e == engine_failure()));
    assert!(matches!(RocksDBBackup::open(&options, failed()), Err(e) if e == engine_failure()));
    assert!(matches!(RocksDBTransaction::open(&options, failed()), Err(e) if e == engine_failure()));
}

// The registry.

#[test]
fn the_registry_holds_each_name_once_in_order() {
    let mut families = Families::new();
    assert_eq!(families.names(), Vec::<String>::new());
    families.add(s("b"));
    families.add(s("a"));
    families.add(s("b"));
    assert_eq!(families.names(), vec![s("b"), s("a")]);
    assert!(families.contains(&s("a")));
    assert!(!families.contains(&s("c")));
    families.remove(&s("b"));
    assert_eq!(families.names(), vec![s("a")]);
    families.remove(&s("b"));
    assert_eq!(families.names(), vec![s("a")]);
    assert_eq!(families.resolve(&None), Ok(()));
    assert_eq!(families.resolve(&Some(s("a"))), Ok(()));
    assert_eq!(families.resolve(&Some(s("b"))), Err(SessionError::FamilyNotFound));
    assert_eq!(families.resolve(&Some(s("A"))), Err(SessionError::FamilyNotFound));
}

#[test]
fn the_registry_of_a_handle_follows_what_it_was_opened_on() {
    assert_eq!(Families::of_handle(&vec![]).names(), Vec::<String>::new());
    assert_eq!(Families::of_handle(&vec![s("x")]).names(), vec![s("x"), s("default")]);
    assert_eq!(Families::opened(&None).names(), vec![s("default")]);
    assert_eq!(
        Families::opened(&Some(vec![s("x"), s("default"), s("x")])).names(),
        vec![s("x"), s("default")]
    );
}

// Keyed plans.

#[test]
fn a_put_carries_key_and_value_as_utf8() {
    let db = store_with(&["default", "users"]);
    assert_eq!(
        db.put(s("key1"), s("value1"), None),
        Ok(Write::Put { family: None, key: b("key1"), value: b("value1") })
    );
    assert_eq!(
        db.put(s("clé"), s("日本"), Some(s("users"))),
        Ok(Write::Put {
            family: Some(s("users")),
            key: vec![0x63, 0x6c, 0xc3, 0xa9],
            value: vec![0xe6, 0x97, 0xa5, 0xe6, 0x9c, 0xac],
        })
    );
    assert_eq!(
        db.put(s(""), s(""), None),
        Ok(Write::Put { family: None, key: vec![], value: vec![] })
    );
    assert_eq!(db.put(s("k"), s("v"), Some(s("nowhere"))), Err(SessionError::FamilyNotFound));
}

#[test]
fn merge_delete_and_get_name_their_family_and_key() {
    let db = store_with(&["users"]);
    assert_eq!(
        db.merge(s("k"), s("[]"), Some(s("users"))),
        Ok(Write::Merge { family: Some(s("users")), key: b("k"), operand: b("[]") })
    );
    assert_eq!(db.delete(s("k"), None), Ok(Write::Delete { family: None, key: b("k") }));
    assert_eq!(db.get(s("k"), Some(s("default"))), Ok(Read { family: Some(s("default")), key: b("k") }));
    assert_eq!(db.merge(s("k"), s("[]"), Some(s("x"))), Err(SessionError::FamilyNotFound));
    assert_eq!(db.delete(s("k"), Some(s("x"))), Err(SessionError::FamilyNotFound));
    assert_eq!(db.get(s("k"), Some(s("x"))), Err(SessionError::FamilyNotFound));
}

#[test]
fn plans_that_name_only_a_family_resolve_it() {
    let db = store_with(&["users"]);
    assert_eq!(db.flush(None), Ok(Flush { family: None }));
    assert_eq!(db.flush(Some(s("users"))), Ok(Flush { family: Some(s("users")) }));
    assert_eq!(db.flush(Some(s("x"))), Err(SessionError::FamilyNotFound));
    assert_eq!(
        db.get_property(s("rocksdb.stats"), None),
        Ok(PropertyQuery { family: None, name: s("rocksdb.stats") })
    );
    assert_eq!(db.get_property(s("rocksdb.stats"), Some(s("x"))), Err(SessionError::FamilyNotFound));
    assert_eq!(db.all(Some(s("users"))), Ok(Scan { family: Some(s("users")), start: None, limit: None }));
    assert_eq!(db.keys(None), Ok(Scan { family: None, start: None, limit: None }));
    assert_eq!(db.all(Some(s("x"))), Err(SessionError::FamilyNotFound));
    assert_eq!(db.keys(Some(s("x"))), Err(SessionError::FamilyNotFound));
    assert_eq!(
        db.compact_range(Some(s("a")), None, None),
        Ok(Compaction { family: None, start: Some(b("a")), end: None })
    );
    assert_eq!(
        db.compact_range(None, Some(s("z")), Some(s("users"))),
        Ok(Compaction { family: Some(s("users")), start: None, end: Some(b("z")) })
    );
    assert_eq!(db.compact_range(None, None, Some(s("x"))), Err(SessionError::FamilyNotFound));
    assert_eq!(db.close(), Ok(()));
}

// Tuning.

#[test]
fn the_compression_names_are_the_seven_algorithms() {
    assert_eq!(Compression::named(&s("none")), Some(Compression::Uncompressed));
    assert_eq!(Compression::named(&s("snappy")), Some(Compression::Snappy));
    assert_eq!(Compression::named(&s("zlib")), Some(Compression::Zlib));
    assert_eq!(Compression::named(&s("bz2")), Some(Compression::Bz2));
    assert_eq!(Compression::named(&s("lz4")), Some(Compression::Lz4));
    assert_eq!(Compression::named(&s("lz4hc")), Some(Compression::Lz4hc));
    assert_eq!(Compression::named(&s("zstd")), Some(Compression::Zstd));
    for other in ["", "Snappy", "gzip", "lz4 ", "zst", "none\n"] {
        assert_eq!(Compression::named(&s(other)), None);
    }
}

#[test]
fn a_compression_change_hands_the_engine_the_name() {
    let db = store_with(&["users"]);
    assert_eq!(
        db.set_compression(s("zstd"), None),
        Ok(Tuning { family: None, options: vec![(s("compression"), s("zstd"))] })
    );
    assert_eq!(
        db.set_compression(s("none"), Some(s("users"))),
        Ok(Tuning { family: Some(s("users")), options: vec![(s("compression"), s("none"))] })
    );
    assert_eq!(db.set_compression(s("brotli"), None), Err(SessionError::InvalidCompression));
    assert_eq!(db.set_compression(s("brotli"), Some(s("x"))), Err(SessionError::InvalidCompression));
    assert_eq!(db.set_compression(s("lz4"), Some(s("x"))), Err(SessionError::FamilyNotFound));
}

#[test]
fn sizes_are_handed_to_the_engine_in_decimal() {
    let db = store_with(&["users"]);
    assert_eq!(
        db.set_write_buffer_size(67108864, None),
        Ok(Tuning { family: None, options: vec![(s("write_buffer_size"), s("67108864"))] })
    );
    assert_eq!(
        db.set_write_buffer_size(0, Some(s("users"))),
        Ok(Tuning { family: Some(s("users")), options: vec![(s("write_buffer_size"), s("0"))] })
    );
    assert_eq!(
        db.set_cache_size(1009, None),
        Ok(Tuning { family: None, options: vec![(s("block_cache"), s("1009"))] })
    );
    assert_eq!(
        db.set_cache_size(usize::MAX, None),
        Ok(Tuning { family: None, options: vec![(s("block_cache"), usize::MAX.to_string())] })
    );
    assert_eq!(db.set_write_buffer_size(1, Some(s("x"))), Err(SessionError::FamilyNotFound));
    assert_eq!(db.set_cache_size(1, Some(s("x"))), Err(SessionError::FamilyNotFound));
}

#[test]
fn option_overrides_pass_through_in_order() {
    let db = store_with(&[]);
    let options = vec![(s("max_write_buffer_number"), s("4")), (s("disable_auto_compactions"), s("true"))];
    assert_eq!(
        db.set_options(options.clone(), None),
        Ok(Tuning { family: None, options: options.clone() })
    );
    assert_eq!(db.set_options(vec![], Some(s("default"))), Ok(Tuning { family: Some(s("default")), options: vec![] }));
    assert_eq!(db.set_options(options, Some(s("x"))), Err(SessionError::FamilyNotFound));
}

// Families.

#[test]
fn family_changes_are_planned_only_where_there_is_work() {
    let mut db = store_with(&["users"]);
    assert_eq!(db.create_column_family(s("users")), None);
    assert_eq!(db.create_column_family(s("default")), None);
    assert_eq!(db.create_column_family(s("orders")), Some(FamilyChange::Create { name: s("orders") }));
    assert_eq!(db.drop_column_family(s("orders")), None);
    assert_eq!(db.drop_column_family(s("users")), Some(FamilyChange::Drop { name: s("users") }));

    assert_eq!(db.settle_family(FamilyChange::Create { name: s("orders") }, Ok(())), Ok(()));
    assert_eq!(db.column_families(), vec![s("users"), s("default"), s("orders")]);
    assert_eq!(db.settle_family(FamilyChange::Drop { name: s("users") }, Ok(())), Ok(()));
    assert_eq!(db.column_families(), vec![s("default"), s("orders")]);
    assert_eq!(db.settle_family(FamilyChange::Drop { name: s("orders") }, failed()), Err(engine_failure()));
    assert_eq!(db.column_families(), vec![s("default"), s("orders")]);
    assert_eq!(db.put(s("k"), s("v"), Some(s("users"))), Err(SessionError::FamilyNotFound));
    assert!(db.put(s("k"), s("v"), Some(s("orders"))).is_ok());
}

#[test]
fn listings_pass_through() {
    assert_eq!(
        RocksDB::list_column_families(Ok(vec![s("default"), s("cf1")])),
        Ok(vec![s("default"), s("cf1")])
    );
    assert_eq!(RocksDB::list_column_families(failed()), Err(engine_failure()));
    assert_eq!(RocksDB::get_live_files(Ok(vec![s("/000012.sst")])), Ok(vec![s("/000012.sst")]));
    assert_eq!(RocksDB::get_live_files(failed()), Err(engine_failure()));
    assert_eq!(RocksDB::repair(failed()), Err(engine_failure()));
}

// Settling.

#[test]
fn a_lookup_settles_to_text_absence_or_failure() {
    assert_eq!(reply::value(Ok(Some(b("value1")))), Ok(Some(s("value1"))));
    assert_eq!(reply::value(Ok(Some(vec![]))), Ok(Some(s(""))));
    assert_eq!(reply::value(Ok(Some(vec![0xe6, 0x97, 0xa5]))), Ok(Some(s("日"))));
    assert_eq!(reply::value(Ok(None)), Ok(None));
    assert_eq!(reply::value(Ok(Some(vec![0xff, 0xfe]))), Err(SessionError::Encoding));
    assert_eq!(reply::value(Ok(Some(vec![0xe6, 0x97]))), Err(SessionError::Encoding));
    assert_eq!(reply::value(failed()), Err(engine_failure()));
}

#[test]
fn plain_answers_settle_to_themselves() {
    assert_eq!(reply::done(Ok(())), Ok(()));
    assert_eq!(reply::done(failed()), Err(engine_failure()));
    assert_eq!(reply::text(Ok(Some(s("42")))), Ok(Some(s("42"))));
    assert_eq!(reply::text(Ok(None)), Ok(None));
    assert_eq!(reply::text(failed()), Err(engine_failure()));
    assert_eq!(reply::names(Ok(vec![s("a"), s("b")])), Ok(vec![s("a"), s("b")]));
    assert_eq!(reply::names(failed()), Err(engine_failure()));
}

fn entries(list: &[(&str, &str)]) -> Vec<Entry> {
    list.iter().map(|(key, value)| Entry { key: b(key), value: b(value) }).collect()
}

#[test]
fn a_walk_settles_to_pairs_of_texts_in_order() {
    let found = || scanned(&[("a", "1"), ("b", "2"), ("c", "3")]);
    assert_eq!(reply::entries(found()), Ok(vec![(s("a"), s("1")), (s("b"), s("2")), (s("c"), s("3"))]));
    assert_eq!(reply::keys(found()), Ok(vec![s("a"), s("b"), s("c")]));
    assert_eq!(reply::entries(scanned(&[])), Ok(vec![]));
    assert_eq!(reply::keys(scanned(&[])), Ok(vec![]));
    assert_eq!(reply::decode_range(&found().entries, 1, 2), Ok(vec![(s("b"), s("2"))]));
    assert_eq!(reply::decode_range(&found().entries, 3, 3), Ok(vec![]));
}

#[test]
fn a_walk_with_bytes_that_are_no_text_is_an_encoding_failure() {
    let bad_value = || {
        let mut found = scanned(&[("a", "1"), ("b", "2")]);
        found.entries[1].value = vec![0xc0];
        found
    };
    assert_eq!(reply::entries(bad_value()), Err(SessionError::Encoding));
    assert_eq!(reply::keys(bad_value()), Err(SessionError::Encoding));
    assert_eq!(reply::decode_range(&bad_value().entries, 0, 1), Ok(vec![(s("a"), s("1"))]));
    let bad_key = || {
        let mut found = scanned(&[("a", "1"), ("b", "2")]);
        found.entries[0].key = vec![0x80];
        found
    };
    assert_eq!(reply::entries(bad_key()), Err(SessionError::Encoding));
    assert_eq!(reply::decode_range(&bad_key().entries, 1, 2), Ok(vec![(s("b"), s("2"))]));
}

#[test]
fn a_walk_that_the_engine_cut_short_is_an_engine_failure() {
    let cut = || Scanned { entries: entries(&[("a", "1")]), failure: Some(s("IO error: lock held")) };
    assert_eq!(reply::entries(cut()), Err(engine_failure()));
    assert_eq!(reply::keys(cut()), Err(engine_failure()));
    let cut_and_bad = || Scanned {
        entries: vec![Entry { key: vec![0xff], value: vec![] }],
        failure: Some(s("IO error: lock held")),
    };
    assert_eq!(reply::entries(cut_and_bad()), Err(SessionError::Encoding));
    assert_eq!(reply::keys(cut_and_bad()), Err(SessionError::Encoding));
}

// Text.

#[test]
fn text_crosses_as_utf8() {
    assert_eq!(encode(&s("héllo")), vec![0x68, 0xc3, 0xa9, 0x6c, 0x6c, 0x6f]);
    assert_eq!(decode(vec![0x68, 0xc3, 0xa9]), Ok(s("hé")));
    assert_eq!(decode(vec![0xc3]), Err(SessionError::Encoding));
    assert_eq!(decode(encode(&s("round trip ✓"))), Ok(s("round trip ✓")));
    assert_eq!(size_text(0), s("0"));
    assert_eq!(size_text(9), s("9"));
    assert_eq!(size_text(10), s("10"));
    assert_eq!(size_text(4096), s("4096"));
    assert_eq!(size_text(usize::MAX), usize::MAX.to_string());
    assert!(same_bytes(&b("abc"), &b("abc")));
    assert!(!same_bytes(&b("abc"), &b("abd")));
    assert!(!same_bytes(&b("abc"), &b("ab")));
    assert!(same_bytes(&vec![], &vec![]));
}

// The positional cursor.

#[test]
fn seeks_say_where_to_put_the_iterator() {
    let db = store_with(&[]);
    assert_eq!(db.seek_to_first(), Seek::First);
    assert_eq!(db.seek_to_last(), Seek::Last);
    assert_eq!(db.seek(s("key2")), Seek::From(b("key2")));
    assert_eq!(db.seek_for_prev(s("key2")), Seek::Back(b("key2")));
}

#[test]
fn the_cursor_is_the_key_it_stands_on() {
    let mut db = store_with(&[]);
    assert_eq!(db.valid(), None);
    assert_eq!(db.next(), None);
    assert_eq!(db.prev(), None);
    assert!(!db.settle_valid(true));

    db.place(Some(b("key2")));
    assert_eq!(db.valid(), Some(Seek::From(b("key2"))));
    assert!(db.settle_valid(true));
    assert!(!db.settle_valid(false));
    assert_eq!(db.next(), Some(Step { from: b("key2"), direction: Direction::Forward }));
    assert_eq!(db.prev(), Some(Step { from: b("key2"), direction: Direction::Backward }));

    db.place(None);
    assert_eq!(db.valid(), None);
}

#[test]
fn a_step_hands_out_the_entry_and_moves_the_cursor() {
    let mut db = store_with(&[]);
    db.place(Some(b("key2")));
    let stepped = Stepped { key: b("key2"), value: b("value2"), landed: Some(b("key3")) };
    assert_eq!(
        db.advance(Some(stepped)),
        KeyValueResult { key: Some(s("key2")), value: Some(s("value2")) }
    );
    assert_eq!(db.next(), Some(Step { from: b("key3"), direction: Direction::Forward }));

    let last = Stepped { key: vec![0x6b, 0xc3, 0xa9], value: vec![0x61, 0xff, 0x62], landed: None };
    assert_eq!(
        db.advance(Some(last)),
        KeyValueResult { key: Some(s("ké")), value: Some(s("a\u{fffd}b")) }
    );
    assert_eq!(db.next(), None);

    db.place(Some(b("zzz")));
    assert_eq!(db.advance(None), KeyValueResult { key: None, value: None });
    assert_eq!(db.valid(), None);
}

// The batch cursor.

fn cursor() -> RocksDBIterator {
    RocksDBIterator::open(&plain_options(), Ok(())).expect("a session")
}

fn scanned(list: &[(&str, &str)]) -> Scanned {
    Scanned { entries: entries(list), failure: None }
}

#[test]
fn the_first_walk_starts_at_the_first_entry() {
    let it = cursor();
    assert_eq!(it.next(3), Ok(Scan { family: None, start: None, limit: Some(3) }));
    assert_eq!(it.next(0), Ok(Scan { family: None, start: None, limit: Some(0) }));
    assert_eq!(it.next(usize::MAX), Ok(Scan { family: None, start: None, limit: Some(usize::MAX) }));
}

#[test]
fn a_later_walk_resumes_at_the_last_key_and_asks_for_one_more() {
    let mut it = cursor();
    let batch = it.advance(2, scanned(&[("a", "1"), ("b", "2")]));
    assert_eq!(batch, Ok(vec![(s("a"), s("1")), (s("b"), s("2"))]));
    assert_eq!(it.next(2), Ok(Scan { family: None, start: Some(b("b")), limit: Some(3) }));
    assert_eq!(it.next(usize::MAX), Ok(Scan { family: None, start: Some(b("b")), limit: Some(usize::MAX) }));

    let batch = it.advance(2, scanned(&[("b", "2"), ("c", "3"), ("d", "4")]));
    assert_eq!(batch, Ok(vec![(s("c"), s("3")), (s("d"), s("4"))]));
    assert_eq!(it.next(2), Ok(Scan { family: None, start: Some(b("d")), limit: Some(3) }));
}

#[test]
fn a_walk_that_does_not_begin_with_the_last_key_loses_nothing() {
    let mut it = cursor();
    it.advance(1, scanned(&[("b", "2")])).unwrap();
    let batch = it.advance(2, scanned(&[("c", "3"), ("d", "4"), ("e", "5")]));
    assert_eq!(batch, Ok(vec![(s("c"), s("3")), (s("d"), s("4"))]));
    assert_eq!(it.next(1), Ok(Scan { family: None, start: Some(b("d")), limit: Some(2) }));
}

#[test]
fn a_short_or_empty_batch_is_the_end_of_the_family() {
    let mut it = cursor();
    it.advance(2, scanned(&[("a", "1"), ("b", "2")])).unwrap();
    assert_eq!(it.advance(2, scanned(&[("b", "2"), ("c", "3")])), Ok(vec![(s("c"), s("3"))]));
    assert_eq!(it.next(2), Ok(Scan { family: None, start: Some(b("c")), limit: Some(3) }));
    assert_eq!(it.advance(2, scanned(&[("c", "3")])), Ok(vec![]));
    assert_eq!(it.next(2), Ok(Scan { family: None, start: Some(b("c")), limit: Some(3) }));
    assert_eq!(it.advance(2, scanned(&[])), Ok(vec![]));
    assert_eq!(it.next(2), Ok(Scan { family: None, start: Some(b("c")), limit: Some(3) }));
}

#[test]
fn a_batch_of_no_entries_hands_out_nothing() {
    let mut it = cursor();
    assert_eq!(it.advance(0, scanned(&[("a", "1")])), Ok(vec![]));
    assert_eq!(it.next(1), Ok(Scan { family: None, start: None, limit: Some(1) }));
}

#[test]
fn failures_leave_the_batch_cursor_where_it_was() {
    let mut it = cursor();
    it.advance(1, scanned(&[("a", "1")])).unwrap();

    let broken = || {
        let mut broken = scanned(&[("a", "1"), ("b", "2"), ("c", "3")]);
        broken.entries[2].key = vec![0xff];
        broken
    };
    assert_eq!(it.advance(2, broken()), Err(SessionError::Encoding));
    assert_eq!(it.next(1), Ok(Scan { family: None, start: Some(b("a")), limit: Some(2) }));
    assert_eq!(it.advance(1, broken()), Ok(vec![(s("b"), s("2"))]));

    let mut it = cursor();
    it.advance(1, scanned(&[("a", "1")])).unwrap();
    let cut = || Scanned {
        entries: entries(&[("a", "1"), ("b", "2")]),
        failure: Some(s("IO error: lock held")),
    };
    assert_eq!(it.advance(2, cut()), Err(engine_failure()));
    assert_eq!(it.next(1), Ok(Scan { family: None, start: Some(b("a")), limit: Some(2) }));
    assert_eq!(it.advance(1, cut()), Ok(vec![(s("b"), s("2"))]));
    assert_eq!(it.next(1), Ok(Scan { family: None, start: Some(b("b")), limit: Some(2) }));
}

#[test]
fn binding_a_family_puts_the_walk_at_its_beginning() {
    let options = OpenOptions { families: vec![s("users")], ..plain_options() };
    let mut it = RocksDBIterator::open(&options, Ok(())).expect("a session");
    it.advance(1, scanned(&[("a", "1")])).unwrap();
    assert_eq!(it.iterator(Some(s("users"))), Ok(()));
    assert_eq!(it.next(5), Ok(Scan { family: Some(s("users")), start: None, limit: Some(5) }));
    it.advance(1, scanned(&[("a", "1")])).unwrap();
    assert_eq!(it.reset(), Ok(()));
    assert_eq!(it.next(5), Ok(Scan { family: Some(s("users")), start: None, limit: Some(5) }));
    assert_eq!(it.iterator(Some(s("orders"))), Ok(()));
    assert_eq!(it.next(5), Err(SessionError::FamilyNotFound));
}

// The write batch.

fn batch() -> RocksDBWriteBatch {
    let options = OpenOptions { families: vec![s("users")], ..plain_options() };
    RocksDBWriteBatch::open(&options, Ok(())).expect("a session")
}

#[test]
fn staging_before_start_is_a_session_state_failure() {
    let mut wb = batch();
    assert_eq!(wb.put(s("k"), s("v"), None), Err(SessionError::BatchNotStarted));
    assert_eq!(wb.merge(s("k"), s("v"), None), Err(SessionError::BatchNotStarted));
    assert_eq!(wb.delete(s("k"), None), Err(SessionError::BatchNotStarted));
    assert_eq!(wb.put(s("k"), s("v"), Some(s("nowhere"))), Err(SessionError::BatchNotStarted));
    assert_eq!(wb.write(), Err(SessionError::BatchNotStarted));
    assert_eq!(wb.clear(), Err(SessionError::BatchNotStarted));
    assert_eq!(wb.destroy(), Ok(()));
    assert_eq!(SessionError::BatchNotStarted.kind(), ErrorKind::SessionState);
}

#[test]
fn a_batch_hands_out_what_was_staged_in_order() {
    let mut wb = batch();
    assert_eq!(wb.start(), Ok(()));
    assert_eq!(wb.put(s("k1"), s("v1"), None), Ok(()));
    assert_eq!(wb.merge(s("k2"), s("[]"), Some(s("users"))), Ok(()));
    assert_eq!(wb.put(s("k3"), s("v3"), Some(s("nowhere"))), Err(SessionError::FamilyNotFound));
    assert_eq!(wb.delete(s("k1"), None), Ok(()));
    assert_eq!(
        wb.write(),
        Ok(vec![
            Write::Put { family: None, key: b("k1"), value: b("v1") },
            Write::Merge { family: Some(s("users")), key: b("k2"), operand: b("[]") },
            Write::Delete { family: None, key: b("k1") },
        ])
    );
    assert_eq!(wb.write(), Err(SessionError::BatchNotStarted));
    assert_eq!(wb.put(s("k"), s("v"), None), Err(SessionError::BatchNotStarted));
}

#[test]
fn start_clear_and_destroy_discard_what_was_staged() {
    let mut wb = batch();
    wb.start().unwrap();
    wb.put(s("k1"), s("v1"), None).unwrap();
    wb.start().unwrap();
    wb.put(s("k2"), s("v2"), None).unwrap();
    assert_eq!(wb.write(), Ok(vec![Write::Put { family: None, key: b("k2"), value: b("v2") }]));

    wb.start().unwrap();
    wb.put(s("k1"), s("v1"), None).unwrap();
    assert_eq!(wb.clear(), Ok(()));
    wb.put(s("k3"), s("v3"), None).unwrap();
    assert_eq!(wb.write(), Ok(vec![Write::Put { family: None, key: b("k3"), value: b("v3") }]));

    wb.start().unwrap();
    wb.put(s("k1"), s("v1"), None).unwrap();
    assert_eq!(wb.destroy(), Ok(()));
    assert_eq!(wb.write(), Err(SessionError::BatchNotStarted));

    wb.start().unwrap();
    assert_eq!(wb.write(), Ok(vec![]));
}

// The transaction.

fn transaction() -> RocksDBTransaction {
    RocksDBTransaction::open(&OpenOptions::transactional(s("/data/txn")), Ok(())).expect("a session")
}

#[test]
fn nothing_is_allowed_before_a_transaction_is_started() {
    let mut txn = transaction();
    assert_eq!(txn.current(), TransactionState::NotStarted);
    assert_eq!(txn.put(s("k"), s("v"), None), Err(SessionError::TransactionNotStarted));
    assert_eq!(txn.get(s("k"), None), Err(SessionError::TransactionNotStarted));
    assert_eq!(txn.delete(s("k"), None), Err(SessionError::TransactionNotStarted));
    assert_eq!(txn.merge(s("k"), s("[]"), None), Err(SessionError::TransactionNotStarted));
    assert_eq!(txn.put(s("k"), s("v"), Some(s("nowhere"))), Err(SessionError::TransactionNotStarted));
    assert_eq!(txn.set_savepoint(), Err(SessionError::TransactionNotStarted));
    assert_eq!(txn.rollback_to_savepoint(), Err(SessionError::TransactionNotStarted));
    assert_eq!(txn.commit(), Err(SessionError::TransactionNotStarted));
    assert_eq!(txn.rollback(), Err(SessionError::TransactionNotStarted));
    assert_eq!(txn.current(), TransactionState::NotStarted);
    assert!(!txn.finish());
    assert_eq!(SessionError::TransactionNotStarted.kind(), ErrorKind::SessionState);
}

#[test]
fn an_open_transaction_plans_reads_and_writes() {
    let mut txn = transaction();
    assert_eq!(txn.start(), Ok(()));
    assert_eq!(txn.current(), TransactionState::Active { savepoints: 0 });
    assert_eq!(txn.put(s("k"), s("v"), None), Ok(Write::Put { family: None, key: b("k"), value: b("v") }));
    assert_eq!(txn.merge(s("k"), s("[]"), None), Ok(Write::Merge { family: None, key: b("k"), operand: b("[]") }));
    assert_eq!(txn.delete(s("k"), None), Ok(Write::Delete { family: None, key: b("k") }));
    assert_eq!(txn.get(s("k"), None), Ok(Read { family: None, key: b("k") }));
    assert_eq!(txn.get(s("k"), Some(s("default"))), Err(SessionError::FamilyNotFound));
    assert_eq!(txn.put(s("k"), s("v"), Some(s("nowhere"))), Err(SessionError::FamilyNotFound));
}

#[test]
fn savepoints_are_counted() {
    let mut txn = transaction();
    txn.start().unwrap();
    assert_eq!(txn.rollback_to_savepoint(), Err(SessionError::NoSavepoint));
    assert_eq!(txn.set_savepoint(), Ok(()));
    assert_eq!(txn.set_savepoint(), Ok(()));
    assert_eq!(txn.current(), TransactionState::Active { savepoints: 2 });
    assert_eq!(txn.rollback_to_savepoint(), Ok(()));
    assert_eq!(txn.settle_rollback_to_savepoint(failed()), Err(engine_failure()));
    assert_eq!(txn.current(), TransactionState::Active { savepoints: 2 });
    assert_eq!(txn.settle_rollback_to_savepoint(Ok(())), Ok(()));
    assert_eq!(txn.current(), TransactionState::Active { savepoints: 1 });
    assert_eq!(txn.settle_rollback_to_savepoint(Ok(())), Ok(()));
    assert_eq!(txn.current(), TransactionState::Active { savepoints: 0 });
    assert_eq!(txn.rollback_to_savepoint(), Err(SessionError::NoSavepoint));
    assert_eq!(SessionError::NoSavepoint.kind(), ErrorKind::SessionState);
    txn.set_savepoint().unwrap();
    txn.start().unwrap();
    assert_eq!(txn.current(), TransactionState::Active { savepoints: 0 });
}

#[test]
fn an_ending_that_succeeds_begins_a_fresh_transaction() {
    let mut txn = transaction();
    txn.start().unwrap();
    txn.set_savepoint().unwrap();
    assert_eq!(txn.commit(), Ok(Ending::Commit));
    assert_eq!(txn.settle_end(Ending::Commit, Ok(())), Ok(true));
    assert_eq!(txn.current(), TransactionState::Active { savepoints: 0 });
    assert_eq!(txn.rollback(), Ok(Ending::Rollback));
    assert_eq!(txn.settle_end(Ending::Rollback, Ok(())), Ok(true));
    assert_eq!(txn.current(), TransactionState::Active { savepoints: 0 });
    assert!(txn.finish());
    assert_eq!(txn.current(), TransactionState::NotStarted);
    assert!(!txn.finish());
}

#[test]
fn an_ending_that_fails_leaves_no_transaction() {
    let mut txn = transaction();
    txn.start().unwrap();
    assert_eq!(txn.commit(), Ok(Ending::Commit));
    assert_eq!(txn.settle_end(Ending::Commit, failed()), Err(engine_failure()));
    assert_eq!(txn.current(), TransactionState::NotStarted);
    assert_eq!(txn.put(s("k"), s("v"), None), Err(SessionError::TransactionNotStarted));
    txn.start().unwrap();
    assert_eq!(txn.settle_end(Ending::Rollback, failed()), Err(engine_failure()));
    assert_eq!(txn.current(), TransactionState::NotStarted);
}

#[test]
fn without_restart_an_ending_is_final_until_the_next_start() {
    let mut txn = transaction();
    txn.set_restart(false);
    txn.start().unwrap();
    assert_eq!(txn.settle_end(Ending::Commit, Ok(())), Ok(false));
    assert_eq!(txn.current(), TransactionState::Committed);
    assert_eq!(txn.put(s("k"), s("v"), None), Err(SessionError::TransactionNotStarted));
    assert_eq!(txn.commit(), Err(SessionError::TransactionNotStarted));
    txn.start().unwrap();
    assert_eq!(txn.settle_end(Ending::Rollback, Ok(())), Ok(false));
    assert_eq!(txn.current(), TransactionState::RolledBack);
    assert_eq!(txn.get(s("k"), None), Err(SessionError::TransactionNotStarted));
    assert!(!txn.finish());
    txn.set_restart(true);
    txn.start().unwrap();
    assert_eq!(txn.settle_end(Ending::Commit, Ok(())), Ok(true));
}

// The snapshot.

#[test]
fn a_snapshot_session_holds_at_most_one_view() {
    let mut snapshot = RocksDBSnapshot::open(&plain_options(), Ok(())).expect("a session");
    assert!(!snapshot.is_held());
    assert_eq!(snapshot.release(), Err(SessionError::SnapshotNotCreated));
    assert_eq!(SessionError::SnapshotNotCreated.kind(), ErrorKind::SessionState);
    assert!(!snapshot.is_held());
    assert!(!snapshot.create());
    assert!(snapshot.is_held());
    assert!(snapshot.create());
    assert!(snapshot.is_held());
    assert_eq!(snapshot.release(), Ok(()));
    assert!(!snapshot.is_held());
    assert_eq!(snapshot.release(), Err(SessionError::SnapshotNotCreated));
}

// The backup catalog.

fn info(backup_id: u32) -> BackupInfo {
    BackupInfo { timestamp: 1_700_000_000, backup_id, size: 1, num_files: 1 }
}

#[test]
fn backup_work_is_planned_once_the_catalog_is_open() {
    let mut backup = RocksDBBackup::open(&plain_options(), Ok(())).expect("a session");
    assert_eq!(backup.create(), Err(SessionError::BackupNotInitialized));
    assert_eq!(backup.purge_old(3), Err(SessionError::BackupNotInitialized));
    assert_eq!(backup.restore(1, s("/restore"), &vec![]), Err(SessionError::BackupNotInitialized));
    assert_eq!(backup.restore(1, s("/restore"), &vec![info(1)]), Err(SessionError::BackupNotInitialized));
    assert_eq!(backup.info(), Err(SessionError::BackupNotInitialized));
    assert_eq!(SessionError::BackupNotInitialized.kind(), ErrorKind::SessionState);

    assert_eq!(backup.init(failed()), Err(engine_failure()));
    assert_eq!(backup.create(), Err(SessionError::BackupNotInitialized));

    assert_eq!(backup.init(Ok(())), Ok(()));
    assert_eq!(backup.create(), Ok(BackupCommand::Create));
    assert_eq!(backup.purge_old(3), Ok(BackupCommand::Purge { keep: 3 }));
    assert_eq!(backup.purge_old(0), Ok(BackupCommand::Purge { keep: 0 }));
    assert_eq!(
        backup.restore(7, s("/restore"), &vec![info(6), info(7), info(8)]),
        Ok(BackupCommand::Restore { backup_id: 7, db_dir: s("/restore"), wal_dir: s("/restore") })
    );
    assert_eq!(backup.restore(7, s("/restore"), &vec![info(6), info(8)]), Err(SessionError::BackupNotFound));
    assert_eq!(backup.restore(0, s("/restore"), &vec![]), Err(SessionError::BackupNotFound));
    assert_eq!(SessionError::BackupNotFound.kind(), ErrorKind::NotFound);
    assert_eq!(backup.info(), Ok(()));

    assert_eq!(backup.init(failed()), Err(engine_failure()));
    assert_eq!(backup.info(), Ok(()));
}

#[test]
fn the_catalog_lists_every_backup_in_the_hosts_integers() {
    let listed = vec![
        BackupInfo { timestamp: 1_700_000_000, backup_id: 1, size: 4096, num_files: 3 },
        BackupInfo { timestamp: -1, backup_id: u32::MAX, size: u64::MAX, num_files: u32::MAX },
        BackupInfo { timestamp: i64::MAX, backup_id: 0, size: 1 << 63, num_files: 0 },
    ];
    assert_eq!(
        RocksDBBackup::entries(&listed),
        vec![
            BackupCatalogEntry { backup_id: 1, timestamp: 1_700_000_000, size_bytes: 4096, file_count: 3 },
            BackupCatalogEntry { backup_id: 4294967295, timestamp: -1, size_bytes: -1, file_count: 4294967295 },
            BackupCatalogEntry { backup_id: 0, timestamp: i64::MAX, size_bytes: i64::MIN, file_count: 0 },
        ]
    );
    assert_eq!(RocksDBBackup::entries(&vec![]), vec![]);
    assert_eq!(signed(0), 0);
    assert_eq!(signed(i64::MAX as u64), i64::MAX);
    assert_eq!(signed(i64::MAX as u64 + 1), i64::MIN);
    assert_eq!(signed(u64::MAX), -1);
}

// Failures.

#[test]
fn every_failure_has_its_kind_and_its_text() {
    let all = [
        (SessionError::FamilyNotFound, ErrorKind::NotFound, "Column family not found"),
        (SessionError::InvalidCompression, ErrorKind::InvalidArgument, "Invalid compression type"),
        (SessionError::BatchNotStarted, ErrorKind::SessionState, "WriteBatch not initialized"),
        (SessionError::TransactionNotStarted, ErrorKind::SessionState, "No active transaction"),
        (SessionError::NoSavepoint, ErrorKind::SessionState, "No savepoint to roll back to"),
        (SessionError::SavepointLimit, ErrorKind::SessionState, "Too many savepoints"),
        (SessionError::BackupNotInitialized, ErrorKind::SessionState, "Backup engine is not initialized"),
        (SessionError::BackupNotFound, ErrorKind::NotFound, "Backup not found"),
        (SessionError::SnapshotNotCreated, ErrorKind::SessionState, "Snapshot not created"),
        (SessionError::Engine(s("Corruption: bad block")), ErrorKind::Engine, "Corruption: bad block"),
        (SessionError::Encoding, ErrorKind::Encoding, "Stored bytes are not valid text"),
    ];
    for (failure, kind, text) in all {
        assert_eq!(failure.kind(), kind);
        assert_eq!(failure.message(), text);
    }
}
