use gitsu::error::StoreError;
use gitsu::profile::{first_empty_field, Profile, ProfileField};
use gitsu::store::ProfileStore;

fn fresh() -> ProfileStore {
    ProfileStore::open(":memory:").expect("an in-memory database opens")
}

fn sorted(mut profiles: Vec<Profile>) -> Vec<(String, String)> {
    profiles.sort_by(|a, b| a.name.cmp(&b.name));
    profiles.into_iter().map(|p| (p.name, p.email)).collect()
}

#[test]
fn new_store_lists_nothing() {
    let store = fresh();
    assert_eq!(store.list_profiles(), Ok(vec![]));
}

#[test]
fn created_profile_is_listed_with_name_and_email() {
    let mut store = fresh();
    assert_eq!(store.create_profile("alice", "a@x.com"), Ok(()));
    assert_eq!(
        store.list_profiles(),
        Ok(vec![Profile { name: "alice".to_string(), email: "a@x.com".to_string() }])
    );
}

#[test]
fn listing_holds_every_profile_once() {
    let mut store = fresh();
    assert_eq!(store.create_profile("carol", "c@z.org"), Ok(()));
    assert_eq!(store.create_profile("alice", "a@x.com"), Ok(()));
    assert_eq!(store.create_profile("bob", "b@y.net"), Ok(()));
    let listed = sorted(store.list_profiles().unwrap());
    assert_eq!(
        listed,
        vec![
            ("alice".to_string(), "a@x.com".to_string()),
            ("bob".to_string(), "b@y.net".to_string()),
            ("carol".to_string(), "c@z.org".to_string()),
        ]
    );
}

#[test]
fn second_create_with_same_name_fails_and_keeps_first_email() {
    let mut store = fresh();
    assert_eq!(store.create_profile("alice", "a@x.com"), Ok(()));
    assert_eq!(store.create_profile("alice", "b@y.com"), Err(StoreError::DuplicateName));
    let found = store.find_profile("alice").unwrap();
    assert_eq!(found.email, "a@x.com");
    assert_eq!(store.list_profiles().unwrap().len(), 1);
}

#[test]
fn duplicate_create_with_same_email_fails_too() {
    let mut store = fresh();
    assert_eq!(store.create_profile("alice", "a@x.com"), Ok(()));
    assert_eq!(store.create_profile("alice", "a@x.com"), Err(StoreError::DuplicateName));
}

#[test]
fn same_email_under_two_names_is_allowed() {
    let mut store = fresh();
    assert_eq!(store.create_profile("alice", "shared@x.com"), Ok(()));
    assert_eq!(store.create_profile("alicia", "shared@x.com"), Ok(()));
    assert_eq!(store.list_profiles().unwrap().len(), 2);
}

#[test]
fn find_returns_the_pair_that_was_created() {
    let mut store = fresh();
    assert_eq!(store.create_profile("alice", "a@x.com"), Ok(()));
    assert_eq!(
        store.find_profile("alice"),
        Ok(Profile { name: "alice".to_string(), email: "a@x.com".to_string() })
    );
}

#[test]
fn find_unknown_name_is_not_found() {
    let mut store = fresh();
    assert_eq!(store.find_profile("alice"), Err(StoreError::NotFound));
    assert_eq!(store.create_profile("alice", "a@x.com"), Ok(()));
    assert_eq!(store.find_profile("bob"), Err(StoreError::NotFound));
}

#[test]
fn find_matches_the_name_exactly() {
    let mut store = fresh();
    assert_eq!(store.create_profile("alice", "a@x.com"), Ok(()));
    assert_eq!(store.find_profile("Alice"), Err(StoreError::NotFound));
    assert_eq!(store.find_profile("alice "), Err(StoreError::NotFound));
    assert_eq!(store.find_profile("alic"), Err(StoreError::NotFound));
    assert_eq!(store.find_profile("ali%"), Err(StoreError::NotFound));
}

#[test]
fn delete_removes_the_profile_and_says_so() {
    let mut store = fresh();
    assert_eq!(store.create_profile("alice", "a@x.com"), Ok(()));
    assert_eq!(store.create_profile("bob", "b@y.net"), Ok(()));
    assert_eq!(store.delete_profile("alice"), Ok(true));
    assert_eq!(store.find_profile("alice"), Err(StoreError::NotFound));
    assert_eq!(
        store.list_profiles(),
        Ok(vec![Profile { name: "bob".to_string(), email: "b@y.net".to_string() }])
    );
}

#[test]
fn delete_of_absent_name_changes_nothing() {
    let mut store = fresh();
    assert_eq!(store.create_profile("alice", "a@x.com"), Ok(()));
    assert_eq!(store.create_profile("bob", "b@y.net"), Ok(()));
    let before = sorted(store.list_profiles().unwrap());
    assert_eq!(store.delete_profile("carol"), Ok(false));
    let after = sorted(store.list_profiles().unwrap());
    assert_eq!(before, after);
    assert_eq!(after.len(), 2);
}

#[test]
fn delete_on_empty_store_reports_false() {
    let mut store = fresh();
    assert_eq!(store.delete_profile("alice"), Ok(false));
    assert_eq!(store.list_profiles(), Ok(vec![]));
}

#[test]
fn name_is_free_again_after_delete() {
    let mut store = fresh();
    assert_eq!(store.create_profile("alice", "a@x.com"), Ok(()));
    assert_eq!(store.delete_profile("alice"), Ok(true));
    assert_eq!(store.delete_profile("alice"), Ok(false));
    assert_eq!(store.create_profile("alice", "b@y.com"), Ok(()));
    assert_eq!(store.find_profile("alice").unwrap().email, "b@y.com");
}

#[test]
fn values_come_back_unchanged() {
    let pairs = [
        ("plain", "p@example.com"),
        ("with space", "two words@example.com"),
        ("quote'd", "o'brien@example.com"),
        ("double\"quote", "\"quoted\"@example.com"),
        ("semi;colon", "x'); DROP TABLE users; --"),
        ("percent%under_score", "100%_sure@example.com"),
        ("Ünïcødé 名前", "почта@пример.рф"),
        ("emoji 🙂", "🙂@🙂.🙂"),
        ("tab\tand\nnewline", "line1\nline2"),
        ("  padded  ", "  padded@example.com  "),
        ("nul\0inside", "a\0b"),
        ("?1", "?2"),
    ];
    let mut store = fresh();
    for (name, email) in pairs {
        assert_eq!(store.create_profile(name, email), Ok(()));
    }
    for (name, email) in pairs {
        assert_eq!(
            store.find_profile(name),
            Ok(Profile { name: name.to_string(), email: email.to_string() })
        );
    }
    let mut expected: Vec<(String, String)> =
        pairs.iter().map(|(n, e)| (n.to_string(), e.to_string())).collect();
    expected.sort();
    assert_eq!(sorted(store.list_profiles().unwrap()), expected);
}

#[test]
fn long_values_are_not_truncated() {
    let name = "n".repeat(5000);
    let email = format!("{}@example.com", "e".repeat(20000));
    let mut store = fresh();
    assert_eq!(store.create_profile(&name, &email), Ok(()));
    let found = store.find_profile(&name).unwrap();
    assert_eq!(found.name.len(), 5000);
    assert_eq!(found.email, email);
}

#[test]
fn names_that_differ_only_in_case_are_different() {
    let mut store = fresh();
    assert_eq!(store.create_profile("alice", "lower@x.com"), Ok(()));
    assert_eq!(store.create_profile("ALICE", "upper@x.com"), Ok(()));
    assert_eq!(store.find_profile("alice").unwrap().email, "lower@x.com");
    assert_eq!(store.find_profile("ALICE").unwrap().email, "upper@x.com");
}

#[test]
fn names_that_differ_after_a_nul_are_different() {
    let mut store = fresh();
    assert_eq!(store.create_profile("a\0b", "one@x.com"), Ok(()));
    assert_eq!(store.create_profile("a\0c", "two@x.com"), Ok(()));
    assert_eq!(store.create_profile("a", "three@x.com"), Ok(()));
    assert_eq!(store.find_profile("a\0b").unwrap().email, "one@x.com");
    assert_eq!(store.find_profile("a\0c").unwrap().email, "two@x.com");
    assert_eq!(store.find_profile("a").unwrap().email, "three@x.com");
    assert_eq!(store.delete_profile("a\0b"), Ok(true));
    assert_eq!(store.list_profiles().unwrap().len(), 2);
}

#[test]
fn open_fails_where_the_file_cannot_be_made() {
    let r = ProfileStore::open("/no-such-directory-for-gitsu/inner/db.sqlite");
    assert!(matches!(r, Err(StoreError::StorageUnavailable(_))));
}

#[test]
fn stores_in_memory_are_separate() {
    let mut one = fresh();
    let two = fresh();
    assert_eq!(one.create_profile("alice", "a@x.com"), Ok(()));
    assert_eq!(two.find_profile("alice"), Err(StoreError::NotFound));
}

#[test]
fn profiles_outlive_the_handle() {
    let path = "/tmp/gitsu_profiles_outlive_the_handle.sqlite";
    {
        let mut store = ProfileStore::open(path).expect("a file under /tmp opens");
        store.delete_profile("alice").unwrap();
        assert_eq!(store.create_profile("alice", "a@x.com"), Ok(()));
    }
    let mut again = ProfileStore::open(path).expect("the same file opens again");
    assert_eq!(again.find_profile("alice").unwrap().email, "a@x.com");
    assert_eq!(again.create_profile("alice", "b@y.com"), Err(StoreError::DuplicateName));
    assert_eq!(again.delete_profile("alice"), Ok(true));
}

#[test]
fn profile_validity_asks_for_both_fields() {
    assert!(Profile::new("alice", "a@x.com").is_valid());
    assert!(!Profile::new("", "a@x.com").is_valid());
    assert!(!Profile::new("alice", "").is_valid());
    assert!(!Profile::new("", "").is_valid());
    assert!(Profile::new("a", "not an email").is_valid());
    let p = Profile::new("alice", "a@x.com");
    assert_eq!(p.name, "alice");
    assert_eq!(p.email, "a@x.com");
}

#[test]
fn store_location_under_home() {
    assert_eq!(gitsu::store::STORE_DIRECTORY, ".gitsu");
    assert_eq!(gitsu::store::STORE_FILE, "db.sqlite");
}

#[test]
fn each_path_is_its_own_store() {
    let first = "/tmp/gitsu_each_path_first.sqlite";
    let second = "/tmp/gitsu_each_path_second.sqlite";
    {
        let mut a = ProfileStore::open(first).expect("a file under /tmp opens");
        let mut b = ProfileStore::open(second).expect("a file under /tmp opens");
        a.delete_profile("alice").unwrap();
        b.delete_profile("alice").unwrap();
        assert_eq!(a.create_profile("alice", "first@x.com"), Ok(()));
        assert_eq!(b.create_profile("alice", "second@x.com"), Ok(()));
    }
    let mut a = ProfileStore::open(first).expect("the first file opens again");
    let mut b = ProfileStore::open(second).expect("the second file opens again");
    assert_eq!(a.find_profile("alice").unwrap().email, "first@x.com");
    assert_eq!(b.find_profile("alice").unwrap().email, "second@x.com");
    assert_eq!(a.delete_profile("alice"), Ok(true));
    assert_eq!(b.find_profile("alice").unwrap().email, "second@x.com");
    assert_eq!(b.delete_profile("alice"), Ok(true));
}

#[test]
fn opening_again_keeps_the_rows() {
    let path = "/tmp/gitsu_opening_again_keeps_the_rows.sqlite";
    {
        let mut store = ProfileStore::open(path).expect("a file under /tmp opens");
        store.delete_profile("alice").unwrap();
        store.delete_profile("bob").unwrap();
        assert_eq!(store.create_profile("alice", "a@x.com"), Ok(()));
        assert_eq!(store.create_profile("bob", "b@y.net"), Ok(()));
    }
    let mut again = ProfileStore::open(path).expect("the same file opens again");
    assert_eq!(again.list_profiles().unwrap().len(), 2);
    assert_eq!(again.delete_profile("alice"), Ok(true));
    assert_eq!(again.delete_profile("bob"), Ok(true));
}

#[test]
fn first_empty_field_names_the_name_first() {
    assert_eq!(first_empty_field("alice", "a@x.com"), None);
    assert_eq!(first_empty_field("", "a@x.com"), Some(ProfileField::Name));
    assert_eq!(first_empty_field("alice", ""), Some(ProfileField::Email));
    assert_eq!(first_empty_field("", ""), Some(ProfileField::Name));
    assert_eq!(first_empty_field(" ", " "), None);
}

#[test]
fn create_with_an_empty_field_adds_no_row() {
    let mut store = fresh();
    assert_eq!(store.create_profile("bob", "b@y.net"), Ok(()));
    assert_eq!(
        store.create_profile("", "a@x.com"),
        Err(StoreError::EmptyField(ProfileField::Name))
    );
    assert_eq!(
        store.create_profile("alice", ""),
        Err(StoreError::EmptyField(ProfileField::Email))
    );
    assert_eq!(store.create_profile("", ""), Err(StoreError::EmptyField(ProfileField::Name)));
    assert_eq!(
        store.list_profiles(),
        Ok(vec![Profile { name: "bob".to_string(), email: "b@y.net".to_string() }])
    );
    assert_eq!(store.find_profile(""), Err(StoreError::NotFound));
    assert_eq!(store.find_profile("alice"), Err(StoreError::NotFound));
}

#[test]
fn empty_field_comes_before_duplicate_name() {
    let mut store = fresh();
    assert_eq!(store.create_profile("alice", "a@x.com"), Ok(()));
    assert_eq!(
        store.create_profile("alice", ""),
        Err(StoreError::EmptyField(ProfileField::Email))
    );
    assert_eq!(store.find_profile("alice").unwrap().email, "a@x.com");
}

#[test]
fn store_knows_the_path_it_was_opened_with() {
    assert_eq!(fresh().path(), ":memory:");
    let path = "/tmp/gitsu_store_knows_its_path.sqlite";
    let store = ProfileStore::open(path).expect("a file under /tmp opens");
    assert_eq!(store.path(), path);
}

#[test]
fn second_handle_on_an_open_store_is_refused() {
    let path = "/tmp/gitsu_second_handle_is_refused.sqlite";
    let mut first = ProfileStore::open(path).expect("a file under /tmp opens");
    first.delete_profile("alice").unwrap();
    assert!(matches!(ProfileStore::open(path), Err(StoreError::StorageUnavailable(_))));
    assert_eq!(first.create_profile("alice", "a@x.com"), Ok(()));
    assert_eq!(first.delete_profile("alice"), Ok(true));
    drop(first);
    assert!(ProfileStore::open(path).is_ok());
}

#[test]
fn path_that_may_be_a_uri_is_refused() {
    for path in [
        "file:",
        "file:/tmp/gitsu_uri.sqlite",
        "file:/tmp/gitsu_uri.sqlite?mode=memory&cache=shared",
        "file::memory:?cache=shared",
        "file:gitsu_uri.sqlite?nolock=1",
    ] {
        match ProfileStore::open(path) {
            Err(e) => assert_eq!(
                e,
                StoreError::StorageUnavailable(
                    "a path that begins with file: is not taken".to_string()
                )
            ),
            Ok(_) => panic!("expected an error for {}", path),
        }
    }
}

#[test]
fn only_the_prefix_makes_a_uri() {
    assert!(gitsu::store::is_uri_name("file:"));
    assert!(gitsu::store::is_uri_name("file:x"));
    assert!(!gitsu::store::is_uri_name(""));
    assert!(!gitsu::store::is_uri_name("file"));
    assert!(!gitsu::store::is_uri_name("File:x"));
    assert!(!gitsu::store::is_uri_name("/tmp/file:x"));
    assert!(!gitsu::store::is_uri_name(":memory:"));
    assert!(!gitsu::store::is_uri_name("filé:x"));
}

#[test]
fn table_made_with_the_same_statement_is_accepted() {
    let path = "/tmp/gitsu_table_made_before.sqlite";
    {
        let conn = rusqlite::Connection::open(path).expect("a file under /tmp opens");
        conn.execute("DROP TABLE IF EXISTS users", []).expect("the table is dropped");
        conn.execute(
            "CREATE TABLE IF NOT EXISTS users (
            name TEXT PRIMARY KEY,
            email TEXT NOT NULL
        )",
            [],
        )
        .expect("the table is made");
        conn.execute("INSERT INTO users (name, email) VALUES ('alice', 'a@x.com')", [])
            .expect("the row is added");
    }
    let mut store = ProfileStore::open(path).expect("the store opens on that table");
    assert_eq!(store.find_profile("alice").unwrap().email, "a@x.com");
    assert_eq!(store.delete_profile("alice"), Ok(true));
}

#[test]
fn table_without_a_key_is_refused() {
    let path = "/tmp/gitsu_table_without_a_key.sqlite";
    {
        let conn = rusqlite::Connection::open(path).expect("a file under /tmp opens");
        conn.execute("DROP TABLE IF EXISTS users", []).expect("the table is dropped");
        conn.execute("CREATE TABLE users (name TEXT, email TEXT)", []).expect("the table is made");
    }
    match ProfileStore::open(path) {
        Err(e) => assert_eq!(
            e,
            StoreError::StorageUnavailable(
                "the database is not one that this program made".to_string()
            )
        ),
        Ok(_) => panic!("expected an error"),
    }
}

#[test]
fn table_with_a_trigger_is_refused() {
    let path = "/tmp/gitsu_table_with_a_trigger.sqlite";
    {
        let conn = rusqlite::Connection::open(path).expect("a file under /tmp opens");
        conn.execute("DROP TABLE IF EXISTS users", []).expect("the table is dropped");
        conn.execute(
            "CREATE TABLE IF NOT EXISTS users (
            name TEXT PRIMARY KEY,
            email TEXT NOT NULL
        )",
            [],
        )
        .expect("the table is made");
        conn.execute(
            "CREATE TRIGGER refuse BEFORE INSERT ON users BEGIN SELECT RAISE(ABORT, 'no'); END",
            [],
        )
        .expect("the trigger is made");
    }
    assert!(matches!(ProfileStore::open(path), Err(StoreError::StorageUnavailable(_))));
}

const OWN_TABLE: &str = "CREATE TABLE IF NOT EXISTS users (
            name TEXT PRIMARY KEY,
            email TEXT NOT NULL
        )";

/// Makes a new file at `path` that holds the library's own table and what
/// the further statements make.
fn file_with(path: &str, further: &[&str]) {
    let conn = rusqlite::Connection::open(path).expect("a file under /tmp opens");
    conn.execute_batch(
        "DROP TRIGGER IF EXISTS refuse; DROP VIEW IF EXISTS seen; DROP TABLE IF EXISTS other; \
         DROP TABLE IF EXISTS users;",
    )
    .expect("what was there is dropped");
    conn.execute(OWN_TABLE, []).expect("the table is made");
    for statement in further {
        conn.execute_batch(statement).expect("the further statements run");
    }
}

fn refused_as_foreign(path: &str) {
    match ProfileStore::open(path) {
        Err(e) => assert_eq!(
            e,
            StoreError::StorageUnavailable(
                "the database is not one that this program made".to_string()
            )
        ),
        Ok(_) => panic!("expected an error"),
    }
}

#[test]
fn trigger_on_the_table_spelled_otherwise_is_refused() {
    let path = "/tmp/gitsu_trigger_spelled_otherwise.sqlite";
    file_with(
        path,
        &["CREATE TRIGGER refuse BEFORE INSERT ON Users BEGIN SELECT RAISE(ABORT, 'no'); END"],
    );
    refused_as_foreign(path);
    file_with(
        path,
        &["CREATE TRIGGER refuse AFTER DELETE ON USERS BEGIN INSERT INTO users VALUES ('x', 'y'); END"],
    );
    refused_as_foreign(path);
}

#[test]
fn database_with_another_table_is_refused() {
    let path = "/tmp/gitsu_another_table.sqlite";
    file_with(path, &["CREATE TABLE other (x)"]);
    refused_as_foreign(path);
}

#[test]
fn database_with_a_view_is_refused() {
    let path = "/tmp/gitsu_with_a_view.sqlite";
    file_with(path, &["CREATE VIEW seen AS SELECT name FROM users"]);
    refused_as_foreign(path);
}

#[test]
fn database_with_a_further_index_is_refused() {
    let path = "/tmp/gitsu_further_index.sqlite";
    file_with(path, &["CREATE UNIQUE INDEX by_email ON users (email)"]);
    refused_as_foreign(path);
    file_with(path, &[]);
    assert!(ProfileStore::open(path).is_ok());
}

#[test]
fn database_that_keeps_utf16_is_refused() {
    let path = "/tmp/gitsu_keeps_utf16.sqlite";
    {
        let conn = rusqlite::Connection::open(path).expect("a file under /tmp opens");
        let encoding: String =
            conn.query_row("PRAGMA encoding", [], |row| row.get(0)).expect("the encoding is read");
        if encoding == "UTF-8" {
            let tables: i64 = conn
                .query_row("SELECT count(*) FROM sqlite_master", [], |row| row.get(0))
                .expect("the schema is read");
            assert_eq!(tables, 0, "a file left by an earlier run must be one in UTF-16");
            conn.execute_batch("PRAGMA encoding = 'UTF-16le'").expect("the encoding is set");
        }
        conn.execute(OWN_TABLE, []).expect("the table is made");
    }
    match ProfileStore::open(path) {
        Err(e) => assert_eq!(
            e,
            StoreError::StorageUnavailable(
                "the database does not keep its text as UTF-8".to_string()
            )
        ),
        Ok(_) => panic!("expected an error"),
    }
}
