//! The profile store: a table of profiles keyed by name.
//!
//! A store is seen as a map from each name to its email. Every operation says
//! how that map changes and what comes back; the storage engine may fail at
//! any time, and then the map is as it was and the error says so.
use vstd::prelude::*;
use crate::error::{storage_error, unavailable, unavailable_because, StoreError};
use crate::profile::{empty_field, first_empty_field, Profile};
use crate::sqlite::{
    create_table,
    delete_row,
    insert_row,
    is_uri,
    lists,
    open_locked,
    own_schema,
    pair_views,
    ready,
    select_all,
    select_email,
    select_encoding,
    select_schema,
    table_made,
    table_rows,
    SqlFailure,
};

verus! {

/// The rows of a store, by name.
pub type Rows = Map<Seq<char>, Seq<char>>;

/// The directory, under the user's home directory, that holds the store.
pub const STORE_DIRECTORY: &'static str = ".gitsu";

/// The file, in that directory, that holds the store.
pub const STORE_FILE: &'static str = "db.sqlite";

/// An open store. It holds the exclusive lock on its database for as long
/// as it lives, so that it is the only handle on the rows, and it has found
/// the table to be the one that it makes itself.
pub struct ProfileStore {
    conn: rusqlite::Connection,
    path: String,
}

impl ProfileStore {
    #[verifier::type_invariant]
    closed spec fn sound(self) -> bool {
        ready(self.conn)
    }
}

impl View for ProfileStore {
    type V = Rows;

    closed spec fn view(&self) -> Rows {
        table_rows(self.conn)
    }
}

/// The plain forms of a vector of profiles, in order.
pub open spec fn profile_views(v: Seq<Profile>) -> Seq<(Seq<char>, Seq<char>)> {
    v.map_values(|p: Profile| p@)
}

/// What `create_profile` may return on `pre`, and the rows it leaves. An
/// empty name or email is refused before the store is asked.
pub open spec fn created(
    pre: Rows,
    name: Seq<char>,
    email: Seq<char>,
    r: Result<(), StoreError>,
    post: Rows,
) -> bool {
    match r {
        Ok(_) => {
            &&& empty_field(name, email) is None
            &&& !pre.contains_key(name)
            &&& post == pre.insert(name, email)
        },
        Err(StoreError::EmptyField(field)) => empty_field(name, email) == Some(field) && post == pre,
        Err(StoreError::DuplicateName) => {
            &&& empty_field(name, email) is None
            &&& pre.contains_key(name)
            &&& post == pre
        },
        Err(StoreError::StorageUnavailable(_)) => empty_field(name, email) is None && post == pre,
        Err(_) => false,
    }
}

/// What `find_profile` may return on `rows`.
pub open spec fn found(rows: Rows, name: Seq<char>, r: Result<Profile, StoreError>) -> bool {
    match r {
        Ok(p) => rows.contains_key(name) && p@ == (name, rows[name]),
        Err(StoreError::NotFound) => !rows.contains_key(name),
        Err(StoreError::StorageUnavailable(_)) => true,
        Err(_) => false,
    }
}

/// What `list_profiles` may return on `rows`.
pub open spec fn listed(rows: Rows, r: Result<Vec<Profile>, StoreError>) -> bool {
    match r {
        Ok(v) => lists(profile_views(v@), rows),
        Err(e) => e is StorageUnavailable,
    }
}

/// What `delete_profile` may return on `pre`, and the rows it leaves.
pub open spec fn deleted(pre: Rows, name: Seq<char>, r: Result<bool, StoreError>, post: Rows) -> bool {
    match r {
        Ok(removed) => removed == pre.contains_key(name) && post == pre.remove(name),
        Err(e) => e is StorageUnavailable && post == pre,
    }
}

/// The result of a create, from what the insert gave: a key that was taken
/// is a duplicate name, any other failure is the storage's.
pub fn insert_outcome(inserted: Result<usize, SqlFailure>) -> (r: Result<(), StoreError>)
    ensures
        match inserted {
            Ok(_) => r is Ok,
            Err(f) => if f.is_key_conflict() {
                r == Err::<(), StoreError>(StoreError::DuplicateName)
            } else {
                r is Err && unavailable(r->Err_0, f)
            },
        },
{
    match inserted {
        Ok(_) => Ok(()),
        Err(f) => if f.key_conflict() {
            Err(StoreError::DuplicateName)
        } else {
            Err(storage_error(f))
        },
    }
}

/// The result of a lookup of `name`, from what the query gave: the profile
/// with the email that came back, or `NotFound` where none did.
pub fn lookup_outcome(name: &str, selected: Result<Option<String>, SqlFailure>) -> (r: Result<
    Profile,
    StoreError,
>)
    ensures
        match selected {
            Ok(Some(email)) => r is Ok && r->Ok_0@ == (name@, email@),
            Ok(None) => r == Err::<Profile, StoreError>(StoreError::NotFound),
            Err(f) => r is Err && unavailable(r->Err_0, f),
        },
{
    match selected {
        Ok(Some(email)) => Ok(Profile { name: String::from_str(name), email }),
        Ok(None) => Err(StoreError::NotFound),
        Err(f) => Err(storage_error(f)),
    }
}

/// The result of a delete, from what the statement gave: whether any row
/// was removed.
pub fn delete_outcome(removed: Result<usize, SqlFailure>) -> (r: Result<bool, StoreError>)
    ensures
        match removed {
            Ok(n) => r == Ok::<bool, StoreError>(n > 0),
            Err(f) => r is Err && unavailable(r->Err_0, f),
        },
{
    match removed {
        Ok(n) => Ok(n > 0),
        Err(f) => Err(storage_error(f)),
    }
}

/// The fetched rows as profiles, in the order in which they came.
pub fn profiles_of(fetched: &Vec<(String, String)>) -> (v: Vec<Profile>)
    ensures
        profile_views(v@) == pair_views(fetched@),
{
    let ghost all = pair_views(fetched@);
    let mut out: Vec<Profile> = Vec::new();
    let mut i: usize = 0;
    while i < fetched.len()
        invariant
            i <= fetched.len(),
            out.len() == i,
            all == pair_views(fetched@),
            forall|k: int| 0 <= k < i ==> (#[trigger] out[k])@ == all[k],
        decreases fetched.len() - i,
    {
        let profile = Profile { name: fetched[i].0.clone(), email: fetched[i].1.clone() };
        out.push(profile);
        i = i + 1;
    }
    assert(profile_views(out@) =~= all);
    out
}

/// The result of a listing, from what the query gave.
pub fn listing_outcome(fetched: Result<Vec<(String, String)>, SqlFailure>) -> (r: Result<
    Vec<Profile>,
    StoreError,
>)
    ensures
        match fetched {
            Ok(pairs) => r is Ok && profile_views(r->Ok_0@) == pair_views(pairs@),
            Err(f) => r is Err && unavailable(r->Err_0, f),
        },
{
    match fetched {
        Ok(pairs) => Ok(profiles_of(&pairs)),
        Err(f) => Err(storage_error(f)),
    }
}

/// The text of the error for a database that does not keep its text as
/// UTF-8.
pub open spec fn encoding_text() -> Seq<char> {
    "the database does not keep its text as UTF-8"@
}

/// Whether a store may stand on the database, from what reading its
/// encoding gave: yes where it is UTF-8, else an error that says so.
pub fn encoding_outcome(fetched: Result<String, SqlFailure>) -> (r: Result<(), StoreError>)
    ensures
        match fetched {
            Ok(encoding) => if encoding@ == "UTF-8"@ {
                r is Ok
            } else {
                r is Err && unavailable_because(r->Err_0, encoding_text())
            },
            Err(f) => r is Err && unavailable(r->Err_0, f),
        },
{
    match fetched {
        Ok(encoding) => if encoding == String::from_str("UTF-8") {
            Ok(())
        } else {
            Err(
                StoreError::StorageUnavailable(
                    String::from_str("the database does not keep its text as UTF-8"),
                ),
            )
        },
        Err(f) => Err(storage_error(f)),
    }
}

/// The text of the error for a database that holds more than, or something
/// else than, the table that this library makes.
pub open spec fn foreign_table_text() -> Seq<char> {
    "the database is not one that this program made"@
}

/// Whether the fetched entries are those of a database that holds the table
/// as this library makes it, and nothing else.
pub fn is_own_schema(entries: &Vec<(String, String)>) -> (b: bool)
    ensures
        b == own_schema(pair_views(entries@)),
{
    if entries.len() != 2 {
        return false;
    }
    let table_name = String::from_str("users");
    let table_text = String::from_str(
        "CREATE TABLE users (\n            name TEXT PRIMARY KEY,\n            email TEXT NOT NULL\n        )",
    );
    let key_name = String::from_str("sqlite_autoindex_users_1");
    let key_text = String::from_str("");
    let first_is_table = entries[0].0 == table_name && entries[0].1 == table_text;
    let first_is_key = entries[0].0 == key_name && entries[0].1 == key_text;
    let second_is_table = entries[1].0 == table_name && entries[1].1 == table_text;
    let second_is_key = entries[1].0 == key_name && entries[1].1 == key_text;
    assert(pair_views(entries@)[0] == (entries[0].0@, entries[0].1@));
    assert(pair_views(entries@)[1] == (entries[1].0@, entries[1].1@));
    (first_is_table && second_is_key) || (first_is_key && second_is_table)
}

/// Whether a store may stand on the database, from what reading its entries
/// gave: yes where they are the library's own, else an error that says so.
pub fn schema_outcome(fetched: Result<Vec<(String, String)>, SqlFailure>) -> (r: Result<
    (),
    StoreError,
>)
    ensures
        match fetched {
            Ok(entries) => if own_schema(pair_views(entries@)) {
                r is Ok
            } else {
                r is Err && unavailable_because(r->Err_0, foreign_table_text())
            },
            Err(f) => r is Err && unavailable(r->Err_0, f),
        },
{
    match fetched {
        Ok(entries) => if is_own_schema(&entries) {
            Ok(())
        } else {
            Err(
                StoreError::StorageUnavailable(
                    String::from_str("the database is not one that this program made"),
                ),
            )
        },
        Err(f) => Err(storage_error(f)),
    }
}

/// The text of the error for a path that may be read as a URI.
pub open spec fn uri_text() -> Seq<char> {
    "a path that begins with file: is not taken"@
}

/// Whether SQLite may read the path as a URI: whether it begins with `file:`.
pub fn is_uri_name(path: &str) -> (b: bool)
    ensures
        b == is_uri(path@),
{
    proof {
        reveal_strlit("file:");
    }
    if path.unicode_len() < 5 {
        return false;
    }
    let b = path.get_char(0) == 'f' && path.get_char(1) == 'i' && path.get_char(2) == 'l'
        && path.get_char(3) == 'e' && path.get_char(4) == ':';
    proof {
        let head = path@.subrange(0, 5);
        assert("file:"@.len() == 5);
        assert("file:"@[0] == 'f' && "file:"@[1] == 'i' && "file:"@[2] == 'l' && "file:"@[3] == 'e'
            && "file:"@[4] == ':');
        assert(head[0] == path@[0] && head[1] == path@[1] && head[2] == path@[2] && head[3]
            == path@[3] && head[4] == path@[4]);
        if b {
            assert(head =~= "file:"@);
        }
    }
    b
}

/// The text of the error for a home directory that is not known.
pub open spec fn no_home_text() -> Seq<char> {
    "no home directory"@
}

/// Where the store of a user lies, given the home directory.
pub open spec fn path_under(home: Seq<char>) -> Seq<char> {
    home + "/"@ + STORE_DIRECTORY@ + "/"@ + STORE_FILE@
}

/// The path of the store under the user's home directory. Without a home
/// directory there is no place for it, and the store is unavailable.
pub fn store_path(home: Option<&str>) -> (r: Result<String, StoreError>)
    ensures
        match home {
            Some(h) => r is Ok && r->Ok_0@ == path_under(h@),
            None => r is Err && unavailable_because(r->Err_0, no_home_text()),
        },
{
    match home {
        Some(h) => Ok(
            String::from_str(h).concat("/").concat(STORE_DIRECTORY).concat("/").concat(STORE_FILE),
        ),
        None => Err(StoreError::StorageUnavailable(String::from_str("no home directory"))),
    }
}

impl ProfileStore {
    /// Opens the store at `path`: opens the file, creating it where it is
    /// missing, takes the exclusive lock, makes the table where it is
    /// missing, and looks whether the database keeps its text as UTF-8 and
    /// holds the library's own table and nothing else. A path that begins
    /// with `file:` is refused. Beyond that, whether the call succeeds is
    /// the storage engine's to say; a failure is always
    /// `StorageUnavailable`.
    pub fn open(path: &str) -> (r: Result<ProfileStore, StoreError>)
        ensures
            match r {
                Ok(store) => {
                    &&& !is_uri(path@)
                    &&& store.location() == path@
                    &&& store.has_table()
                    &&& store@.dom().finite()
                },
                Err(e) => e is StorageUnavailable,
            },
            is_uri(path@) ==> r is Err && unavailable_because(r->Err_0, uri_text()),
    {
        if is_uri_name(path) {
            return Err(
                StoreError::StorageUnavailable(
                    String::from_str("a path that begins with file: is not taken"),
                ),
            );
        }
        let mut conn = match open_locked(path) {
            Ok(conn) => conn,
            Err(f) => {
                return Err(storage_error(f));
            },
        };
        match create_table(&mut conn) {
            Ok(_) => {},
            Err(f) => {
                return Err(storage_error(f));
            },
        }
        match encoding_outcome(select_encoding(&conn)) {
            Ok(_) => {},
            Err(e) => {
                return Err(e);
            },
        }
        match schema_outcome(select_schema(&conn)) {
            Ok(_) => Ok(ProfileStore { conn, path: String::from_str(path) }),
            Err(e) => Err(e),
        }
    }

    /// The path that the store was opened with. Two stores that were opened
    /// with the same path need not be the same store: every store in memory
    /// is one of its own.
    pub closed spec fn location(&self) -> Seq<char> {
        self.path@
    }

    /// The statement that makes the table has succeeded on this store.
    pub closed spec fn has_table(&self) -> bool {
        table_made(self.conn)
    }

    /// The path that the store was opened with.
    pub fn path(&self) -> (p: &str)
        ensures
            p@ == self.location(),
    {
        self.path.as_str()
    }

    /// Adds the profile. An empty name or email is refused. A name that is
    /// taken is never overwritten: the call fails and the store stays as it
    /// was.
    pub fn create_profile(&mut self, name: &str, email: &str) -> (r: Result<(), StoreError>)
        ensures
            created(old(self)@, name@, email@, r, final(self)@),
            old(self)@.contains_key(name@) ==> r is Err,
            final(self).location() == old(self).location(),
            final(self).has_table(),
            final(self)@.dom().finite(),
    {
        proof {
            use_type_invariant(&*self);
        }
        match first_empty_field(name, email) {
            Some(field) => Err(StoreError::EmptyField(field)),
            None => {
                let inserted = insert_row(&mut self.conn, name, email);
                insert_outcome(inserted)
            },
        }
    }

    /// All profiles, each once, in no particular order.
    pub fn list_profiles(&self) -> (r: Result<Vec<Profile>, StoreError>)
        ensures
            listed(self@, r),
            self.has_table(),
            self@.dom().finite(),
    {
        proof {
            use_type_invariant(self);
        }
        listing_outcome(select_all(&self.conn))
    }

    /// The profile stored under `name`, with its email as it was given.
    pub fn find_profile(&self, name: &str) -> (r: Result<Profile, StoreError>)
        ensures
            found(self@, name@, r),
            !self@.contains_key(name@) ==> r is Err,
            self.has_table(),
            self@.dom().finite(),
    {
        proof {
            use_type_invariant(self);
        }
        lookup_outcome(name, select_email(&self.conn, name))
    }

    /// Removes the profile stored under `name`, and says whether there was
    /// one. An absent name is no error.
    pub fn delete_profile(&mut self, name: &str) -> (r: Result<bool, StoreError>)
        ensures
            deleted(old(self)@, name@, r, final(self)@),
            final(self).location() == old(self).location(),
            final(self).has_table(),
            final(self)@.dom().finite(),
    {
        proof {
            use_type_invariant(&*self);
        }
        let removed = delete_row(&mut self.conn, name);
        delete_outcome(removed)
    }
}

/// `v` holds the row `(name, email)`, and no other entry with that name.
pub open spec fn holds_once(v: Seq<(Seq<char>, Seq<char>)>, name: Seq<char>, email: Seq<char>) -> bool {
    exists|i: int|
        {
            &&& 0 <= i < v.len()
            &&& #[trigger] v[i] == (name, email)
            &&& forall|j: int| 0 <= j < v.len() && (#[trigger] v[j]).0 == name ==> j == i
        }
}

/// A listing of rows holds each name that the rows have once, with the
/// email that the rows give it.
pub proof fn lemma_listing_holds_once(v: Seq<(Seq<char>, Seq<char>)>, rows: Rows, name: Seq<char>)
    requires
        lists(v, rows),
        rows.contains_key(name),
    ensures
        holds_once(v, name, rows[name]),
{
    let i = choose|i: int| 0 <= i < v.len() && (#[trigger] v[i]).0 == name;
    assert(rows.contains_pair(v[i].0, v[i].1));
    assert(v[i] == (name, rows[name]));
    assert forall|j: int| 0 <= j < v.len() && (#[trigger] v[j]).0 == name implies j == i by {
        if j < i {
            assert(v[j].0 != v[i].0);
        }
        if i < j {
            assert(v[i].0 != v[j].0);
        }
    }
}

/// A profile that was created is in every listing made afterwards, once,
/// with the name and the email as they were given.
pub proof fn lemma_created_profile_is_listed(
    pre: Rows,
    name: Seq<char>,
    email: Seq<char>,
    post: Rows,
    listing: Result<Vec<Profile>, StoreError>,
)
    requires
        created(pre, name, email, Ok(()), post),
        listed(post, listing),
        listing is Ok,
    ensures
        holds_once(profile_views(listing->Ok_0@), name, email),
{
    lemma_listing_holds_once(profile_views(listing->Ok_0@), post, name);
}

/// Creating a second profile under a name that was just created fails, and
/// the first profile keeps its email.
pub proof fn lemma_second_create_fails(
    pre: Rows,
    name: Seq<char>,
    first_email: Seq<char>,
    between: Rows,
    second_email: Seq<char>,
    second: Result<(), StoreError>,
    post: Rows,
)
    requires
        created(pre, name, first_email, Ok(()), between),
        created(between, name, second_email, second, post),
    ensures
        second is Err,
        post == between,
        post.contains_key(name),
        post[name] == first_email,
{
}

/// Deleting a name that is not in the store removes nothing: the store is
/// as it was, with as many rows, and the answer says that nothing was there.
pub proof fn lemma_delete_absent_changes_nothing(
    pre: Rows,
    name: Seq<char>,
    r: Result<bool, StoreError>,
    post: Rows,
)
    requires
        !pre.contains_key(name),
        deleted(pre, name, r, post),
    ensures
        post == pre,
        post.dom() == pre.dom(),
        r is Ok ==> r == Ok::<bool, StoreError>(false),
{
    assert(pre.remove(name) =~= pre);
}

/// What was created is what is found: a lookup of the name after a create
/// gives the name and the email exactly as they were given, and never
/// reports the name as missing.
pub proof fn lemma_create_then_find(
    pre: Rows,
    name: Seq<char>,
    email: Seq<char>,
    post: Rows,
    r: Result<Profile, StoreError>,
)
    requires
        created(pre, name, email, Ok(()), post),
        found(post, name, r),
    ensures
        r is Ok ==> r->Ok_0@ == (name, email),
        r is Err ==> r->Err_0 is StorageUnavailable,
{
}

/// A create touches no other profile: every other name is present or
/// absent as before, with the email it had.
pub proof fn lemma_create_keeps_others(
    pre: Rows,
    name: Seq<char>,
    email: Seq<char>,
    r: Result<(), StoreError>,
    post: Rows,
    other: Seq<char>,
)
    requires
        created(pre, name, email, r, post),
        other != name,
    ensures
        post.contains_key(other) == pre.contains_key(other),
        pre.contains_key(other) ==> post[other] == pre[other],
{
}

/// No row has an empty name or an empty email.
pub open spec fn all_filled(rows: Rows) -> bool {
    forall|name: Seq<char>| #[trigger]
        rows.contains_key(name) ==> name.len() > 0 && rows[name].len() > 0
}

/// A create with an empty name or an empty email adds no row: it fails,
/// with the field that is empty, and the store is as it was.
pub proof fn lemma_empty_field_adds_nothing(
    pre: Rows,
    name: Seq<char>,
    email: Seq<char>,
    r: Result<(), StoreError>,
    post: Rows,
)
    requires
        name.len() == 0 || email.len() == 0,
        created(pre, name, email, r, post),
    ensures
        r is Err,
        r->Err_0 is EmptyField,
        post == pre,
{
}

/// Where no row had an empty field before a create or a delete, none has
/// one afterwards.
pub proof fn lemma_fields_stay_filled(
    pre: Rows,
    name: Seq<char>,
    email: Seq<char>,
    made: Result<(), StoreError>,
    between: Rows,
    gone: Seq<char>,
    removed: Result<bool, StoreError>,
    post: Rows,
)
    requires
        all_filled(pre),
        created(pre, name, email, made, between),
        deleted(between, gone, removed, post),
    ensures
        all_filled(between),
        all_filled(post),
{
    assert forall|k: Seq<char>| #[trigger] between.contains_key(k) implies k.len() > 0
        && between[k].len() > 0 by {
        if k != name {
            assert(pre.contains_key(k));
        }
    }
    assert forall|k: Seq<char>| #[trigger] post.contains_key(k) implies k.len() > 0 && post[k].len()
        > 0 by {
        assert(between.contains_key(k));
    }
}

} // verus!
