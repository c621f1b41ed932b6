//! The four commands, and what each does to the store and prints.
use vstd::prelude::*;
use crate::apply::{
    calls_made,
    config_call,
    lemma_both_fields_set_once,
    stage_reached,
    Applier,
    LaunchOutcome,
    Stage,
};
use crate::error::StoreError;
use crate::message::{
    created_line,
    deleted_line,
    line_views,
    listing_lines,
    not_found_line,
    render_created,
    render_deleted,
    render_listing,
    render_not_found,
};
use crate::profile::ProfileField;
use crate::sqlite::lists;
use crate::store::{
    created,
    deleted,
    holds_once,
    lemma_listing_holds_once,
    profile_views,
    ProfileStore,
    Rows,
};

verus! {

/// One invocation of the program.
#[derive(Debug, PartialEq, Eq)]
pub enum Command {
    /// Add a profile.
    Create { name: String, email: String },
    /// Print all profiles.
    List,
    /// Apply the profile with this name to the repository at hand.
    Su { name: String },
    /// Remove the profile with this name.
    Delete { name: String },
}

/// What the caller is to do after a command went through.
#[derive(Debug)]
pub enum Reply {
    /// Print these lines.
    Lines(Vec<String>),
    /// Run the invocations of this applier, then print its confirmation.
    Apply(Applier),
}

/// A result without what it holds on success.
pub open spec fn status<T>(r: Result<T, StoreError>) -> Result<(), StoreError> {
    match r {
        Ok(_) => Ok(()),
        Err(e) => Err(e),
    }
}

/// What `create_user` may return on `pre`, and the rows it leaves.
pub open spec fn create_reply(
    pre: Rows,
    name: Seq<char>,
    email: Seq<char>,
    r: Result<String, StoreError>,
    post: Rows,
) -> bool {
    &&& created(pre, name, email, status(r), post)
    &&& r is Ok ==> r->Ok_0@ == created_line(name, email)
}

/// What `list_users` may return on `rows`: the lines of some listing of them.
pub open spec fn list_reply(rows: Rows, r: Result<Vec<String>, StoreError>) -> bool {
    match r {
        Ok(lines) => exists|v: Seq<(Seq<char>, Seq<char>)>| #[trigger]
            lists(v, rows) && line_views(lines@) == listing_lines(v),
        Err(e) => e is StorageUnavailable,
    }
}

/// What `switch_user` may return on `rows`: an applier for the stored
/// profile, with nothing invoked yet, or the reason why there is none.
pub open spec fn switch_reply(rows: Rows, name: Seq<char>, r: Result<Applier, StoreError>) -> bool {
    match r {
        Ok(applier) => {
            &&& rows.contains_key(name)
            &&& applier.profile() == (name, rows[name])
            &&& applier.stage() == Stage::Next(ProfileField::Name)
        },
        Err(StoreError::NotFound) => !rows.contains_key(name),
        Err(StoreError::StorageUnavailable(_)) => true,
        Err(_) => false,
    }
}

/// What `delete_user` may return on `pre`, and the rows it leaves. An absent
/// name is reported in the line, not as an error.
pub open spec fn delete_reply(pre: Rows, name: Seq<char>, r: Result<String, StoreError>, post: Rows) -> bool {
    match r {
        Ok(line) => {
            &&& post == pre.remove(name)
            &&& line@ == if pre.contains_key(name) {
                deleted_line(name)
            } else {
                not_found_line(name)
            }
        },
        Err(e) => e is StorageUnavailable && post == pre,
    }
}

/// Adds the profile and confirms it.
pub fn create_user(store: &mut ProfileStore, name: &str, email: &str) -> (r: Result<
    String,
    StoreError,
>)
    ensures
        create_reply(old(store)@, name@, email@, r, final(store)@),
        old(store)@.contains_key(name@) ==> r is Err,
        final(store).location() == old(store).location(),
        final(store).has_table(),
        final(store)@.dom().finite(),
{
    match store.create_profile(name, email) {
        Ok(_) => Ok(render_created(name, email)),
        Err(e) => Err(e),
    }
}

/// The header and one line for each profile.
pub fn list_users(store: &ProfileStore) -> (r: Result<Vec<String>, StoreError>)
    ensures
        list_reply(store@, r),
        store.has_table(),
        store@.dom().finite(),
{
    match store.list_profiles() {
        Ok(profiles) => {
            let lines = render_listing(&profiles);
            assert(lists(profile_views(profiles@), store@));
            Ok(lines)
        },
        Err(e) => Err(e),
    }
}

/// Looks the profile up and hands back what applies it. Nothing is invoked
/// here, and for an unknown name there is nothing to invoke.
pub fn switch_user(store: &ProfileStore, name: &str) -> (r: Result<Applier, StoreError>)
    ensures
        switch_reply(store@, name@, r),
        !store@.contains_key(name@) ==> r is Err,
        store.has_table(),
        store@.dom().finite(),
{
    match store.find_profile(name) {
        Ok(profile) => Ok(Applier::new(profile)),
        Err(e) => Err(e),
    }
}

/// Removes the profile and says whether there was one.
pub fn delete_user(store: &mut ProfileStore, name: &str) -> (r: Result<String, StoreError>)
    ensures
        delete_reply(old(store)@, name@, r, final(store)@),
        final(store).location() == old(store).location(),
        final(store).has_table(),
        final(store)@.dom().finite(),
{
    match store.delete_profile(name) {
        Ok(removed) => if removed {
            Ok(render_deleted(name))
        } else {
            Ok(render_not_found(name))
        },
        Err(e) => Err(e),
    }
}

/// What `dispatch` may return for `command` on `pre`, and the rows it leaves.
pub open spec fn dispatched(pre: Rows, command: Command, r: Result<Reply, StoreError>, post: Rows) -> bool {
    match command {
        Command::Create { name, email } => match r {
            Ok(Reply::Lines(lines)) => lines.len() == 1 && create_reply(
                pre,
                name@,
                email@,
                Ok(lines[0]),
                post,
            ),
            Ok(Reply::Apply(_)) => false,
            Err(e) => create_reply(pre, name@, email@, Err(e), post),
        },
        Command::List => post == pre && match r {
            Ok(Reply::Lines(lines)) => list_reply(pre, Ok(lines)),
            Ok(Reply::Apply(_)) => false,
            Err(e) => list_reply(pre, Err(e)),
        },
        Command::Su { name } => post == pre && match r {
            Ok(Reply::Lines(_)) => false,
            Ok(Reply::Apply(applier)) => switch_reply(pre, name@, Ok(applier)),
            Err(e) => switch_reply(pre, name@, Err(e)),
        },
        Command::Delete { name } => match r {
            Ok(Reply::Lines(lines)) => lines.len() == 1 && delete_reply(
                pre,
                name@,
                Ok(lines[0]),
                post,
            ),
            Ok(Reply::Apply(_)) => false,
            Err(e) => delete_reply(pre, name@, Err(e), post),
        },
    }
}

/// A reply of one line.
fn one_line(line: String) -> (r: Reply)
    ensures
        r matches Reply::Lines(lines) && lines@ == seq![line],
{
    let mut lines: Vec<String> = Vec::new();
    lines.push(line);
    Reply::Lines(lines)
}

/// Carries out one command on the store.
pub fn dispatch(store: &mut ProfileStore, command: &Command) -> (r: Result<Reply, StoreError>)
    ensures
        dispatched(old(store)@, *command, r, final(store)@),
        final(store).location() == old(store).location(),
        final(store).has_table(),
        final(store)@.dom().finite(),
{
    match command {
        Command::Create { name, email } => match create_user(store, name.as_str(), email.as_str()) {
            Ok(line) => Ok(one_line(line)),
            Err(e) => Err(e),
        },
        Command::List => match list_users(store) {
            Ok(lines) => Ok(Reply::Lines(lines)),
            Err(e) => Err(e),
        },
        Command::Su { name } => match switch_user(store, name.as_str()) {
            Ok(applier) => Ok(Reply::Apply(applier)),
            Err(e) => Err(e),
        },
        Command::Delete { name } => match delete_user(store, name.as_str()) {
            Ok(line) => Ok(one_line(line)),
            Err(e) => Err(e),
        },
    }
}

/// Switching to a name that is not in the store fails, with `NotFound`
/// unless the storage itself failed. No applier comes back, so there is no
/// invocation to make.
pub proof fn lemma_switch_unknown_fails(rows: Rows, name: Seq<char>, r: Result<Applier, StoreError>)
    requires
        !rows.contains_key(name),
        switch_reply(rows, name, r),
    ensures
        r is Err,
        r->Err_0 is NotFound || r->Err_0 is StorageUnavailable,
{
}

/// Switching to a name that is in the store never reports it as missing, and
/// whenever both launches succeed the applier that comes back makes exactly
/// two calls: one sets the name to the name asked for, the next sets the
/// email to the stored email.
pub proof fn lemma_switch_sets_stored_values(
    rows: Rows,
    name: Seq<char>,
    r: Result<Applier, StoreError>,
    outcomes: Seq<LaunchOutcome>,
)
    requires
        rows.contains_key(name),
        switch_reply(rows, name, r),
        outcomes.len() >= 2,
        outcomes[0] is Exited,
        outcomes[1] is Exited,
    ensures
        r is Err ==> r->Err_0 is StorageUnavailable,
        r is Ok ==> calls_made(r->Ok_0.profile(), r->Ok_0.stage(), outcomes) == seq![
            config_call((name, rows[name]), ProfileField::Name),
            config_call((name, rows[name]), ProfileField::Email),
        ],
        r is Ok ==> stage_reached(r->Ok_0.stage(), outcomes) == Stage::Applied,
{
    if r is Ok {
        lemma_both_fields_set_once(r->Ok_0.profile(), outcomes);
    }
}

/// Deleting a name that is not in the store is no failure of the command:
/// the line says that the name was not found, and the store is as it was.
pub proof fn lemma_delete_absent_reports_not_found(
    pre: Rows,
    name: Seq<char>,
    r: Result<String, StoreError>,
    post: Rows,
)
    requires
        !pre.contains_key(name),
        delete_reply(pre, name, r, post),
    ensures
        post == pre,
        r is Ok ==> r->Ok_0@ == not_found_line(name),
{
    assert(pre.remove(name) =~= pre);
}

/// After a profile was created, every listing that comes back is the header
/// and the lines of a listing that holds the profile once, with the name
/// and the email as they were given.
pub proof fn lemma_created_user_is_listed(
    pre: Rows,
    name: Seq<char>,
    email: Seq<char>,
    made: Result<String, StoreError>,
    post: Rows,
    listing: Result<Vec<String>, StoreError>,
)
    requires
        create_reply(pre, name, email, made, post),
        made is Ok,
        list_reply(post, listing),
        listing is Ok,
    ensures
        exists|v: Seq<(Seq<char>, Seq<char>)>|
            {
                &&& #[trigger] lists(v, post)
                &&& holds_once(v, name, email)
                &&& line_views(listing->Ok_0@) == listing_lines(v)
            },
{
    let lines = listing->Ok_0@;
    let v = choose|v: Seq<(Seq<char>, Seq<char>)>| #[trigger]
        lists(v, post) && line_views(lines) == listing_lines(v);
    lemma_listing_holds_once(v, post, name);
}

/// After a profile was created, a switch to its name never reports it as
/// missing, and the applier that comes back carries the name and the email
/// as they were given: whenever both launches succeed, the two calls set
/// exactly these.
pub proof fn lemma_create_then_switch(
    pre: Rows,
    name: Seq<char>,
    email: Seq<char>,
    made: Result<String, StoreError>,
    post: Rows,
    switched: Result<Applier, StoreError>,
    outcomes: Seq<LaunchOutcome>,
)
    requires
        create_reply(pre, name, email, made, post),
        made is Ok,
        switch_reply(post, name, switched),
        outcomes.len() >= 2,
        outcomes[0] is Exited,
        outcomes[1] is Exited,
    ensures
        switched is Err ==> switched->Err_0 is StorageUnavailable,
        switched is Ok ==> switched->Ok_0.profile() == (name, email),
        switched is Ok ==> calls_made(switched->Ok_0.profile(), switched->Ok_0.stage(), outcomes)
            == seq![
            config_call((name, email), ProfileField::Name),
            config_call((name, email), ProfileField::Email),
        ],
{
    lemma_switch_sets_stored_values(post, name, switched, outcomes);
}

} // verus!
