//! The lines that the commands print.
use vstd::prelude::*;
use crate::profile::Profile;

verus! {

/// The confirmation of a create.
pub open spec fn created_line(name: Seq<char>, email: Seq<char>) -> Seq<char> {
    "create user success: "@ + name + " "@ + email
}

/// The line above a listing.
pub open spec fn header_line() -> Seq<char> {
    "Users:"@
}

/// The line of one profile in a listing.
pub open spec fn row_line(profile: (Seq<char>, Seq<char>)) -> Seq<char> {
    "- "@ + profile.0 + " "@ + profile.1
}

/// The confirmation of a switch.
pub open spec fn switched_line(name: Seq<char>, email: Seq<char>) -> Seq<char> {
    "user switched: "@ + name + " "@ + email
}

/// The confirmation of a delete that removed a profile.
pub open spec fn deleted_line(name: Seq<char>) -> Seq<char> {
    "user deleted: "@ + name
}

/// The report of a delete that found nothing to remove.
pub open spec fn not_found_line(name: Seq<char>) -> Seq<char> {
    "user not found: "@ + name
}

/// A listing as printed: the header, then one line for each profile, in the
/// order given. An empty listing is the header alone.
pub open spec fn listing_lines(profiles: Seq<(Seq<char>, Seq<char>)>) -> Seq<Seq<char>> {
    seq![header_line()] + profiles.map_values(|p: (Seq<char>, Seq<char>)| row_line(p))
}

/// The plain forms of printed lines.
pub open spec fn line_views(lines: Seq<String>) -> Seq<Seq<char>> {
    lines.map_values(|s: String| s@)
}

/// `prefix`, then `first`, a space, and `second`.
fn two_fields(prefix: &str, first: &str, second: &str) -> (s: String)
    ensures
        s@ == prefix@ + first@ + " "@ + second@,
{
    String::from_str(prefix).concat(first).concat(" ").concat(second)
}

pub fn render_created(name: &str, email: &str) -> (s: String)
    ensures
        s@ == created_line(name@, email@),
{
    two_fields("create user success: ", name, email)
}

pub fn render_row(profile: &Profile) -> (s: String)
    ensures
        s@ == row_line(profile@),
{
    two_fields("- ", profile.name.as_str(), profile.email.as_str())
}

pub fn render_switched(name: &str, email: &str) -> (s: String)
    ensures
        s@ == switched_line(name@, email@),
{
    two_fields("user switched: ", name, email)
}

pub fn render_deleted(name: &str) -> (s: String)
    ensures
        s@ == deleted_line(name@),
{
    String::from_str("user deleted: ").concat(name)
}

pub fn render_not_found(name: &str) -> (s: String)
    ensures
        s@ == not_found_line(name@),
{
    String::from_str("user not found: ").concat(name)
}

/// The lines of a listing, for the profiles in the order given.
pub fn render_listing(profiles: &Vec<Profile>) -> (lines: Vec<String>)
    ensures
        line_views(lines@) == listing_lines(profiles@.map_values(|p: Profile| p@)),
{
    let ghost views = profiles@.map_values(|p: Profile| p@);
    let mut lines: Vec<String> = Vec::new();
    lines.push(String::from_str("Users:"));
    let mut i: usize = 0;
    while i < profiles.len()
        invariant
            i <= profiles.len(),
            lines.len() == i + 1,
            views == profiles@.map_values(|p: Profile| p@),
            lines[0]@ == header_line(),
            forall|k: int| 0 <= k < i ==> (#[trigger] lines[k + 1])@ == row_line(views[k]),
        decreases profiles.len() - i,
    {
        lines.push(render_row(&profiles[i]));
        i = i + 1;
    }
    assert(line_views(lines@) =~= listing_lines(views)) by {
        let rows = views.map_values(|p: (Seq<char>, Seq<char>)| row_line(p));
        assert(listing_lines(views).len() == lines.len());
        assert forall|j: int| 0 <= j < lines.len() implies line_views(lines@)[j] == listing_lines(
            views,
        )[j] by {
            if j > 0 {
                assert(lines[(j - 1) + 1]@ == row_line(views[j - 1]));
                assert(listing_lines(views)[j] == rows[j - 1]);
            }
        }
    }
    lines
}

} // verus!
