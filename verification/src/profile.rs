//! An identity profile: a display name and an email address.
use vstd::prelude::*;

verus! {

/// One of the two fields of a profile.
#[derive(Clone, Copy, Debug, PartialEq, Eq, Structural)]
pub enum ProfileField {
    Name,
    Email,
}

/// A named identity. The name is the key under which the store keeps it.
#[derive(Debug, PartialEq, Eq)]
pub struct Profile {
    pub name: String,
    pub email: String,
}

impl View for Profile {
    type V = (Seq<char>, Seq<char>);

    open spec fn view(&self) -> (Seq<char>, Seq<char>) {
        (self.name@, self.email@)
    }
}

/// The first field that is empty, if one is: the name before the email.
pub open spec fn empty_field(name: Seq<char>, email: Seq<char>) -> Option<ProfileField> {
    if name.len() == 0 {
        Some(ProfileField::Name)
    } else if email.len() == 0 {
        Some(ProfileField::Email)
    } else {
        None
    }
}

/// The first field that is empty, if one is: the name before the email.
pub fn first_empty_field(name: &str, email: &str) -> (r: Option<ProfileField>)
    ensures
        r == empty_field(name@, email@),
{
    if name.is_empty() {
        Some(ProfileField::Name)
    } else if email.is_empty() {
        Some(ProfileField::Email)
    } else {
        None
    }
}

impl Profile {
    /// A profile is valid when neither field is empty. The email's format is
    /// not looked at.
    pub open spec fn valid(&self) -> bool {
        empty_field(self.name@, self.email@) is None
    }

    pub fn new(name: &str, email: &str) -> (p: Profile)
        ensures
            p@ == (name@, email@),
    {
        Profile { name: String::from_str(name), email: String::from_str(email) }
    }

    /// Whether neither field is empty.
    pub fn is_valid(&self) -> (b: bool)
        ensures
            b == self.valid(),
    {
        first_empty_field(self.name.as_str(), self.email.as_str()).is_none()
    }
}

} // verus!
