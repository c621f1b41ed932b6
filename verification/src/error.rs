//! The ways in which an operation of this library fails.
use vstd::prelude::*;
use crate::profile::ProfileField;
use crate::sqlite::SqlFailure;

verus! {

#[derive(Debug, PartialEq, Eq)]
pub enum StoreError {
    /// The backing store could not be opened, created, read or written. The
    /// text is the storage engine's own.
    StorageUnavailable(String),
    /// A profile with the given name exists already.
    DuplicateName,
    /// No profile has the given name.
    NotFound,
    /// The external tool could not be launched for the given field. The text
    /// is the operating system's own.
    ExternalToolInvocationFailed(ProfileField, String),
    /// A profile was to be created with the given field empty.
    EmptyField(ProfileField),
}

/// The error is `StorageUnavailable` with exactly this text.
pub open spec fn unavailable_because(e: StoreError, text: Seq<char>) -> bool {
    e matches StoreError::StorageUnavailable(t) && t@ == text
}

/// What a storage failure becomes where nothing more is known of it.
pub open spec fn unavailable(e: StoreError, f: SqlFailure) -> bool {
    e matches StoreError::StorageUnavailable(text) && text@ == f.message@
}

/// A failure of the storage engine, as an error of this library.
pub fn storage_error(f: SqlFailure) -> (e: StoreError)
    ensures
        unavailable(e, f),
{
    StoreError::StorageUnavailable(f.message)
}

impl StoreError {
    /// The text of the message, as a sequence of characters.
    pub open spec fn message_text(&self) -> Seq<char> {
        match self {
            StoreError::StorageUnavailable(text) => "storage unavailable: "@ + text@,
            StoreError::DuplicateName => "user already exists"@,
            StoreError::NotFound => "user not found"@,
            StoreError::ExternalToolInvocationFailed(field, text) => match field {
                ProfileField::Name => "`git config user.name` failed: "@ + text@,
                ProfileField::Email => "`git config user.email` failed: "@ + text@,
            },
            StoreError::EmptyField(field) => match field {
                ProfileField::Name => "the name must not be empty"@,
                ProfileField::Email => "the email must not be empty"@,
            },
        }
    }

    /// The message shown to the user.
    pub fn message(&self) -> (s: String)
        ensures
            s@ == self.message_text(),
    {
        match self {
            StoreError::StorageUnavailable(text) => {
                String::from_str("storage unavailable: ").concat(text.as_str())
            },
            StoreError::DuplicateName => String::from_str("user already exists"),
            StoreError::NotFound => String::from_str("user not found"),
            StoreError::ExternalToolInvocationFailed(field, text) => match field {
                ProfileField::Name => {
                    String::from_str("`git config user.name` failed: ").concat(text.as_str())
                },
                ProfileField::Email => {
                    String::from_str("`git config user.email` failed: ").concat(text.as_str())
                },
            },
            StoreError::EmptyField(field) => match field {
                ProfileField::Name => String::from_str("the name must not be empty"),
                ProfileField::Email => String::from_str("the email must not be empty"),
            },
        }
    }
}

} // verus!
