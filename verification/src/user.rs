//! The user record as the identity core reads it, and the rules by which
//! stored records are matched and their version is renewed.

use crate::credential::Password;
use vstd::prelude::*;

verus! {

#[derive(Debug, Clone, Copy, PartialEq, Eq, Structural)]
pub enum UserSex {
    Male,
    Female,
    Other,
}

impl Default for UserSex {
    fn default() -> (sex: Self)
        ensures
            sex == UserSex::Other,
    {
        UserSex::Other
    }
}

/// A stored user. `version` changes whenever the email or the password does;
/// `creation_date` is in seconds since the epoch and `birth_date` in days
/// since the first day of the common era.
#[derive(Debug, Clone)]
pub struct Model {
    pub id: u128,
    pub version: u128,
    pub email: String,
    pub username: String,
    pub password_hash: Password,
    pub creation_date: i64,
    pub avatar: Option<String>,
    pub banner: Option<String>,
    pub birth_date: i32,
    pub sex: UserSex,
    pub is_active: bool,
}

/// A user still to be stored. Storage assigns the id, the first version, the
/// creation date, and marks the record active.
#[derive(Debug, Clone)]
pub struct UserDraft {
    pub username: String,
    pub email: String,
    pub password_hash: Password,
    pub birth_date: i32,
    pub sex: UserSex,
}

impl Model {
    /// An active record whose email or username is exactly `credential`.
    pub open spec fn spec_matches_credential(&self, credential: Seq<char>) -> bool {
        self.is_active && (self.email@ == credential || self.username@ == credential)
    }

    /// An active record that a registration under `email` and `username`
    /// would collide with.
    pub open spec fn spec_conflicts_with(&self, email: Seq<char>, username: Seq<char>) -> bool {
        self.is_active && (self.email@ == email || self.username@ == username)
    }

    /// An active record with the id `id`.
    pub open spec fn spec_has_id(&self, id: u128) -> bool {
        self.is_active && self.id == id
    }

    /// Whether a login with `credential` finds this record.
    pub fn matches_credential(&self, credential: &String) -> (found: bool)
        ensures
            found == self.spec_matches_credential(credential@),
    {
        self.is_active && (self.email == *credential || self.username == *credential)
    }

    /// Whether a registration under `email` and `username` finds this record
    /// in its way.
    pub fn conflicts_with(&self, email: &String, username: &String) -> (found: bool)
        ensures
            found == self.spec_conflicts_with(email@, username@),
    {
        self.is_active && (self.email == *email || self.username == *username)
    }

    /// Whether a profile fetch for `id` finds this record.
    pub fn has_id(&self, id: u128) -> (found: bool)
        ensures
            found == self.spec_has_id(id),
    {
        self.is_active && self.id == id
    }
}

/// Whether saving a record must give it a new version: on every update, and
/// on no insert, that sets the email or the password.
pub fn version_bump_due(insert: bool, email_set: bool, password_set: bool) -> (due: bool)
    ensures
        due == (!insert && (email_set || password_set)),
{
    !insert && (email_set || password_set)
}

} // verus!
