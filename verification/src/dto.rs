//! The bodies of the auth endpoints' requests and responses.

use crate::credential::{bcrypt_verdict, fresh_hash_form, Password, HASH_COST};
use crate::error::{fails_inside, LocalResult};
use crate::user::{UserDraft, UserSex};
use vstd::prelude::*;
use vstd::utf8::encode_utf8;

verus! {

/// The length of a text in bytes, as it is sent.
pub open spec fn byte_len(text: Seq<char>) -> nat {
    encode_utf8(text).len()
}

/// A text of at most `SIZE` bytes.
#[derive(Debug, Clone)]
pub struct StringWithLimit<const SIZE: usize>(pub String);

impl<const SIZE: usize> StringWithLimit<SIZE> {
    pub open spec fn wf(&self) -> bool {
        byte_len(self.0@) <= SIZE
    }

    /// Accepts `text` if it is within the limit.
    pub fn new(text: String) -> (r: Option<Self>)
        ensures
            r is Some <==> byte_len(text@) <= SIZE,
            r is Some ==> r->Some_0.0 == text && r->Some_0.wf(),
    {
        let len: usize = text.as_str().as_bytes().len();
        if len > SIZE {
            None
        } else {
            Some(StringWithLimit(text))
        }
    }
}

#[derive(Debug, Clone)]
pub struct RegisterRequestBody {
    pub username: StringWithLimit<50>,
    pub email: StringWithLimit<100>,
    pub password: StringWithLimit<100>,
    pub birth_date: i32,
    pub sex: UserSex,
}

#[derive(Debug, Clone)]
pub struct LoginRequestBody {
    pub credential: StringWithLimit<100>,
    pub password: StringWithLimit<100>,
}

#[derive(Debug, Clone)]
pub struct UserRequestsResponse {
    pub username: String,
    pub email: String,
    pub avatar: Option<String>,
    pub token: Option<String>,
}

#[derive(Debug, Clone)]
pub struct RefreshAccessTokenResponse {
    pub token: String,
}

impl RegisterRequestBody {
    /// True of the outcome `r` of drafting a user from this request: a draft
    /// with the request's fields and a hash that the request's password
    /// matches, made at the service's work factor; or an internal error.
    pub open spec fn drafted(&self, r: LocalResult<UserDraft>) -> bool {
        match r {
            Ok(draft) => {
                &&& draft.username == self.username.0
                &&& draft.email == self.email.0
                &&& bcrypt_verdict(self.password.0@, draft.password_hash.0@) == Some(true)
                &&& fresh_hash_form(draft.password_hash.0@, HASH_COST as int)
                &&& draft.birth_date == self.birth_date
                &&& draft.sex == self.sex
            },
            Err(_) => fails_inside(r),
        }
    }

    /// Drafts the user to store: the request's fields, with the password
    /// replaced by its hash.
    pub fn try_into(self) -> (r: LocalResult<UserDraft>)
        ensures
            self.drafted(r),
    {
        match Password(self.password.0).hash_password() {
            Ok(password_hash) => Ok(UserDraft {
                username: self.username.0,
                email: self.email.0,
                password_hash,
                birth_date: self.birth_date,
                sex: self.sex,
            }),
            Err(e) => Err(e),
        }
    }
}

} // verus!
