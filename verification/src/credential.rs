//! The credential hasher: a password is stored only as a salted, slow hash,
//! and compared with it without ever being recovered.

use crate::error::{fails_inside, fails_inside_with, fails_with, LocalErr, LocalErrKind, LocalResult, UNAUTHORIZED};
use vstd::prelude::*;

verus! {

/// The work factor of every hash this service makes.
pub const HASH_COST: u32 = 10;

/// The length of a hash text: the version tag, the work factor, the salt and
/// the digest.
pub const HASH_LEN: usize = 60;

/// A password, in the clear before `hash_password` and hashed after it.
#[derive(Debug, Clone)]
pub struct Password(pub String);

/// The number that a decimal digit stands for.
pub open spec fn spec_digit(c: char) -> Option<int> {
    if c == '0' {
        Some(0)
    } else if c == '1' {
        Some(1)
    } else if c == '2' {
        Some(2)
    } else if c == '3' {
        Some(3)
    } else if c == '4' {
        Some(4)
    } else if c == '5' {
        Some(5)
    } else if c == '6' {
        Some(6)
    } else if c == '7' {
        Some(7)
    } else if c == '8' {
        Some(8)
    } else if c == '9' {
        Some(9)
    } else {
        None
    }
}

/// True of the letter of a version tag.
pub open spec fn spec_version_letter(c: char) -> bool {
    c == 'a' || c == 'b' || c == 'x' || c == 'y'
}

/// The work factor that a hash text names: the number in the two digits that
/// follow the version tag, as in `$2b$10$`. A text that does not begin with
/// a version tag and two digits between `$` names none.
pub open spec fn spec_hash_cost(text: Seq<char>) -> Option<int> {
    if text.len() >= 7 && text[0] == '$' && text[1] == '2' && spec_version_letter(text[2]) && text[3] == '$'
        && spec_digit(text[4]) is Some && spec_digit(text[5]) is Some && text[6] == '$' {
        Some(spec_digit(text[4])->Some_0 * 10 + spec_digit(text[5])->Some_0)
    } else {
        None
    }
}

/// True of a hash text as this service makes it: of the full length, of
/// version `2b`, and naming the work factor `cost`. The salt it was made with
/// is part of the text, after the work factor.
pub open spec fn fresh_hash_form(text: Seq<char>, cost: int) -> bool {
    &&& text.len() == HASH_LEN
    &&& text[2] == 'b'
    &&& spec_hash_cost(text) == Some(cost)
}

/// Whether `plain` matches the stored hash `hashed`: `Some(true)` if it does,
/// `Some(false)` if it does not, `None` where `hashed` is not a hash that can
/// be compared with.
pub uninterp spec fn bcrypt_verdict(plain: Seq<char>, hashed: Seq<char>) -> Option<bool>;

/// Assumed of `bcrypt::hash`: a hash it returns is one that `bcrypt::verify`
/// accepts for the same password and can compare with any other, and it is
/// written as `$2b$`, the work factor it was asked for in two digits, `$`,
/// and 53 characters of salt and digest. The salt is random, so nothing else
/// is said of the hash. An error comes as its text.
#[verifier::external_body]
fn bcrypt_hash(plain: &str, cost: u32) -> (hashed: Result<String, String>)
    ensures
        hashed is Ok ==> bcrypt_verdict(plain@, hashed->Ok_0@) == Some(true),
        hashed is Ok ==> fresh_hash_form(hashed->Ok_0@, cost as int),
        hashed is Ok ==> forall|other: Seq<char>| #[trigger] bcrypt_verdict(other, hashed->Ok_0@) is Some,
{
    match bcrypt::hash(plain, cost) {
        Ok(hashed) => Ok(hashed),
        Err(e) => Err(e.to_string()),
    }
}

/// Assumed of `bcrypt::verify`: its outcome depends on the password and the
/// stored hash alone; an error stands for a stored value that is no hash, and
/// comes as its text.
#[verifier::external_body]
fn bcrypt_verify(plain: &str, hashed: &str) -> (verdict: Result<bool, String>)
    ensures
        match verdict {
            Ok(matches) => bcrypt_verdict(plain@, hashed@) == Some(matches),
            Err(_) => bcrypt_verdict(plain@, hashed@) is None,
        },
{
    match bcrypt::verify(plain, hashed) {
        Ok(matches) => Ok(matches),
        Err(e) => Err(e.to_string()),
    }
}

/// The result owed for each outcome of comparing a password with a stored
/// hash: success for a match, an unauthorized error for a mismatch, and an
/// internal error where the comparison could not be made.
pub open spec fn verdict_outcome(verdict: Option<bool>, r: LocalResult<()>) -> bool {
    match verdict {
        Some(true) => r is Ok,
        Some(false) => fails_with(r, LocalErrKind::Unauthorized, UNAUTHORIZED),
        None => fails_inside(r),
    }
}

/// A comparison's outcome without the text of its failure.
pub open spec fn verdict_of(compared: Result<bool, String>) -> Option<bool> {
    match compared {
        Ok(matches) => Some(matches),
        Err(_) => None,
    }
}

/// Turns the outcome of a comparison into the result the caller sees, so that
/// a wrong password and a failed comparison stay apart. The text of a failed
/// comparison goes to the log, not to the client.
pub fn judge_verdict(compared: Result<bool, String>) -> (r: LocalResult<()>)
    ensures
        verdict_outcome(verdict_of(compared), r),
        compared is Err ==> fails_inside_with(r, compared->Err_0),
{
    match compared {
        Ok(true) => Ok(()),
        Ok(false) => Err(LocalErr::new(LocalErrKind::Unauthorized, UNAUTHORIZED)),
        Err(detail) => Err(LocalErr::internal(detail)),
    }
}

/// Turns the outcome of a hashing into the result the caller sees: the hash
/// as a stored password, or an internal error that holds the failure's text
/// for the log.
pub fn stored_hash(hashed: Result<String, String>) -> (r: LocalResult<Password>)
    ensures
        match hashed {
            Ok(hash) => r is Ok && r->Ok_0.0 == hash,
            Err(detail) => fails_inside_with(r, detail),
        },
{
    match hashed {
        Ok(hash) => Ok(Password(hash)),
        Err(detail) => Err(LocalErr::internal(detail)),
    }
}

/// Reads a decimal digit.
pub fn digit(c: char) -> (value: Option<u32>)
    ensures
        match spec_digit(c) {
            Some(n) => value == Some(n as u32) && 0 <= n <= 9,
            None => value is None,
        },
{
    match c {
        '0' => Some(0),
        '1' => Some(1),
        '2' => Some(2),
        '3' => Some(3),
        '4' => Some(4),
        '5' => Some(5),
        '6' => Some(6),
        '7' => Some(7),
        '8' => Some(8),
        '9' => Some(9),
        _ => None,
    }
}

impl Password {
    /// True of the outcome `r` of hashing `plain`: a hash that `plain` matches
    /// and that every password can be compared with, in the form this service
    /// makes and at its work factor; or an internal error.
    pub open spec fn hashed_from(plain: Seq<char>, r: LocalResult<Password>) -> bool {
        match r {
            Ok(hashed) => {
                &&& bcrypt_verdict(plain, hashed.0@) == Some(true)
                &&& fresh_hash_form(hashed.0@, HASH_COST as int)
                &&& forall|other: Seq<char>| #[trigger] bcrypt_verdict(other, hashed.0@) is Some
            },
            Err(_) => fails_inside(r),
        }
    }

    /// Hashes the password with a fresh random salt at the fixed work factor.
    pub fn hash_password(self) -> (r: LocalResult<Self>)
        ensures
            Self::hashed_from(self.0@, r),
    {
        stored_hash(bcrypt_hash(self.0.as_str(), HASH_COST))
    }

    /// Compares the password `rhs` with this stored hash.
    pub fn verify_password(&self, rhs: &String) -> (r: LocalResult<()>)
        ensures
            verdict_outcome(bcrypt_verdict(rhs@, self.0@), r),
    {
        judge_verdict(bcrypt_verify(rhs.as_str(), self.0.as_str()))
    }

    /// The work factor that this stored hash names, if it has the form of a
    /// hash.
    pub fn cost(&self) -> (cost: Option<u32>)
        ensures
            match spec_hash_cost(self.0@) {
                Some(n) => cost == Some(n as u32) && 0 <= n <= 99,
                None => cost is None,
            },
    {
        let text = self.0.as_str();
        if text.unicode_len() < 7 {
            return None;
        }
        let letter = text.get_char(2);
        if text.get_char(0) != '$' || text.get_char(1) != '2' || text.get_char(3) != '$' || text.get_char(6) != '$' {
            return None;
        }
        if letter != 'a' && letter != 'b' && letter != 'x' && letter != 'y' {
            return None;
        }
        match (digit(text.get_char(4)), digit(text.get_char(5))) {
            (Some(tens), Some(ones)) => Some(tens * 10 + ones),
            _ => None,
        }
    }
}

/// A password verifies against every hash that was made from it, and every
/// such hash names the service's work factor.
pub proof fn lemma_hashed_password_verifies(plain: Seq<char>, hashed: LocalResult<Password>, r: LocalResult<()>)
    requires
        Password::hashed_from(plain, hashed),
        hashed is Ok,
        verdict_outcome(bcrypt_verdict(plain, hashed->Ok_0.0@), r),
    ensures
        r is Ok,
        spec_hash_cost(hashed->Ok_0.0@) == Some(HASH_COST as int),
        hashed->Ok_0.0@.len() == HASH_LEN,
{
}

/// Comparing any password with a hash that this service made is never an
/// internal error: the password is accepted, or the answer is unauthorized.
pub proof fn lemma_fresh_hash_always_compares(
    plain: Seq<char>,
    hashed: LocalResult<Password>,
    other: Seq<char>,
    r: LocalResult<()>,
)
    requires
        Password::hashed_from(plain, hashed),
        hashed is Ok,
        verdict_outcome(bcrypt_verdict(other, hashed->Ok_0.0@), r),
    ensures
        r is Ok || fails_with(r, LocalErrKind::Unauthorized, UNAUTHORIZED),
        r is Ok <==> bcrypt_verdict(other, hashed->Ok_0.0@) == Some(true),
{
}

} // verus!
