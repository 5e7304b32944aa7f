//! Users: the relational row shape, the public user view, registration and
//! login payloads, password hashing and the login decision.
//!
//! The relational reads and writes themselves live at the boundary; this
//! module holds what is decided once a row is in hand.

use vstd::prelude::*;
use vstd::string::StringExecFns;
use rand::{thread_rng, Rng};
use rand::distributions::Alphanumeric;
use crate::errors::MyError;

verus! {

/// The hex digest that the SHA-256 of a string's bytes encodes to. The
/// algorithm itself is rented; only its determinism and output length are
/// relied on here.
pub uninterp spec fn sha256_hex_of(s: Seq<char>) -> Seq<char>;

/// Relies on sha256::digest: the hex form of the SHA-256 digest of the
/// string's UTF-8 bytes — a function of the characters alone, 64 hex
/// characters long.
#[verifier::external_body]
fn sha256_hex(s: &str) -> (r: String)
    ensures
        r@ == sha256_hex_of(s@),
        r@.len() == 64,
{
    sha256::digest(s)
}

/// An ASCII letter or digit.
pub open spec fn is_alphanumeric_char(c: char) -> bool {
    (65 <= c as int <= 90) || (97 <= c as int <= 122) || (48 <= c as int <= 57)
}

/// Relies on rand's thread-local generator sampling the `Alphanumeric`
/// distribution: each drawn byte is an ASCII letter or digit, and exactly
/// `len` of them are taken. Nothing is promised about which ones.
#[verifier::external_body]
pub fn get_random_string(len: usize) -> (r: String)
    ensures
        r@.len() == len,
        forall|i: int| 0 <= i < r@.len() ==> is_alphanumeric_char(#[trigger] r@[i]),
{
    String::from_utf8(thread_rng().sample_iter(&Alphanumeric).take(len).collect()).unwrap()
}

/// A fresh password salt: thirty random alphanumeric characters.
pub fn create_salt() -> (r: String)
    ensures
        r@.len() == 30,
        forall|i: int| 0 <= i < r@.len() ==> is_alphanumeric_char(#[trigger] r@[i]),
{
    get_random_string(30)
}

/// What a password is stored as: the digest of its digest with the salt
/// appended.
pub open spec fn pwd_digest(pwd: Seq<char>, salt: Seq<char>) -> Seq<char> {
    sha256_hex_of(sha256_hex_of(pwd) + salt)
}

/// Hashes a password for storage or comparison.
pub fn pwd_encrypt(pwd: &str, salt: &String) -> (r: String)
    ensures
        r@ == pwd_digest(pwd@, salt@),
{
    let inner = sha256_hex(pwd);
    let combined = inner.concat(salt.as_str());
    sha256_hex(combined.as_str())
}

/// A user row as the relational store holds it. The creation date is a day
/// number; only the boundary renders it as a calendar date.
#[derive(Debug)]
pub struct User {
    pub id: i32,
    pub nick: String,
    pub pwd: Option<String>,
    pub _salt: String,
    pub avatar_url: Option<String>,
    pub create_time: i64,
}

/// The public view of a user: what other users see.
#[derive(Debug)]
pub struct UserData {
    pub id: i32,
    pub nick: String,
    pub avatar_url: String,
}

/// The avatar address derived from a nick when none is stored.
pub open spec fn avatar_chars(nick: Seq<char>) -> Seq<char> {
    "https://avatars.dicebear.com/api/pixel-art-neutral/"@ + nick + ".svg"@
}

impl User {
    /// The derived avatar address for a nick.
    pub fn get_avatar_url(nick: &String) -> (r: String)
        ensures
            r@ == avatar_chars(nick@),
    {
        let mut s = "https://avatars.dicebear.com/api/pixel-art-neutral/".to_owned();
        s.append(nick.as_str());
        s.append(".svg");
        s
    }

    /// This user's public view.
    pub fn to_user_data(&self) -> (r: UserData)
        ensures
            r.id == self.id,
            r.nick@ == self.nick@,
            r.avatar_url@ == match self.avatar_url {
                Some(u) => u@,
                None => avatar_chars(self.nick@),
            },
    {
        let avatar = match &self.avatar_url {
            Some(u) => Some(u.clone()),
            None => None,
        };
        UserData::new(&self.id, &self.nick, avatar)
    }
}

impl UserData {
    /// A public view from its parts, deriving the avatar when none is given.
    pub fn new(id: &i32, nick: &String, avatar_url: Option<String>) -> (r: Self)
        ensures
            r.id == *id,
            r.nick@ == nick@,
            r.avatar_url@ == match avatar_url {
                Some(u) => u@,
                None => avatar_chars(nick@),
            },
    {
        let avatar_url = match avatar_url {
            Some(u) => u,
            None => User::get_avatar_url(nick),
        };
        Self { id: *id, nick: nick.clone(), avatar_url }
    }

    /// A public view only when both the id and the nick are present.
    pub fn optional(id: &Option<i32>, nick: &Option<String>, avatar_url: Option<String>) -> (r:
        Option<Self>)
        ensures
            match r {
                Some(d) => id matches Some(i) && nick matches Some(n) && d.id == i && d.nick@
                    == n@ && d.avatar_url@ == match avatar_url {
                    Some(u) => u@,
                    None => avatar_chars(n@),
                },
                None => id is None || nick is None,
            },
    {
        if let Some(id) = id {
            if let Some(nick) = nick {
                return Some(Self::new(id, nick, avatar_url));
            }
        }
        None
    }
}

/// Decides a login against a fetched user row.
///
/// A token-backed login is already authenticated and always passes. A user
/// without a stored password needs none. Otherwise a missing input password
/// is refused with code 201, and a wrong one with code 202; the stored
/// value is compared against the salted digest of the input.
pub fn validate_user(user: &User, login: &LoginUserDTO, from_token: bool) -> (r: Result<
    UserData,
    MyError,
>)
    ensures
        r is Ok <==> (from_token || user.pwd is None || match (&user.pwd, &login.pwd) {
            (Some(stored), Some(p)) => stored@ == pwd_digest(p@, user._salt@),
            _ => false,
        }),
        r matches Ok(d) ==> d.id == user.id && d.nick@ == user.nick@ && d.avatar_url@ == match user
            .avatar_url {
            Some(u) => u@,
            None => avatar_chars(user.nick@),
        },
        r == Err::<UserData, MyError>(MyError::OkError(201)) <==> (!from_token
            && user.pwd is Some && login.pwd is None),
        r == Err::<UserData, MyError>(MyError::OkError(202)) <==> (!from_token && match (
            &user.pwd,
            &login.pwd,
        ) {
            (Some(stored), Some(p)) => stored@ != pwd_digest(p@, user._salt@),
            _ => false,
        }),
{
    if from_token {
        return Ok(user.to_user_data());
    }
    if let Some(stored) = &user.pwd {
        if let Some(raw) = &login.pwd {
            let enc = pwd_encrypt(raw.as_str(), &user._salt);
            if *stored == enc {
                Ok(user.to_user_data())
            } else {
                Err(MyError::OkError(202))
            }
        } else {
            Err(MyError::OkError(201))
        }
    } else {
        Ok(user.to_user_data())
    }
}

/// Registration payload: a nick, and optionally a password. Without one,
/// anyone may log in to the account.
#[derive(Debug)]
pub struct RegisterUserDTO {
    pub nick: String,
    pub pwd: Option<String>,
}

/// What registration answers: the new account's id and nick.
#[derive(Debug)]
pub struct RegisterResultDTO {
    pub id: i32,
    pub nick: String,
}

/// Login payload.
#[derive(Debug)]
pub struct LoginUserDTO {
    pub nick: String,
    pub pwd: Option<String>,
}

/// What login answers: the user's public view and a fresh session token.
#[derive(Debug)]
pub struct LoginResultDTO {
    pub user: UserData,
    pub token: String,
}

/// Nick-change payload and echo.
#[derive(Debug)]
pub struct ChangeNickDTO {
    pub nick: String,
}

/// User-search payload: a nick fragment and a page number.
#[derive(Debug)]
pub struct SearchUserDTO {
    pub nick: String,
    pub page: i64,
}

/// Friend-request payload: the other user and a message to deliver.
#[derive(Debug)]
pub struct SendFriendRequestDTO {
    pub user_id: i32,
    pub msg: String,
}

} // verus!
