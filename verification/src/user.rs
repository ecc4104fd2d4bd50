//! The authenticated user: the records the server returns on authentication,
//! and the reading of the session token's expiry.
//!
//! A session token is a JWT: three dot-separated base64 segments. The middle
//! segment, padded back to a multiple of four characters and decoded, is a
//! JSON object whose `exp` member is the expiry as seconds since the epoch.

use base64::Engine;
use vstd::prelude::*;

use crate::errors::Error;
use crate::strutil::push_char;
use crate::wire::{json_as_i64, json_get, json_parse, spec_json_as_i64, spec_json_get, spec_json_parse};

verus! {

/// The record the server returns for an administrator.
#[derive(Debug, Clone)]
pub struct AdminRecord {
    pub id: String,
    pub created: String,
    pub updated: String,
    pub email: String,
    pub avatar: i64,
}

/// The body of a successful administrator authentication.
#[derive(Debug, Clone)]
pub struct AdminResponse {
    pub token: String,
    pub admin: AdminRecord,
}

/// The record the server returns for an ordinary user.
#[derive(Debug, Clone)]
pub struct UserRecord {
    pub id: String,
    pub collection_id: String,
    pub collection_name: String,
    pub created: String,
    pub updated: String,
    pub username: String,
    pub verified: bool,
    pub email_visibility: bool,
    pub email: String,
    pub name: String,
    pub avatar: String,
}

/// The body of a successful user authentication.
#[derive(Debug, Clone)]
pub struct UserResponse {
    pub token: String,
    pub record: UserRecord,
}

/// Whether credentials belong to an ordinary user or an administrator.
#[derive(Debug, Clone, Copy, PartialEq, Eq, Structural)]
pub enum UserTypes {
    User,
    Admin,
}

/// The authenticated identity a client acts as: its session token and the
/// record the server returned for it.
#[derive(Debug, Clone)]
pub struct User {
    pub token: String,
    pub usertype: UserTypes,
    pub admin_record: Option<AdminRecord>,
    pub user_record: Option<UserRecord>,
}

/// `s` split on `c`: the separated pieces in order, one more piece than there
/// are separators. The empty text splits into one empty piece.
pub open spec fn spec_split(s: Seq<char>, c: char) -> Seq<Seq<char>>
    decreases s.len(),
{
    if s.len() == 0 {
        seq![Seq::<char>::empty()]
    } else {
        let rest = spec_split(s.drop_last(), c);
        if s.last() == c {
            rest.push(Seq::<char>::empty())
        } else {
            rest.update(rest.len() - 1, rest.last().push(s.last()))
        }
    }
}

/// A split yields at least one piece.
pub proof fn lemma_split_len(s: Seq<char>, c: char)
    ensures
        spec_split(s, c).len() >= 1,
    decreases s.len(),
{
    if s.len() > 0 {
        lemma_split_len(s.drop_last(), c);
    }
}

/// A base64 segment padded back to a multiple of four characters.
pub open spec fn spec_pad_base64(s: Seq<char>) -> Seq<char> {
    if s.len() % 4 == 2 {
        s + seq!['=', '=']
    } else if s.len() % 4 == 3 {
        s.push('=')
    } else {
        s
    }
}

/// What base64's standard-alphabet decode yields for a text, if it decodes
/// at all.
pub uninterp spec fn b64_decoded(s: Seq<char>) -> Option<Seq<u8>>;

/// Relies on base64's `general_purpose::STANDARD` engine: decodes a padded
/// standard-alphabet base64 text, `None` when the text is not one.
#[verifier::external_body]
fn base64_decode(s: &str) -> (r: Option<Vec<u8>>)
    ensures
        match r {
            Some(v) => b64_decoded(s@) == Some(v@),
            None => b64_decoded(s@) is None,
        },
{
    base64::engine::general_purpose::STANDARD.decode(s).ok()
}

/// What UTF-8 decoding yields for a byte sequence, if it is valid UTF-8.
pub uninterp spec fn utf8_decoded(b: Seq<u8>) -> Option<Seq<char>>;

/// Relies on std's `String::from_utf8`: the decoded text, `None` when the
/// bytes are not valid UTF-8.
#[verifier::external_body]
fn utf8_to_string(b: Vec<u8>) -> (r: Option<String>)
    ensures
        match r {
            Some(s) => utf8_decoded(b@) == Some(s@),
            None => utf8_decoded(b@) is None,
        },
{
    String::from_utf8(b).ok()
}

/// Whether chrono can represent a millisecond timestamp as a date-time.
pub uninterp spec fn chrono_millis_in_range(ms: i64) -> bool;

/// Relies on chrono's `DateTime::from_timestamp_millis`: `Some` exactly on
/// the timestamps chrono can represent.
#[verifier::external_body]
fn timestamp_millis_representable(ms: i64) -> (r: bool)
    ensures
        r == chrono_millis_in_range(ms),
{
    chrono::DateTime::<chrono::Utc>::from_timestamp_millis(ms).is_some()
}

/// Relies on chrono's `Utc::now`: the current time as milliseconds since the
/// epoch. The result depends on the clock, so nothing is promised of it;
/// `Utc::now` itself requires a system clock at or after the epoch.
#[verifier::external_body]
fn now_timestamp_millis() -> i64 {
    chrono::Utc::now().timestamp_millis()
}

/// The padded base64 payload segment of a three-segment token.
pub open spec fn spec_jwt_payload(token: Seq<char>) -> Seq<char> {
    spec_pad_base64(spec_split(token, '.')[1])
}

/// The `exp` member of the token's decoded payload: present when the payload
/// decodes as base64, reads as UTF-8, parses as JSON, and holds an integral
/// `exp`.
pub open spec fn spec_jwt_exp(token: Seq<char>) -> Option<i64> {
    match b64_decoded(spec_jwt_payload(token)) {
        Some(bytes) => match utf8_decoded(bytes) {
            Some(text) => match spec_json_parse(text) {
                Some(doc) => match spec_json_get(doc, "exp"@) {
                    Some(e) => spec_json_as_i64(e),
                    None => None,
                },
                None => None,
            },
            None => None,
        },
        None => None,
    }
}

/// Whether a token's expiry can be read at all: the token has three
/// segments, its payload yields an integral `exp`, and chrono can represent
/// that expiry in milliseconds.
pub open spec fn spec_token_readable(token: Seq<char>) -> bool {
    &&& token.len() > 0
    &&& spec_split(token, '.').len() == 3
    &&& spec_jwt_exp(token) is Some
    &&& -9_223_372_036_854_775 <= spec_jwt_exp(token)->Some_0 <= 9_223_372_036_854_775
    &&& chrono_millis_in_range((spec_jwt_exp(token)->Some_0 * 1000) as i64)
}

/// Split `token` on `.`, as [`spec_split`] describes.
fn split_token(token: &str) -> (parts: Vec<String>)
    ensures
        parts.deep_view() == spec_split(token@, '.'),
{
    let mut parts: Vec<String> = Vec::new();
    parts.push(String::new());
    let n = token.unicode_len();
    let mut i: usize = 0;
    proof {
        assert(parts.deep_view() =~= spec_split(token@.subrange(0, 0), '.'));
    }
    while i < n
        invariant
            n == token@.len(),
            i <= n,
            parts@.len() >= 1,
            parts.deep_view() == spec_split(token@.subrange(0, i as int), '.'),
        decreases n - i,
    {
        let ghost prev = parts.deep_view();
        let c = token.get_char(i);
        if c == '.' {
            parts.push(String::new());
            proof {
                assert(parts.deep_view() =~= prev.push(Seq::<char>::empty()));
            }
        } else {
            let mut last = parts.pop().unwrap();
            push_char(&mut last, c);
            parts.push(last);
            proof {
                assert(parts.deep_view() =~= prev.update(
                    prev.len() - 1,
                    prev.last().push(token@[i as int]),
                ));
            }
        }
        proof {
            let pre = token@.subrange(0, i as int);
            let cur = token@.subrange(0, i + 1 as int);
            assert(cur.drop_last() =~= pre);
            assert(cur.last() == token@[i as int]);
            lemma_split_len(pre, '.');
        }
        i = i + 1;
    }
    proof {
        assert(token@.subrange(0, n as int) =~= token@);
    }
    parts
}

impl User {
    /// An identity built from an administrator authentication response.
    pub fn new_admin(token: String, user_type: UserTypes, admin_record: AdminRecord) -> (r: Self)
        ensures
            r.token == token,
            r.usertype == user_type,
            r.admin_record == Some(admin_record),
            r.user_record is None,
    {
        User { token, usertype: user_type, admin_record: Some(admin_record), user_record: None }
    }

    /// An identity built from a user authentication response.
    pub fn new_user(token: String, user_type: UserTypes, user_record: UserRecord) -> (r: Self)
        ensures
            r.token == token,
            r.usertype == user_type,
            r.admin_record is None,
            r.user_record == Some(user_record),
    {
        User { token, usertype: user_type, admin_record: None, user_record: Some(user_record) }
    }

    /// The session token's expiry, as seconds since the epoch, read from the
    /// token's payload segment: exactly the tokens [`spec_token_readable`]
    /// accepts yield `Ok`, and the value is the payload's `exp` member.
    pub fn get_expired_datetime(&self) -> (r: Result<i64, Error>)
        ensures
            self.token@.len() == 0 <==> (r matches Err(e) && e is ShouldNot),
            (self.token@.len() > 0 && spec_split(self.token@, '.').len() != 3) <==> (r matches Err(
                e,
            ) && e matches Error::PocketBaseImplementException(m) && m@
                == "Token no longer have 3 part '.' Seem PocketBase Change logic for Token"@),
            r is Err ==> (r->Err_0 is ShouldNot || r->Err_0 is PocketBaseImplementException),
            r is Ok <==> spec_token_readable(self.token@),
            r matches Ok(exp) ==> exp == spec_jwt_exp(self.token@)->Some_0,
    {
        proof {
            reveal_strlit("Failed parse");
            reveal_strlit("Token no longer have 3 part '.' Seem PocketBase Change logic for Token");
            assert("Failed parse"@.len() != "Token no longer have 3 part '.' Seem PocketBase Change logic for Token"@.len());
        }
        if self.token.as_str().is_empty() {
            return Err(
                Error::ShouldNot(
                    String::from_str(
                        "You was moved Token value. This my bad, im too lazy protect it by get/set",
                    ),
                ),
            );
        }
        let parts = split_token(self.token.as_str());
        if parts.len() != 3 {
            return Err(
                Error::PocketBaseImplementException(
                    String::from_str(
                        "Token no longer have 3 part '.' Seem PocketBase Change logic for Token",
                    ),
                ),
            );
        }
        let mut payload = parts[1].clone();
        let rem = payload.as_str().unicode_len() % 4;
        if rem == 2 {
            push_char(&mut payload, '=');
            push_char(&mut payload, '=');
        } else if rem == 3 {
            push_char(&mut payload, '=');
        }
        proof {
            assert(parts.deep_view()[1] == parts@[1]@);
            assert(payload@ =~= spec_jwt_payload(self.token@));
        }
        let decoded = match base64_decode(payload.as_str()) {
            Some(b) => b,
            None => {
                return Err(Error::PocketBaseImplementException(String::from_str("Failed parse")));
            },
        };
        let text = match utf8_to_string(decoded) {
            Some(t) => t,
            None => {
                return Err(Error::PocketBaseImplementException(String::from_str("Failed parse")));
            },
        };
        let doc = match json_parse(text.as_str()) {
            Some(v) => v,
            None => {
                return Err(Error::PocketBaseImplementException(String::from_str("Failed parse")));
            },
        };
        let exp = match json_get(&doc, "exp") {
            Some(e) => match json_as_i64(e) {
                Some(n) => n,
                None => {
                    return Err(
                        Error::PocketBaseImplementException(String::from_str("Failed parse")),
                    );
                },
            },
            None => {
                return Err(Error::PocketBaseImplementException(String::from_str("Failed parse")));
            },
        };
        if exp > 9_223_372_036_854_775i64 || exp < -9_223_372_036_854_775i64 {
            return Err(Error::PocketBaseImplementException(String::from_str("Failed parse")));
        }
        let millis: i64 = exp * 1000;
        if timestamp_millis_representable(millis) {
            Ok(exp)
        } else {
            Err(Error::PocketBaseImplementException(String::from_str("Failed parse")))
        }
    }

    /// Whether the token's expiry lies strictly after the given time, in
    /// milliseconds since the epoch. False whenever the expiry cannot be
    /// read.
    pub fn is_valid_at(&self, now_millis: i64) -> (r: bool)
        ensures
            r == (spec_token_readable(self.token@) && spec_jwt_exp(self.token@)->Some_0 * 1000
                > now_millis),
    {
        match self.get_expired_datetime() {
            Ok(exp) => exp * 1000 > now_millis,
            Err(_) => false,
        }
    }

    /// Whether the token is still valid now. The clock comes from outside,
    /// so no more is promised than that a valid answer needs a readable
    /// token.
    pub fn is_valid(&self) -> (r: bool)
        ensures
            r ==> spec_token_readable(self.token@),
    {
        let now = now_timestamp_millis();
        self.is_valid_at(now)
    }
}

} // verus!
