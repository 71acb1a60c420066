//! Persistent local identity.
//!
//! The bridge has no session cookies: "who is using this local
//! instance" is a single named value in the record store, holding
//! either the acting user's identifier as decimal text (logged in) or
//! an empty value (logged out).  This module decodes and encodes that
//! value, and models its lifecycle: absent at first run, set on a
//! successful login, cleared on logout, read on every authenticated
//! request.  A corrupt or missing value is treated as "logged out",
//! never as a fatal error.

use vstd::prelude::*;
use crate::errors::ZkErr;
use crate::numtext::{dec_str_of, dec_val_of, i64_to_dec_string, lemma_dec_roundtrip,
    lemma_dec_val_of_complete};

verus! {

/// An acting user's identifier.
#[derive(Clone, Copy, Debug, PartialEq, Eq, Structural)]
pub enum UserId {
    Uid(i64),
}

/// The integer behind a user identifier.
pub open spec fn user_id_int(u: UserId) -> int {
    match u {
        UserId::Uid(n) => n as int,
    }
}

/// What `serde_json` reads out of a text when asked for an `i64`.
pub uninterp spec fn json_i64_of(s: Seq<char>) -> Option<i64>;

/// Relies on `serde_json::from_str::<i64>`: the result depends on the
/// text alone; the canonical decimal string of an integer parses to
/// that integer; empty input is a parse error.
#[verifier::external_body]
fn parse_json_i64(s: &str) -> (r: Option<i64>)
    ensures
        r == json_i64_of(s@),
        forall|n: i64| s@ == dec_str_of(n as int) ==> r == Some(n),
        s@.len() == 0 ==> r is None,
{
    serde_json::from_str::<i64>(s).ok()
}

/// The user identifier a stored text denotes: nothing for an empty
/// text, the value of a canonical decimal string, and otherwise
/// whatever the JSON reader makes of it (nothing, for a corrupt
/// value).
pub open spec fn user_of_stored_text(s: Seq<char>) -> Option<i64> {
    if s.len() == 0 {
        None
    } else if dec_val_of(s) is Some {
        dec_val_of(s)
    } else {
        json_i64_of(s)
    }
}

/// The acting user denoted by the persisted value as a whole: an
/// absent row reads as logged out.
pub open spec fn current_user_spec(v: Option<Seq<char>>) -> Option<UserId> {
    match v {
        Option::None => Option::None,
        Option::Some(s) => match user_of_stored_text(s) {
            Option::None => Option::None,
            Option::Some(n) => Option::Some(UserId::Uid(n)),
        },
    }
}

/// Decode one stored text into the user it names.
fn decode_stored(s: &String) -> (r: Option<UserId>)
    ensures
        r == current_user_spec(Some(s@)),
{
    let p = parse_json_i64(s.as_str());
    proof {
        if s@.len() == 0 {
        } else if dec_val_of(s@) is Some {
            lemma_dec_val_of_complete(s@, dec_val_of(s@)->Some_0);
        }
    }
    match p {
        Option::Some(n) => Option::Some(UserId::Uid(n)),
        Option::None => Option::None,
    }
}

/// Encode a user identifier as the text the store persists.
pub fn encode_user_id(uid: UserId) -> (r: String)
    ensures
        r@ == dec_str_of(user_id_int(uid)),
{
    match uid {
        UserId::Uid(n) => i64_to_dec_string(n),
    }
}

/// Resolve the acting user from the record store's read of the
/// persisted value.  A store failure propagates; an absent or
/// unparsable value reads as "no user", never as an error.
pub fn get_tauri_uid(read: Result<Option<String>, ZkErr>) -> (r: Result<
    Option<UserId>,
    ZkErr,
>)
    ensures
        read matches Err(e) ==> r matches Err(e2) && e2 == e,
        read matches Ok(v) ==> r matches Ok(u) && u == current_user_spec(
            match v {
                Option::None => Option::None,
                Option::Some(s) => Option::Some(s@),
            },
        ),
{
    match read {
        Result::Err(e) => Result::Err(e),
        Result::Ok(Option::None) => Result::Ok(Option::None),
        Result::Ok(Option::Some(s)) => Result::Ok(decode_stored(&s)),
    }
}

/// The persisted local identity, as the bridge sees it: the single
/// named value of the record store, absent before first use.
pub struct LocalIdentity {
    /// The stored text, or `None` while the store has no row for it.
    pub stored: Option<String>,
}

impl View for LocalIdentity {
    type V = Option<Seq<char>>;

    open spec fn view(&self) -> Option<Seq<char>> {
        match self.stored {
            Option::None => Option::None,
            Option::Some(s) => Option::Some(s@),
        }
    }
}

impl LocalIdentity {
    /// Read the acting user: `None` when logged out or when the value
    /// is absent or unparsable.
    pub fn get_current_user(&self) -> (r: Option<UserId>)
        ensures
            r == current_user_spec(self@),
    {
        match &self.stored {
            Option::None => Option::None,
            Option::Some(s) => decode_stored(s),
        }
    }

    /// Persist a new acting user, overwriting any prior value; reading
    /// afterwards yields exactly that user.
    pub fn set_current_user(&mut self, uid: UserId)
        ensures
            final(self)@ == Some(dec_str_of(user_id_int(uid))),
            current_user_spec(final(self)@) == Some(uid),
    {
        self.stored = Option::Some(encode_user_id(uid));
        proof {
            match uid {
                UserId::Uid(n) => lemma_current_user_after_login(n),
            }
        }
    }

    /// Persist the logged-out sentinel (an empty value); reading
    /// afterwards yields no user.
    pub fn clear_current_user(&mut self)
        ensures
            final(self)@ == Some(Seq::<char>::empty()),
            current_user_spec(final(self)@) == None::<UserId>,
    {
        self.stored = Option::Some(String::new());
    }
}

/// Login round-trip: the persisted text of a user identifier reads
/// back as exactly that user.  After a successful login whose
/// persistence succeeds, the current user is the newly logged-in one.
pub proof fn lemma_current_user_after_login(n: i64)
    ensures
        current_user_spec(Some(dec_str_of(n as int))) == Some(UserId::Uid(n)),
{
    lemma_dec_roundtrip(n);
}

/// Logout is idempotent: the cleared value reads as "no user", and
/// clearing depends on nothing but the sentinel, so clearing twice
/// leaves the same logged-out state as clearing once.
pub proof fn lemma_logged_out_after_clear()
    ensures
        current_user_spec(Some(Seq::<char>::empty())) == None::<UserId>,
{
}

/// The profile of the logged-in local user, as the UI shows it.
pub struct LoginData {
    /// The acting user.
    pub userid: UserId,
    /// The user's external identifier text.
    pub uuid: String,
    /// The user's display name.
    pub name: String,
    /// Collaborator-supplied extra profile payload, serialized.
    pub data: Option<String>,
}

/// The session context handed to the account collaborator: the
/// resolved profile's external identifier text, absent when nobody is
/// logged in.
pub fn login_token(ld: &Option<LoginData>) -> (t: Option<String>)
    ensures
        ld matches Some(l) ==> (t matches Some(u) && u@ == l.uuid@),
        ld is None ==> t is None,
{
    match ld {
        Option::Some(l) => Option::Some(l.uuid.clone()),
        Option::None => Option::None,
    }
}

/// Assemble the full login profile from the resolved identity and the
/// collaborator's answers.
///
/// `fetched` is the base profile the business logic returned for the
/// resolved user, and is present exactly when a user is resolved;
/// `extra` is the extra-profile callback's answer, present exactly
/// when a base profile was fetched.  No user resolved means no
/// profile, not an error; every collaborator failure propagates.
pub fn get_tauri_login_data(
    uid: Result<Option<UserId>, ZkErr>,
    fetched: Option<Result<LoginData, ZkErr>>,
    extra: Option<Result<Option<String>, ZkErr>>,
) -> (r: Result<Option<LoginData>, ZkErr>)
    requires
        fetched is Some <==> (uid matches Ok(u) && u is Some),
        extra is Some <==> (fetched matches Some(f) && f is Ok),
    ensures
        uid matches Err(e) ==> r matches Err(e2) && e2 == e,
        uid matches Ok(u) && u is None ==> (r matches Ok(o) && o is None),
        fetched matches Some(f) ==> (f matches Err(e) ==> (r matches Err(e2) && e2 == e)),
        extra matches Some(x) ==> (x matches Err(e) ==> (r matches Err(e2) && e2 == e)),
        fetched matches Some(f) ==> (f matches Ok(ld) ==> (extra matches Some(x) ==> (x matches
        Ok(d) ==> (r matches Ok(o) && o matches Some(out) && out == (LoginData {
            userid: ld.userid,
            uuid: ld.uuid,
            name: ld.name,
            data: d,
        }))))),
{
    match uid {
        Result::Err(e) => Result::Err(e),
        Result::Ok(Option::None) => Result::Ok(Option::None),
        Result::Ok(Option::Some(_)) => match fetched {
            Option::Some(Result::Err(e)) => Result::Err(e),
            Option::Some(Result::Ok(ld)) => match extra {
                Option::Some(Result::Err(e)) => Result::Err(e),
                Option::Some(Result::Ok(d)) => Result::Ok(Option::Some(LoginData {
                    userid: ld.userid,
                    uuid: ld.uuid,
                    name: ld.name,
                    data: d,
                })),
                Option::None => vstd::pervasive::unreached(),
            },
            Option::None => vstd::pervasive::unreached(),
        },
    }
}

/// Answer the UI's profile query: a collaborator or store failure is
/// rendered as its text, and "nobody logged in" is a successful empty
/// answer.
pub fn login_data(r: Result<Option<LoginData>, ZkErr>) -> (out: Result<Option<LoginData>, String>)
    ensures
        r matches Ok(v) ==> out matches Ok(v2) && v2 == v,
        r matches Err(e) ==> out matches Err(t) && t@ == crate::errors::describe_spec(&e),
{
    match r {
        Result::Ok(v) => Result::Ok(v),
        Result::Err(e) => Result::Err(e.describe()),
    }
}

} // verus!
