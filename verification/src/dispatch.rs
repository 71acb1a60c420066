//! The request dispatcher.
//!
//! Three families of typed messages flow from the UI into the embedded
//! server's business logic: private (authenticated) requests, public
//! requests, and user-account requests.  The business call itself is
//! an external collaborator; everything decided around it is here and
//! verified: resolving the acting user, wrapping the collaborator's
//! answer into exactly one timestamped typed reply, echoing the
//! caller's correlation identifier unchanged, and persisting identity
//! on login and logout — with a persistence failure overriding an
//! otherwise successful reply, so the UI never believes a login the
//! bridge could not remember.

use vstd::prelude::*;
use crate::errors::{describe_spec, ZkErr};
use crate::identity::{current_user_spec, user_id_int, LocalIdentity, LoginData, UserId};
use crate::numtext::dec_str_of;

verus! {

/// A reply payload of the private family.  The bridge constructs only
/// the server-error variant; every other business reply passes through
/// opaque, carried in its serialized form.
pub enum PrivateReply {
    /// A failure, described for the UI.
    PvyServerError(String),
    /// Any successful business reply, serialized by the collaborator.
    PvyPayload(String),
}

/// A private reply paired with the caller's correlation identifier.
pub struct PrivateClosureReply {
    /// Echo of the identifier the request carried.
    pub closure_id: i64,
    /// The reply payload.
    pub reply: PrivateReply,
}

/// The timestamped envelope of a private reply.
pub struct PrivateTimedData {
    /// Milliseconds since the epoch when the reply was produced; `0`
    /// when the clock could not be read.
    pub utcmillis: u128,
    /// The reply and its correlation identifier.
    pub data: PrivateClosureReply,
}

/// A reply payload of the public family.
pub enum PublicReply {
    /// A failure, described for the UI.
    PbyServerError(String),
    /// Any successful business reply, serialized by the collaborator.
    PbyPayload(String),
}

/// The timestamped envelope of a public reply.
pub struct PublicTimedData {
    /// Milliseconds since the epoch when the reply was produced; `0`
    /// when the clock could not be read.
    pub utcmillis: u128,
    /// The reply payload.
    pub data: PublicReply,
}

/// A reply of the user-account family.  The bridge inspects only the
/// logged-in and logged-out variants; everything else passes through
/// opaque.
pub enum UserResponse {
    /// A login succeeded; carries the new user's profile.
    UrpLoggedIn(LoginData),
    /// A logout succeeded.
    UrpLoggedOut,
    /// A failure, described for the UI.
    UrpServerError(String),
    /// Any other account reply, serialized by the collaborator.
    UrpPayload(String),
}

/// Resolve the acting user for a private request.  Absence of a
/// persisted identity is an authentication error, produced before any
/// business call is made; the collaborator is never consulted for an
/// anonymous private request.
pub fn tauri_zk_interface_loggedin(uid: Option<UserId>) -> (r: Result<UserId, ZkErr>)
    ensures
        uid matches Some(u) ==> (r matches Ok(u2) && u2 == u),
        uid is None ==> (r matches Err(e) && e matches ZkErr::Message(m) && m@
            == "zimsg: not logged in"@),
{
    match uid {
        Option::Some(u) => Result::Ok(u),
        Option::None => {
            let mut m = String::new();
            m.append("zimsg: not logged in");
            proof {
                assert(m@ =~= "zimsg: not logged in"@);
            }
            Result::Err(ZkErr::Message(m))
        },
    }
}

/// Wrap the collaborator's answer to a private request into exactly
/// one timestamped reply, echoing the correlation identifier
/// unchanged.  A business failure yields a server-error payload,
/// timestamped like any reply; the timestamp `0` is reserved for a
/// clock failure, which yields a server-error payload carrying the
/// business error's description if there was one, else the clock
/// error's.
pub fn zimsg(closure_id: i64, res: Result<PrivateReply, ZkErr>, now: Result<u128, String>) -> (r:
    PrivateTimedData)
    ensures
        r.data.closure_id == closure_id,
        res matches Ok(sr) ==> (now matches Ok(t) ==> r.utcmillis == t && r.data.reply == sr),
        res matches Err(e) ==> (now matches Ok(t) ==> r.utcmillis == t && (r.data.reply matches
            PrivateReply::PvyServerError(m) && m@ == describe_spec(&e))),
        res matches Err(e) ==> (now is Err ==> r.utcmillis == 0 && (r.data.reply matches
            PrivateReply::PvyServerError(m) && m@ == describe_spec(&e))),
        res is Ok ==> (now matches Err(ce) ==> r.utcmillis == 0 && (r.data.reply matches
            PrivateReply::PvyServerError(m) && m@ == ce@)),
{
    match (res, now) {
        (Result::Ok(sr), Result::Ok(t)) => PrivateTimedData {
            utcmillis: t,
            data: PrivateClosureReply { closure_id, reply: sr },
        },
        (Result::Err(e), Result::Ok(t)) => PrivateTimedData {
            utcmillis: t,
            data: PrivateClosureReply {
                closure_id,
                reply: PrivateReply::PvyServerError(e.describe()),
            },
        },
        (Result::Err(e), Result::Err(_)) => PrivateTimedData {
            utcmillis: 0,
            data: PrivateClosureReply {
                closure_id,
                reply: PrivateReply::PvyServerError(e.describe()),
            },
        },
        (Result::Ok(_), Result::Err(ce)) => PrivateTimedData {
            utcmillis: 0,
            data: PrivateClosureReply { closure_id, reply: PrivateReply::PvyServerError(ce) },
        },
    }
}

/// Wrap the collaborator's answer to a public request into exactly one
/// timestamped reply.  A business failure becomes a server-error
/// payload with the reply's timestamp; a clock failure becomes a
/// server-error payload carrying the clock error's description, with
/// timestamp `0`.
pub fn pimsg(res: Result<PublicReply, ZkErr>, now: Result<u128, String>) -> (r: PublicTimedData)
    ensures
        res matches Ok(sr) ==> (now matches Ok(t) ==> r.utcmillis == t && r.data == sr),
        res matches Err(e) ==> (now matches Ok(t) ==> r.utcmillis == t && (r.data matches
            PublicReply::PbyServerError(m) && m@ == describe_spec(&e))),
        now matches Err(ce) ==> r.utcmillis == 0 && (r.data matches PublicReply::PbyServerError(m)
            && m@ == ce@),
{
    match (res, now) {
        (Result::Ok(sr), Result::Ok(t)) => PublicTimedData { utcmillis: t, data: sr },
        (Result::Err(e), Result::Ok(t)) => PublicTimedData {
            utcmillis: t,
            data: PublicReply::PbyServerError(e.describe()),
        },
        (_, Result::Err(ce)) => PublicTimedData {
            utcmillis: 0,
            data: PublicReply::PbyServerError(ce),
        },
    }
}

/// The store write a user-account reply calls for: the new user's
/// identifier text on login, the logged-out sentinel on logout, and
/// nothing otherwise.
pub open spec fn user_store_write(u: &UserResponse) -> Option<Seq<char>> {
    match u {
        UserResponse::UrpLoggedIn(ld) => Some(dec_str_of(user_id_int(ld.userid))),
        UserResponse::UrpLoggedOut => Some(Seq::<char>::empty()),
        _ => None,
    }
}

/// Compute the value the record store must persist for a user-account
/// reply, if any.
pub fn user_response_store_value(u: &UserResponse) -> (w: Option<String>)
    ensures
        w is Some <==> user_store_write(u) is Some,
        w matches Some(s) ==> user_store_write(u) == Some(s@),
{
    match u {
        UserResponse::UrpLoggedIn(ld) => Option::Some(crate::identity::encode_user_id(ld.userid)),
        UserResponse::UrpLoggedOut => Option::Some(String::new()),
        _ => Option::None,
    }
}

/// The description of a failure to persist a login or logout.
pub open spec fn persist_error_text(u: &UserResponse, t: Seq<char>) -> Seq<char> {
    if u is UrpLoggedIn {
        "error saving last login."@ + " "@ + t
    } else {
        "error saving logged out status."@ + " "@ + t
    }
}

/// Post-process a user-account exchange: a collaborator failure
/// becomes a server-error reply (still a success of the exchange); a
/// failure to persist a login or logout overrides the reply with an
/// error, even though the account operation itself succeeded — the
/// UI must not show a user as logged in if the bridge cannot remember
/// it.  `persist` is the store's answer to the write the reply called
/// for, present exactly when one was called for.
pub fn uimsg_err(sr: Result<UserResponse, ZkErr>, persist: Option<Result<(), String>>) -> (r:
    Result<UserResponse, ZkErr>)
    requires
        persist is Some <==> (sr matches Ok(u) && user_store_write(&u) is Some),
    ensures
        sr matches Err(e) ==> (r matches Ok(u2) && u2 matches UserResponse::UrpServerError(m) && m@
            == describe_spec(&e)),
        sr matches Ok(u) ==> (persist is None ==> (r matches Ok(u2) && u2 == u)),
        sr matches Ok(u) ==> (persist matches Some(p) ==> (p matches Ok(v) ==> (r matches Ok(u2)
            && u2 == u))),
        sr matches Ok(u) ==> (persist matches Some(p) ==> (p matches Err(t) ==> (r matches Err(e2)
            && e2 matches ZkErr::Message(m) && m@ == persist_error_text(&u, t@)))),
{
    match sr {
        Result::Err(e) => Result::Ok(UserResponse::UrpServerError(e.describe())),
        Result::Ok(u) => match persist {
            Option::None => Result::Ok(u),
            Option::Some(Result::Ok(_)) => Result::Ok(u),
            Option::Some(Result::Err(t)) => {
                let mut m = String::new();
                if matches!(u, UserResponse::UrpLoggedIn(_)) {
                    m.append("error saving last login.");
                } else {
                    m.append("error saving logged out status.");
                }
                m.append(" ");
                m.append(t.as_str());
                proof {
                    assert(m@ =~= persist_error_text(&u, t@));
                }
                Result::Err(ZkErr::Message(m))
            },
        },
    }
}

/// Answer the UI's user-account command: any remaining error is
/// rendered as a typed server-error reply, so the host never observes
/// a transport-level fault.
pub fn uimsg(r: Result<UserResponse, ZkErr>) -> (out: UserResponse)
    ensures
        r matches Ok(u) ==> out == u,
        r matches Err(e) ==> (out matches UserResponse::UrpServerError(m) && m@ == describe_spec(
            &e,
        )),
{
    match r {
        Result::Ok(u) => u,
        Result::Err(e) => UserResponse::UrpServerError(e.describe()),
    }
}

/// Apply a user-account reply to the identity store model: a login
/// persists the new user, a logout clears it, anything else leaves it
/// untouched.  Reading the store afterwards sees exactly the reply's
/// effect.
pub fn apply_user_response(identity: &mut LocalIdentity, u: &UserResponse)
    ensures
        u matches UserResponse::UrpLoggedIn(ld) ==> current_user_spec(final(identity)@) == Some(
            ld.userid,
        ),
        u is UrpLoggedOut ==> current_user_spec(final(identity)@) is None,
        user_store_write(u) is None ==> final(identity)@ == old(identity)@,
        user_store_write(u) matches Some(s) ==> final(identity)@ == Some(s),
{
    match u {
        UserResponse::UrpLoggedIn(ld) => identity.set_current_user(ld.userid),
        UserResponse::UrpLoggedOut => identity.clear_current_user(),
        _ => {},
    }
}

} // verus!
