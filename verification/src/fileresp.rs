//! The content-addressed file responder.
//!
//! A raw request of shape `/file/<external-id>` arrives over the
//! host's custom URI scheme, together with a single-use handle that
//! must deliver exactly one byte-stream-or-error answer.  The
//! resolution chain — open the store, resolve the acting user, parse
//! the identifier, resolve the note, find its content hash, check the
//! note's summary, read the blob — runs as an explicit state machine:
//! each collaborator answer is one event, each transition either asks
//! for the next collaborator call or produces the one response.
//!
//! The single-use discipline is carried by construction: a run holds
//! exactly one `FileResponse` the moment `fileresp_step` returns
//! `Respond`, and no state survives that transition, so the handle is
//! consumed exactly once on every path; the strictly decreasing
//! `rank` guarantees every run reaches `Respond`.

use vstd::prelude::*;
use vstd::string::StringSliceAdditionalSpecFns;
use vstd::utf8::encode_utf8;
use crate::exid::{canon_uuid, is_uuid_text, parse_external_id, ExternalId};
use crate::identity::{current_user_spec, LocalIdentity, UserId};
use crate::numtext::{dec_str_of, i64_to_dec_string};

verus! {

/// The one answer a file request gets: a status, a raw body, and at
/// most one content-type header.  Status `200` carries the blob's
/// bytes with no content type, left for the caller to infer; `400`,
/// `404` and `500` carry a plain-text description, and only the
/// malformed-identifier rejection declares its type.
pub struct FileResponse {
    /// HTTP-shaped status code.
    pub status: u16,
    /// Raw body bytes.
    pub body: Vec<u8>,
    /// The content-type header value, where one is declared.
    pub content_type: Option<String>,
}

/// A response whose body is the UTF-8 encoding of a text, with no
/// content type declared.
pub open spec fn is_text_response(r: &FileResponse, status: int, msg: Seq<char>) -> bool {
    r.status == status && r.body@ == encode_utf8(msg) && r.content_type is None
}

/// A response whose body is the UTF-8 encoding of a text, declared
/// `text/plain`.
pub open spec fn is_plain_typed_response(r: &FileResponse, status: int, msg: Seq<char>) -> bool {
    &&& r.status == status
    &&& r.body@ == encode_utf8(msg)
    &&& r.content_type matches Some(t) && t@ == "text/plain"@
}

/// The body of a missing-identifier rejection.
pub open spec fn id_required_text() -> Seq<char> {
    "file id required: /file/<id>"@
}

/// The body of a malformed-identifier rejection, quoting the
/// offending segment.
pub open spec fn invalid_id_text(seg: Seq<char>) -> Seq<char> {
    "invalid note id "@ + seg + ": "@
}

/// The body of a note-without-file rejection, naming the internal
/// note identifier.
pub open spec fn not_found_text(nid: int) -> Seq<char> {
    "file "@ + dec_str_of(nid) + " not found!"@
}

/// The body of a missing-note rejection, naming the external
/// identifier that resolved to no note.
pub open spec fn no_note_text(id: Seq<char>) -> Seq<char> {
    "note "@ + id + " not found!"@
}

/// Where a run of the responder stands, between two collaborator
/// answers.
pub enum FileRespState {
    /// Waiting for the record store to open.
    Opening {
        /// The request path, still unparsed.
        path: String,
    },
    /// Waiting for the persisted identity value.
    ReadingUser {
        /// The request path, still unparsed.
        path: String,
    },
    /// Waiting for the note identifier the external id names.
    Resolving {
        /// The acting user, or anonymous.
        uid: Option<UserId>,
        /// The parsed external identifier.
        id: ExternalId,
    },
    /// Waiting for the note's content hash.
    ReadingHash {
        /// The acting user, or anonymous.
        uid: Option<UserId>,
        /// The internal note identifier.
        nid: i64,
    },
    /// Waiting for the note's list-view summary.
    ReadingListNote {
        /// The acting user, or anonymous.
        uid: Option<UserId>,
        /// The internal note identifier.
        nid: i64,
        /// The note's content hash.
        hash: String,
    },
    /// Waiting for the blob's bytes.
    ReadingBlob {
        /// The note's content hash, naming the blob on disk.
        hash: String,
    },
}

/// The collaborator call a transition asks for next.
pub enum FileRespAction {
    /// Open the record store at the configured database path.
    OpenStore,
    /// Read the persisted identity value.
    ReadCurrentUser,
    /// Resolve this external identifier to an internal note id.
    ResolveNoteId(ExternalId),
    /// Read the content hash of this note, as this user.
    ReadFileHash(Option<UserId>, i64),
    /// Read the list-view summary of this note, as this user.
    ReadListNote(Option<UserId>, i64),
    /// Read the blob stored under this content hash.
    ReadBlob(String),
}

/// A collaborator's answer; each variant answers one action, with a
/// failure carried as its rendered description.
pub enum FileRespEvent {
    /// Answer to `OpenStore`.
    StoreOpened(Result<(), String>),
    /// Answer to `ReadCurrentUser`: the stored value, if any.
    UserRead(Result<Option<String>, String>),
    /// Answer to `ResolveNoteId`: the internal note identifier, absent
    /// when no note carries the external identifier.
    NoteResolved(Result<Option<i64>, String>),
    /// Answer to `ReadFileHash`: the content hash, absent for a note
    /// with no associated file.
    HashRead(Result<Option<String>, String>),
    /// Answer to `ReadListNote`.
    ListNoteRead(Result<(), String>),
    /// Answer to `ReadBlob`: the blob's bytes.
    BlobRead(Result<Vec<u8>, String>),
}

/// What one transition yields: the next waiting state with the call
/// it asks for, or the single response of the run.
pub enum FileRespOutcome {
    /// Keep going: perform the action and hand its answer back.
    Next(FileRespState, FileRespAction),
    /// Done: consume the handle with exactly this response.
    Respond(FileResponse),
}

/// Whether an event answers the call the state is waiting for.
pub open spec fn event_matches(s: &FileRespState, e: &FileRespEvent) -> bool {
    match s {
        FileRespState::Opening { .. } => e is StoreOpened,
        FileRespState::ReadingUser { .. } => e is UserRead,
        FileRespState::Resolving { .. } => e is NoteResolved,
        FileRespState::ReadingHash { .. } => e is HashRead,
        FileRespState::ReadingListNote { .. } => e is ListNoteRead,
        FileRespState::ReadingBlob { .. } => e is BlobRead,
    }
}

/// How many collaborator answers a run can still consume from this
/// state; every transition strictly decreases it, so every run
/// responds.
pub open spec fn rank(s: &FileRespState) -> int {
    match s {
        FileRespState::Opening { .. } => 5,
        FileRespState::ReadingUser { .. } => 4,
        FileRespState::Resolving { .. } => 3,
        FileRespState::ReadingHash { .. } => 2,
        FileRespState::ReadingListNote { .. } => 1,
        FileRespState::ReadingBlob { .. } => 0,
    }
}

/// One response per request: the rank is bounded, and every `Next`
/// transition strictly decreases it, so a run that keeps answering
/// the asked-for actions reaches its single `Respond` within six
/// transitions; and no state survives `Respond`, so the single-use
/// handle is consumed exactly once.
pub proof fn lemma_rank_bounded(s: &FileRespState)
    ensures
        0 <= rank(s) <= 5,
{
}

/// The number of characters before the first separator.
pub open spec fn slash_free_prefix_len(s: Seq<char>) -> int
    decreases s.len(),
{
    if s.len() == 0 {
        0
    } else if s.first() == '/' {
        0
    } else {
        1 + slash_free_prefix_len(s.drop_first())
    }
}

/// Whether the path holds a separator at all: without one there is no
/// second segment to read an identifier from.
pub open spec fn has_slash(s: Seq<char>) -> bool {
    slash_free_prefix_len(s) < s.len()
}

/// The second `/`-separated segment of the path: the characters after
/// the first separator, up to the next separator or the end.
pub open spec fn second_segment(s: Seq<char>) -> Seq<char> {
    let rest = s.skip(slash_free_prefix_len(s) + 1);
    rest.take(slash_free_prefix_len(rest))
}

/// A position with no separator before it and a separator (or the
/// end) at it is exactly the slash-free prefix length.
proof fn lemma_prefix_len_at(s: Seq<char>, i: int)
    requires
        0 <= i <= s.len(),
        forall|j: int| 0 <= j < i ==> s[j] != '/',
        i < s.len() ==> s[i] == '/',
    ensures
        slash_free_prefix_len(s) == i,
    decreases s.len(),
{
    if s.len() == 0 {
    } else if i == 0 {
    } else {
        let b = s.drop_first();
        assert(s.first() == s[0]);
        assert(forall|j: int| 0 <= j < i - 1 ==> b[j] == s[j + 1]);
        lemma_prefix_len_at(b, i - 1);
    }
}

/// Extract the second path segment, if the path has one.
fn second_path_segment(path: &str) -> (r: Option<String>)
    ensures
        r matches Some(seg) ==> has_slash(path@) && seg@ == second_segment(path@),
        r is None ==> !has_slash(path@),
{
    let len = path.unicode_len();
    let mut f: usize = 0;
    while f < len && path.get_char(f) != '/'
        invariant
            len == path@.len(),
            0 <= f <= len,
            forall|j: int| 0 <= j < f ==> path@[j] != '/',
        decreases len - f,
    {
        f = f + 1;
    }
    proof {
        lemma_prefix_len_at(path@, f as int);
    }
    if f == len {
        return Option::None;
    }
    let start = f + 1;
    let mut g: usize = start;
    while g < len && path.get_char(g) != '/'
        invariant
            len == path@.len(),
            start <= g <= len,
            forall|j: int| start <= j < g ==> path@[j] != '/',
        decreases len - g,
    {
        g = g + 1;
    }
    let seg = path.substring_char(start, g);
    proof {
        let rest = path@.skip(start as int);
        assert(forall|j: int| 0 <= j < g - start ==> rest[j] == path@[j + start]);
        assert(g < len ==> rest[(g - start) as int] == path@[g as int]);
        lemma_prefix_len_at(rest, (g - start) as int);
        assert(rest.take((g - start) as int) =~= path@.subrange(start as int, g as int));
    }
    Option::Some(String::from_str(seg))
}

/// A response carrying a plain text body, with no declared type.
fn text_response(status: u16, msg: &str) -> (r: FileResponse)
    ensures
        is_text_response(&r, status as int, msg@),
{
    FileResponse { status, body: msg.as_bytes_vec(), content_type: Option::None }
}

/// The `500` response for a failure inside the resolution chain,
/// carrying the failure's rendered description.
pub fn fileresp_error_response(t: &String) -> (r: FileResponse)
    ensures
        is_text_response(&r, 500, t@),
{
    text_response(500, t.as_str())
}

/// The `400` response rejecting a malformed identifier, quoting it;
/// the one response that declares its `text/plain` type.
fn invalid_id_response(seg: &str) -> (r: FileResponse)
    ensures
        is_plain_typed_response(&r, 400, invalid_id_text(seg@)),
{
    let mut m = String::new();
    m.append("invalid note id ");
    m.append(seg);
    m.append(": ");
    proof {
        assert(m@ =~= invalid_id_text(seg@));
    }
    FileResponse {
        status: 400,
        body: m.as_str().as_bytes_vec(),
        content_type: Option::Some(String::from_str("text/plain")),
    }
}

/// The `404` response for an external identifier that names no note.
fn no_note_response(id: &ExternalId) -> (r: FileResponse)
    ensures
        is_text_response(&r, 404, no_note_text(id@)),
{
    let mut m = String::new();
    m.append("note ");
    let text = id.to_text();
    m.append(text.as_str());
    m.append(" not found!");
    proof {
        assert(m@ =~= no_note_text(id@));
    }
    text_response(404, m.as_str())
}

/// The `404` response for a note that exists but has no file.
fn not_found_response(nid: i64) -> (r: FileResponse)
    ensures
        is_text_response(&r, 404, not_found_text(nid as int)),
{
    let mut m = String::new();
    m.append("file ");
    let digits = i64_to_dec_string(nid);
    m.append(digits.as_str());
    m.append(" not found!");
    proof {
        assert(m@ =~= not_found_text(nid as int));
    }
    text_response(404, m.as_str())
}

/// Begin handling one file request: the run waits for the record
/// store to open.
pub fn fileresp(path: String) -> (r: (FileRespState, FileRespAction))
    ensures
        r.0 matches FileRespState::Opening { path: p } && p@ == path@,
        r.1 is OpenStore,
        rank(&r.0) == 5,
{
    (FileRespState::Opening { path }, FileRespAction::OpenStore)
}

/// One transition of the responder: consume the collaborator's answer
/// and either ask for the next call or produce the run's single
/// response.
///
/// Every failure path responds rather than escaping: a store or
/// collaborator failure responds `500` with its description; a path
/// without an identifier segment responds `400`; a malformed
/// identifier responds `400` quoting it; an identifier naming no note
/// responds `404` quoting it; a note with no file responds `404`
/// naming it; a store failure responds `500`; and the blob's bytes
/// respond `200`.
pub fn fileresp_step(state: FileRespState, event: FileRespEvent) -> (r: FileRespOutcome)
    requires
        event_matches(&state, &event),
    ensures
        r matches FileRespOutcome::Next(s2, _) ==> rank(&s2) < rank(&state),
        state matches FileRespState::Opening { path } ==> (event matches FileRespEvent::StoreOpened(
            res,
        ) ==> match res {
            Ok(u) => r matches FileRespOutcome::Next(s2, a) && (s2 matches
                FileRespState::ReadingUser { path: p2 } && p2@ == path@) && a is ReadCurrentUser,
            Err(t) => r matches FileRespOutcome::Respond(resp) && is_text_response(&resp, 500, t@),
        }),
        state matches FileRespState::ReadingUser { path } ==> (event matches
            FileRespEvent::UserRead(res) ==> match res {
            Ok(stored) => {
                let u = current_user_spec(
                    match stored {
                        Option::None => Option::None,
                        Option::Some(s) => Option::Some(s@),
                    },
                );
                if !has_slash(path@) {
                    r matches FileRespOutcome::Respond(resp) && is_text_response(
                        &resp,
                        400,
                        id_required_text(),
                    )
                } else if !is_uuid_text(second_segment(path@)) {
                    r matches FileRespOutcome::Respond(resp) && is_plain_typed_response(
                        &resp,
                        400,
                        invalid_id_text(second_segment(path@)),
                    )
                } else {
                    r matches FileRespOutcome::Next(s2, a) && a matches
                        FileRespAction::ResolveNoteId(id2) && s2 matches FileRespState::Resolving {
                        uid,
                        id,
                    } && uid == u && id.wf() && id@ == canon_uuid(second_segment(path@)) && id2@
                        == id@
                }
            },
            Err(t) => r matches FileRespOutcome::Respond(resp) && is_text_response(&resp, 500, t@),
        }),
        state matches FileRespState::Resolving { uid, id } ==> (event matches
            FileRespEvent::NoteResolved(res) ==> match res {
            Ok(found) => match found {
                Option::Some(nid) => r matches FileRespOutcome::Next(s2, a) && (s2 matches
                    FileRespState::ReadingHash { uid: u2, nid: n2 } && u2 == uid && n2 == nid) && (
                a matches FileRespAction::ReadFileHash(u3, n3) && u3 == uid && n3 == nid),
                Option::None => r matches FileRespOutcome::Respond(resp) && is_text_response(
                    &resp,
                    404,
                    no_note_text(id@),
                ),
            },
            Err(t) => r matches FileRespOutcome::Respond(resp) && is_text_response(&resp, 500, t@),
        }),
        state matches FileRespState::ReadingHash { uid, nid } ==> (event matches
            FileRespEvent::HashRead(res) ==> match res {
            Ok(hash) => match hash {
                Option::Some(h) => r matches FileRespOutcome::Next(s2, a) && (s2 matches
                    FileRespState::ReadingListNote { uid: u2, nid: n2, hash: h2 } && u2 == uid
                    && n2 == nid && h2@ == h@) && (a matches FileRespAction::ReadListNote(u3, n3)
                    && u3 == uid && n3 == nid),
                Option::None => r matches FileRespOutcome::Respond(resp) && is_text_response(
                    &resp,
                    404,
                    not_found_text(nid as int),
                ),
            },
            Err(t) => r matches FileRespOutcome::Respond(resp) && is_text_response(&resp, 500, t@),
        }),
        state matches FileRespState::ReadingListNote { uid, nid, hash } ==> (event matches
            FileRespEvent::ListNoteRead(res) ==> match res {
            Ok(u) => r matches FileRespOutcome::Next(s2, a) && (s2 matches
                FileRespState::ReadingBlob { hash: h2 } && h2@ == hash@) && (a matches
                FileRespAction::ReadBlob(h3) && h3@ == hash@),
            Err(t) => r matches FileRespOutcome::Respond(resp) && is_text_response(&resp, 500, t@),
        }),
        state matches FileRespState::ReadingBlob { hash } ==> (event matches
            FileRespEvent::BlobRead(res) ==> match res {
            Ok(v) => r matches FileRespOutcome::Respond(resp) && resp.status == 200 && resp.body@
                == v@ && resp.content_type is None,
            Err(t) => r matches FileRespOutcome::Respond(resp) && is_text_response(&resp, 500, t@),
        }),
{
    match (state, event) {
        (FileRespState::Opening { path }, FileRespEvent::StoreOpened(res)) => match res {
            Result::Ok(_) => FileRespOutcome::Next(
                FileRespState::ReadingUser { path },
                FileRespAction::ReadCurrentUser,
            ),
            Result::Err(t) => FileRespOutcome::Respond(fileresp_error_response(&t)),
        },
        (FileRespState::ReadingUser { path }, FileRespEvent::UserRead(res)) => match res {
            Result::Ok(stored) => {
                let identity = LocalIdentity { stored };
                let uid = identity.get_current_user();
                match second_path_segment(path.as_str()) {
                    Option::None => FileRespOutcome::Respond(
                        text_response(400, "file id required: /file/<id>"),
                    ),
                    Option::Some(seg) => match parse_external_id(seg.as_str()) {
                        Option::None => FileRespOutcome::Respond(
                            invalid_id_response(seg.as_str()),
                        ),
                        Option::Some(id) => {
                            let id2 = id.duplicate();
                            FileRespOutcome::Next(
                                FileRespState::Resolving { uid, id },
                                FileRespAction::ResolveNoteId(id2),
                            )
                        },
                    },
                }
            },
            Result::Err(t) => FileRespOutcome::Respond(fileresp_error_response(&t)),
        },
        (FileRespState::Resolving { uid, id }, FileRespEvent::NoteResolved(res)) => match res {
            Result::Ok(Option::Some(nid)) => FileRespOutcome::Next(
                FileRespState::ReadingHash { uid, nid },
                FileRespAction::ReadFileHash(uid, nid),
            ),
            Result::Ok(Option::None) => FileRespOutcome::Respond(no_note_response(&id)),
            Result::Err(t) => FileRespOutcome::Respond(fileresp_error_response(&t)),
        },
        (FileRespState::ReadingHash { uid, nid }, FileRespEvent::HashRead(res)) => match res {
            Result::Ok(Option::Some(hash)) => FileRespOutcome::Next(
                FileRespState::ReadingListNote { uid, nid, hash },
                FileRespAction::ReadListNote(uid, nid),
            ),
            Result::Ok(Option::None) => FileRespOutcome::Respond(not_found_response(nid)),
            Result::Err(t) => FileRespOutcome::Respond(fileresp_error_response(&t)),
        },
        (
            FileRespState::ReadingListNote { uid: _, nid: _, hash },
            FileRespEvent::ListNoteRead(res),
        ) => match res {
            Result::Ok(_) => {
                let h2 = hash.clone();
                FileRespOutcome::Next(
                    FileRespState::ReadingBlob { hash },
                    FileRespAction::ReadBlob(h2),
                )
            },
            Result::Err(t) => FileRespOutcome::Respond(fileresp_error_response(&t)),
        },
        (FileRespState::ReadingBlob { hash: _ }, FileRespEvent::BlobRead(res)) => match res {
            Result::Ok(v) => FileRespOutcome::Respond(
                FileResponse { status: 200, body: v, content_type: Option::None },
            ),
            Result::Err(t) => FileRespOutcome::Respond(fileresp_error_response(&t)),
        },
        _ => vstd::pervasive::unreached(),
    }
}

} // verus!
