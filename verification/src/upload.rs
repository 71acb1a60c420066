//! The file-upload flow.
//!
//! One request kind carries no data: it asks the bridge to run the
//! host's file picker and turn every chosen file into a file-backed
//! note.  The picker and the per-file note creation are external
//! collaborators; the decisions — an empty reply when the user
//! cancels, display names derived from the chosen paths, the whole
//! batch refused when nobody is logged in, and the first failure
//! aborting the batch — are verified here.

use vstd::prelude::*;
use crate::errors::{describe_spec, ZkErr};
use crate::identity::UserId;

verus! {

/// A request of the UI-shell family.
pub enum TauriRequest {
    /// Pick files with the host dialog and upload them as notes.
    TrqUploadFiles,
}

/// A note's list-view summary, as the business logic returns it for a
/// freshly created file-backed note.  The bridge never inspects it;
/// it is carried in its serialized form.
pub struct ZkListNote {
    /// The serialized summary.
    pub payload: String,
}

/// The summaries of the notes one upload batch created.
pub struct UploadedFiles {
    /// One summary per uploaded file, in the order chosen.
    pub notes: Vec<ZkListNote>,
}

/// A reply of the UI-shell family.
pub enum TauriReply {
    /// A failure, described for the UI.
    TyServerError(String),
    /// The summaries of the uploaded files; empty when the user
    /// cancelled the picker.
    TyUploadedFiles(UploadedFiles),
}

/// What to do with an upload request after the picker answered.
pub enum UploadPlan {
    /// Reply at once, without touching the store.
    Reply(TauriReply),
    /// Create a note for each of these chosen paths, in order.
    Process(Vec<String>),
}

/// Decide an upload request from the picker's answer: a cancelled
/// picker is an empty uploaded-files reply, not an error; chosen paths
/// go on to note creation.
pub fn timsg_err(msg: &TauriRequest, picked: Option<Vec<String>>) -> (p: UploadPlan)
    ensures
        picked is None ==> (p matches UploadPlan::Reply(r) && r matches TauriReply::TyUploadedFiles(
            u,
        ) && u.notes@.len() == 0),
        picked matches Some(paths) ==> (p matches UploadPlan::Process(ps) && ps == paths),
{
    match msg {
        TauriRequest::TrqUploadFiles => match picked {
            Option::None => UploadPlan::Reply(
                TauriReply::TyUploadedFiles(UploadedFiles { notes: Vec::new() }),
            ),
            Option::Some(paths) => UploadPlan::Process(paths),
        },
    }
}

/// The suffix of a path after its last separator: the file's display
/// name, or empty for a path that ends in a separator.
pub open spec fn file_name_text(s: Seq<char>) -> Seq<char>
    decreases s.len(),
{
    if s.len() == 0 {
        Seq::<char>::empty()
    } else if s.last() == '/' {
        Seq::<char>::empty()
    } else {
        file_name_text(s.drop_last()).push(s.last())
    }
}

/// The display name is the suffix that follows the last separator:
/// on a sequence with no separator at or after position `k`, and a
/// separator just before `k` (or `k` at the start), the suffix from
/// `k` is exactly the display name.
proof fn lemma_file_name_suffix(s: Seq<char>, k: int)
    requires
        0 <= k <= s.len(),
        forall|j: int| k <= j < s.len() ==> s[j] != '/',
        k > 0 ==> s[k - 1] == '/',
    ensures
        file_name_text(s) == s.subrange(k, s.len() as int),
    decreases s.len(),
{
    if s.len() == k {
        assert(s.subrange(k, s.len() as int) =~= Seq::<char>::empty());
        if s.len() > 0 {
            assert(s.last() == s[k - 1]);
        }
    } else {
        assert(s.last() == s[s.len() - 1]);
        assert(s.last() != '/');
        let b = s.drop_last();
        assert(forall|j: int| k <= j < b.len() ==> b[j] == s[j]);
        lemma_file_name_suffix(b, k);
        assert(file_name_text(s) == file_name_text(b).push(s.last()));
        assert(file_name_text(s) =~= s.subrange(k, s.len() as int));
    }
}

/// Derive the display name of a chosen file from its path: the
/// segment after the last separator, absent when that segment is
/// empty.
pub fn file_display_name(path: &str) -> (r: Option<String>)
    ensures
        r matches Some(n) ==> n@ == file_name_text(path@) && n@.len() > 0,
        r is None ==> file_name_text(path@).len() == 0,
{
    let len = path.unicode_len();
    let mut start: usize = 0;
    let mut i: usize = 0;
    while i < len
        invariant
            len == path@.len(),
            0 <= start <= i <= len,
            start > 0 ==> path@[start - 1] == '/',
            forall|j: int| start <= j < i ==> path@[j] != '/',
        decreases len - i,
    {
        let c = path.get_char(i);
        if c == '/' {
            start = i + 1;
        }
        i = i + 1;
    }
    proof {
        lemma_file_name_suffix(path@, start as int);
    }
    if start == len {
        Option::None
    } else {
        let seg = path.substring_char(start, len);
        Option::Some(String::from_str(seg))
    }
}

/// The texts of a sequence of strings.
pub open spec fn views_of(v: Seq<String>) -> Seq<Seq<char>> {
    v.map_values(|s: String| s@)
}

/// The display names of a batch of chosen paths, in order; a path
/// whose display name is empty contributes nothing.
pub open spec fn upload_names(ps: Seq<Seq<char>>) -> Seq<Seq<char>>
    decreases ps.len(),
{
    if ps.len() == 0 {
        Seq::<Seq<char>>::empty()
    } else if file_name_text(ps.last()).len() == 0 {
        upload_names(ps.drop_last())
    } else {
        upload_names(ps.drop_last()).push(file_name_text(ps.last()))
    }
}

/// Derive the display names of the chosen paths: one name per path
/// that has one, in the order chosen; a path without a display name
/// is skipped, not an error.
pub fn upload_display_names(paths: &Vec<String>) -> (r: Vec<String>)
    ensures
        views_of(r@) == upload_names(views_of(paths@)),
{
    let ghost pv = views_of(paths@);
    let mut out: Vec<String> = Vec::new();
    let mut i: usize = 0;
    while i < paths.len()
        invariant
            0 <= i <= paths@.len(),
            pv == views_of(paths@),
            pv.len() == paths@.len(),
            views_of(out@) == upload_names(pv.take(i as int)),
        decreases paths@.len() - i,
    {
        proof {
            assert(pv.take(i + 1 as int).drop_last() =~= pv.take(i as int));
            assert(pv.take(i + 1 as int).last() == pv[i as int]);
            assert(pv[i as int] == paths@[i as int]@);
        }
        match file_display_name(paths[i].as_str()) {
            Option::Some(name) => {
                out.push(name);
                proof {
                    assert(views_of(out@) =~= upload_names(pv.take(i + 1 as int)));
                }
            },
            Option::None => {
                proof {
                    assert(views_of(out@) =~= upload_names(pv.take(i + 1 as int)));
                }
            },
        }
        i = i + 1;
    }
    proof {
        assert(pv.take(paths@.len() as int) =~= pv);
    }
    out
}

/// Establish the acting user for an upload batch: with nobody logged
/// in the whole batch is refused.
pub fn resolve_upload_user(uid: Option<UserId>) -> (r: Result<UserId, ZkErr>)
    ensures
        uid matches Some(u) ==> (r matches Ok(u2) && u2 == u),
        uid is None ==> (r matches Err(e) && e is NotLoggedIn),
{
    match uid {
        Option::Some(u) => Result::Ok(u),
        Option::None => Result::Err(ZkErr::NotLoggedIn),
    }
}

/// Fold one per-file answer into the batch: a created note's summary
/// is collected; the first failure leaves the batch as it stands and
/// aborts it.
pub fn push_uploaded(notes: &mut Vec<ZkListNote>, item: Result<ZkListNote, ZkErr>) -> (ok: Result<
    (),
    ZkErr,
>)
    ensures
        item matches Ok(n) ==> final(notes)@ == old(notes)@.push(n) && ok is Ok,
        item matches Err(e) ==> final(notes)@ == old(notes)@ && (ok matches Err(e2) && e2 == e),
{
    match item {
        Result::Ok(n) => {
            notes.push(n);
            Result::Ok(())
        },
        Result::Err(e) => Result::Err(e),
    }
}

/// Answer the UI's upload command: any failure is rendered as a typed
/// server-error reply.
pub fn timsg(r: Result<TauriReply, ZkErr>) -> (out: TauriReply)
    ensures
        r matches Ok(t) ==> out == t,
        r matches Err(e) ==> (out matches TauriReply::TyServerError(m) && m@ == describe_spec(&e)),
{
    match r {
        Result::Ok(t) => t,
        Result::Err(e) => TauriReply::TyServerError(e.describe()),
    }
}

} // verus!
