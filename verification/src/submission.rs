//! Submissions: a participant's project entry tied to one event, progressing
//! Draft→Submitted.

use vstd::prelude::*;

use crate::column::ColumnValue;
use crate::column::int_or_zero;
use crate::column::integer_column;
use crate::column::text_column;
use crate::column::text_or_empty;
use crate::error::ErrorKind;
use crate::error::StoreError;
use crate::error::get_none_error;
use crate::error::lookup_error_kind;
use crate::error::lookup_error_message;
use crate::store::MAX_ROWS;
use crate::store::Store;

verus! {

/// A submission that is still editable.
pub const SUBMISSION_DRAFT: i64 = 1;

/// A submission that was handed in; the transition is one-way and final.
pub const SUBMISSION_SUBMITTED: i64 = 2;

/// A submission row, together with the flattened response fields `err_msg`
/// and `success` that the boundary layer expects on every reply.
#[derive(Debug, PartialEq)]
pub struct Submission {
    pub uuid: i64,
    pub event_id: i64,
    pub project_name: String,
    pub description: String,
    pub thumbnail: String,
    pub git_url: String,
    pub live_demo_url: String,
    pub video_demo_url: String,
    pub submit_by: String,
    pub status: i64,
    pub created_by: String,
    pub err_msg: String,
    pub success: bool,
}

/// `id` names a row of the submissions table: identifiers are handed out
/// consecutively from one, so row `id - 1` is the one it names.
pub open spec fn valid_submission_id(subs: Seq<Submission>, id: int) -> bool {
    1 <= id <= subs.len()
}

/// Some row of `subs` belongs to this participant and event.
pub open spec fn has_pair(subs: Seq<Submission>, submit_by: Seq<char>, event_id: int) -> bool {
    exists|i: int|
        0 <= i < subs.len() && subs[i].submit_by@ == submit_by && subs[i].event_id == event_id
}

/// The index of the row belonging to this participant and event; meaningful
/// only under `has_pair`, and unique under `submissions_wf`.
pub open spec fn pair_index(subs: Seq<Submission>, submit_by: Seq<char>, event_id: int) -> int {
    choose|i: int|
        0 <= i < subs.len() && subs[i].submit_by@ == submit_by && subs[i].event_id == event_id
}

/// A stored row never carries a failure marker.
pub open spec fn submission_row_clean(s: Submission) -> bool {
    s.success && s.err_msg@ == Seq::<char>::empty()
}

/// Well-formedness of the submissions table: the identifier of row `i` is
/// `i + 1` (auto-increment, never reused), the status is Draft or Submitted,
/// rows are clean, and at most one row exists per `(submit_by, event_id)`
/// pair — the uniqueness constraint the store itself enforces.
pub open spec fn submissions_wf(subs: Seq<Submission>) -> bool {
    &&& forall|i: int| 0 <= i < subs.len() ==> {
        &&& (#[trigger] subs[i]).uuid == i + 1
        &&& (subs[i].status == SUBMISSION_DRAFT || subs[i].status == SUBMISSION_SUBMITTED)
        &&& submission_row_clean(subs[i])
    }
    &&& forall|i: int, j: int|
        #![trigger subs[i], subs[j]]
        0 <= i < j < subs.len() ==> !(subs[i].submit_by@ == subs[j].submit_by@
            && subs[i].event_id == subs[j].event_id)
}

/// The row a fresh insert stores: the supplied fields, status Draft.
pub open spec fn submission_added(
    s: Submission,
    uuid: int,
    event_id: i64,
    project_name: String,
    description: String,
    thumbnail: String,
    git_url: String,
    live_demo_url: String,
    video_demo_url: String,
    submit_by: String,
) -> bool {
    &&& s.uuid == uuid
    &&& s.event_id == event_id
    &&& s.project_name == project_name
    &&& s.description == description
    &&& s.thumbnail == thumbnail
    &&& s.git_url == git_url
    &&& s.live_demo_url == live_demo_url
    &&& s.video_demo_url == video_demo_url
    &&& s.submit_by == submit_by
    &&& s.status == SUBMISSION_DRAFT
    &&& s.created_by@ == Seq::<char>::empty()
    &&& submission_row_clean(s)
}

/// The row a content update stores: identifier, event, author and status
/// kept, every content field replaced by the supplied value.
pub open spec fn submission_updated(
    s: Submission,
    prev: Submission,
    project_name: String,
    description: String,
    thumbnail: String,
    git_url: String,
    live_demo_url: String,
    video_demo_url: String,
) -> bool {
    &&& s.uuid == prev.uuid
    &&& s.event_id == prev.event_id
    &&& s.project_name == project_name
    &&& s.description == description
    &&& s.thumbnail == thumbnail
    &&& s.git_url == git_url
    &&& s.live_demo_url == live_demo_url
    &&& s.video_demo_url == video_demo_url
    &&& s.submit_by == prev.submit_by
    &&& s.status == prev.status
    &&& s.created_by == prev.created_by
    &&& submission_row_clean(s)
}

/// The row `submit` leaves behind: everything kept but the status, which is
/// Submitted whatever it was before.
pub open spec fn submission_submitted(prev: Submission) -> Submission {
    Submission { status: SUBMISSION_SUBMITTED, ..prev }
}

/// The flattened failure reply: every entity field zero-valued, the message
/// in `err_msg`, `success` false.
pub open spec fn submission_failed(s: Submission, msg: Seq<char>) -> bool {
    &&& s.uuid == 0
    &&& s.event_id == 0
    &&& s.project_name@ == Seq::<char>::empty()
    &&& s.description@ == Seq::<char>::empty()
    &&& s.thumbnail@ == Seq::<char>::empty()
    &&& s.git_url@ == Seq::<char>::empty()
    &&& s.live_demo_url@ == Seq::<char>::empty()
    &&& s.video_demo_url@ == Seq::<char>::empty()
    &&& s.submit_by@ == Seq::<char>::empty()
    &&& s.status == 0
    &&& s.created_by@ == Seq::<char>::empty()
    &&& s.err_msg@ == msg
    &&& !s.success
}

impl Default for Submission {
    /// The zero-valued submission reply.
    fn default() -> (r: Submission)
        ensures
            submission_failed(r, Seq::<char>::empty()),
    {
        Submission {
            uuid: 0,
            event_id: 0,
            project_name: String::new(),
            description: String::new(),
            thumbnail: String::new(),
            git_url: String::new(),
            live_demo_url: String::new(),
            video_demo_url: String::new(),
            submit_by: String::new(),
            status: 0,
            created_by: String::new(),
            err_msg: String::new(),
            success: false,
        }
    }
}

impl Submission {
    /// An exact copy of the row.
    pub fn duplicate(&self) -> (r: Submission)
        ensures
            r == *self,
    {
        Submission {
            uuid: self.uuid,
            event_id: self.event_id,
            project_name: self.project_name.clone(),
            description: self.description.clone(),
            thumbnail: self.thumbnail.clone(),
            git_url: self.git_url.clone(),
            live_demo_url: self.live_demo_url.clone(),
            video_demo_url: self.video_demo_url.clone(),
            submit_by: self.submit_by.clone(),
            status: self.status,
            created_by: self.created_by.clone(),
            err_msg: self.err_msg.clone(),
            success: self.success,
        }
    }

    /// Decodes a fetched row. The identifier, event, name and description
    /// columns must hold their value; a missing optional column decodes to
    /// an empty string or zero.
    pub fn from_row(row: &[ColumnValue]) -> (r: Result<Submission, StoreError>)
        requires
            row@.len() >= 10,
        ensures
            r is Ok <==> (row@[0] is Integer && row@[1] is Integer && row@[2] is Text
                && row@[3] is Text),
            r matches Ok(s) ==> {
                &&& s.uuid == row@[0]->Integer_0
                &&& s.event_id == row@[1]->Integer_0
                &&& s.project_name == row@[2]->Text_0
                &&& s.description == row@[3]->Text_0
                &&& text_or_empty(row@[4], s.thumbnail)
                &&& text_or_empty(row@[5], s.git_url)
                &&& text_or_empty(row@[6], s.live_demo_url)
                &&& text_or_empty(row@[7], s.video_demo_url)
                &&& text_or_empty(row@[8], s.submit_by)
                &&& int_or_zero(row@[9], s.status)
                &&& s.created_by@ == Seq::<char>::empty()
                &&& submission_row_clean(s)
            },
            r matches Err(e) ==> e.kind == ErrorKind::NotFound && e.message@
                == "Value doesn't exist"@,
    {
        let uuid = match &row[0] {
            ColumnValue::Integer(v) => *v,
            _ => { return Err(get_none_error()); },
        };
        let event_id = match &row[1] {
            ColumnValue::Integer(v) => *v,
            _ => { return Err(get_none_error()); },
        };
        let project_name = match &row[2] {
            ColumnValue::Text(s) => s.clone(),
            _ => { return Err(get_none_error()); },
        };
        let description = match &row[3] {
            ColumnValue::Text(s) => s.clone(),
            _ => { return Err(get_none_error()); },
        };
        let submission = Submission {
            uuid,
            event_id,
            project_name,
            description,
            thumbnail: text_column(&row[4]),
            git_url: text_column(&row[5]),
            live_demo_url: text_column(&row[6]),
            video_demo_url: text_column(&row[7]),
            submit_by: text_column(&row[8]),
            status: integer_column(&row[9]),
            created_by: String::new(),
            err_msg: String::new(),
            success: true,
        };
        Ok(submission)
    }

    /// Flattens a repository result into the uniform reply shape.
    pub fn from_res(res: Result<Submission, StoreError>) -> (r: Submission)
        ensures
            res matches Ok(s) ==> r == s,
            res matches Err(e) ==> submission_failed(r, e.message@),
    {
        match res {
            Ok(v) => v,
            Err(e) => {
                let mut res_submit = Submission::default();
                res_submit.err_msg = e.message;
                res_submit.success = false;
                res_submit
            },
        }
    }
}

/// All submissions belonging to one event, in stored order.
pub open spec fn submissions_for_event(subs: Seq<Submission>, event_id: int) -> Seq<Submission>
    decreases subs.len(),
{
    if subs.len() == 0 {
        Seq::empty()
    } else {
        let rest = submissions_for_event(subs.drop_last(), event_id);
        if subs.last().event_id == event_id {
            rest.push(subs.last())
        } else {
            rest
        }
    }
}

/// Appending a row extends the per-event restriction by that row exactly
/// when the row belongs to the event.
proof fn lemma_submissions_for_event_push(subs: Seq<Submission>, s: Submission, event_id: int)
    ensures
        submissions_for_event(subs.push(s), event_id) == if s.event_id == event_id {
            submissions_for_event(subs, event_id).push(s)
        } else {
            submissions_for_event(subs, event_id)
        },
{
    assert(subs.push(s).drop_last() =~= subs);
    assert(subs.push(s).last() == s);
}

/// An insert succeeds exactly when the tables exist and the participant has
/// no row for the event yet: the store enforces the `(submit_by, event_id)`
/// uniqueness constraint itself.
pub open spec fn insert_allowed(
    tables_ready: bool,
    subs: Seq<Submission>,
    submit_by: Seq<char>,
    event_id: int,
) -> bool {
    tables_ready && !has_pair(subs, submit_by, event_id)
}

/// The kind a failed insert reports.
pub open spec fn insert_error_kind(tables_ready: bool) -> ErrorKind {
    if !tables_ready {
        ErrorKind::Storage
    } else {
        ErrorKind::DuplicateKey
    }
}

/// The message a failed insert reports.
pub open spec fn insert_error_message(tables_ready: bool) -> Seq<char> {
    if !tables_ready {
        "no such table"@
    } else {
        "duplicate key: submit_by, event_id"@
    }
}

/// The status gate: after `submit_submission` marks a row Submitted, the
/// row's identifier still names it, but its status is no longer Draft — so
/// the workflow update's contract says the table is left unchanged.
pub proof fn lemma_submitted_blocks_update(subs: Seq<Submission>, id: int)
    requires
        valid_submission_id(subs, id),
    ensures
        valid_submission_id(subs.update(id - 1, submission_submitted(subs[id - 1])), id),
        subs.update(id - 1, submission_submitted(subs[id - 1]))[id - 1].status
            == SUBMISSION_SUBMITTED,
{
}

/// Round trip of an insert: under the identifier the insert assigned, the
/// lookup finds the stored row, field for field.
pub proof fn lemma_insert_read_back(subs: Seq<Submission>, s: Submission)
    requires
        s.uuid == subs.len() + 1,
    ensures
        valid_submission_id(subs.push(s), s.uuid as int),
        subs.push(s)[s.uuid - 1] == s,
{
}

/// Round trip of an insert through the pair lookup: the stored row is the
/// one a lookup by its participant and event finds, field for field.
pub proof fn lemma_pair_read_back(subs: Seq<Submission>, s: Submission)
    requires
        !has_pair(subs, s.submit_by@, s.event_id as int),
    ensures
        has_pair(subs.push(s), s.submit_by@, s.event_id as int),
        subs.push(s)[pair_index(subs.push(s), s.submit_by@, s.event_id as int)] == s,
{
    let subs2 = subs.push(s);
    assert(subs2[subs.len() as int] == s);
    assert(has_pair(subs2, s.submit_by@, s.event_id as int));
    let k = pair_index(subs2, s.submit_by@, s.event_id as int);
    assert(0 <= k < subs2.len() && subs2[k].submit_by@ == s.submit_by@ && subs2[k].event_id
        == s.event_id);
    if k < subs.len() {
        assert(subs[k] == subs2[k]);
        assert(has_pair(subs, s.submit_by@, s.event_id as int));
    }
}

/// A matching row's index is the one `pair_index` names: the pair is unique,
/// so there is no other.
pub proof fn lemma_pair_index_of_match(
    subs: Seq<Submission>,
    submit_by: Seq<char>,
    event_id: int,
    i: int,
)
    requires
        submissions_wf(subs),
        0 <= i < subs.len(),
        subs[i].submit_by@ == submit_by,
        subs[i].event_id == event_id,
    ensures
        has_pair(subs, submit_by, event_id),
        pair_index(subs, submit_by, event_id) == i,
{
    assert(has_pair(subs, submit_by, event_id));
    let k = pair_index(subs, submit_by, event_id);
    assert(0 <= k < subs.len() && subs[k].submit_by@ == submit_by && subs[k].event_id == event_id);
    if k < i {
        assert(!(subs[k].submit_by@ == subs[i].submit_by@ && subs[k].event_id == subs[i].event_id));
    }
    if i < k {
        assert(!(subs[i].submit_by@ == subs[k].submit_by@ && subs[i].event_id == subs[k].event_id));
    }
}

/// Checks that `id` names a row, under the consecutive-identifier invariant.
fn submission_row_index(subs: &Vec<Submission>, id: i64) -> (r: Option<usize>)
    requires
        submissions_wf(subs@),
    ensures
        match r {
            Some(i) => valid_submission_id(subs@, id as int) && i as int == id - 1,
            None => !valid_submission_id(subs@, id as int),
        },
{
    if 1 <= id && id as u64 <= subs.len() as u64 {
        Some((id - 1) as usize)
    } else {
        None
    }
}

/// The index of the row belonging to this participant and event, if any.
fn find_pair_index(subs: &Vec<Submission>, submit_by: &String, event_id: i64) -> (r: Option<usize>)
    ensures
        match r {
            Some(i) => i < subs@.len() && subs@[i as int].submit_by@ == submit_by@
                && subs@[i as int].event_id == event_id,
            None => !has_pair(subs@, submit_by@, event_id as int),
        },
{
    let mut i: usize = 0;
    while i < subs.len()
        invariant
            i <= subs@.len(),
            forall|j: int|
                0 <= j < i ==> !((#[trigger] subs@[j]).submit_by@ == submit_by@
                    && subs@[j].event_id == event_id),
        decreases subs@.len() - i,
    {
        if subs[i].event_id == event_id && subs[i].submit_by == *submit_by {
            return Some(i);
        }
        i += 1;
    }
    None
}

/// Inserts a new submission with the next identifier and status Draft.
/// Fails with a duplicate-key error when the participant already holds a
/// row for the event — the uniqueness constraint lives in the store, not in
/// a caller's check-then-insert.
pub fn add_submission(
    store: &mut Store,
    event_id: i64,
    name: String,
    description: String,
    thumbnail: String,
    git: String,
    live_url: String,
    video_url: String,
    submit_by: String,
) -> (r: Result<Submission, StoreError>)
    requires
        old(store).wf(),
        old(store).submissions@.len() < MAX_ROWS,
    ensures
        final(store).wf(),
        final(store).tables_ready == old(store).tables_ready,
        final(store).team_table_ready == old(store).team_table_ready,
        final(store).users@ == old(store).users@,
        final(store).events@ == old(store).events@,
        r is Ok <==> insert_allowed(
            old(store).tables_ready,
            old(store).submissions@,
            submit_by@,
            event_id as int,
        ),
        r matches Ok(s) ==> submission_added(
            s,
            old(store).submissions@.len() as int + 1,
            event_id,
            name,
            description,
            thumbnail,
            git,
            live_url,
            video_url,
            submit_by,
        ) && final(store).submissions@ == old(store).submissions@.push(s),
        r is Err ==> final(store).submissions@ == old(store).submissions@,
        r matches Err(e) ==> e.kind == insert_error_kind(old(store).tables_ready) && e.message@
            == insert_error_message(old(store).tables_ready),
{
    if !store.tables_ready {
        return Err(StoreError::new(ErrorKind::Storage, "no such table"));
    }
    if find_pair_index(&store.submissions, &submit_by, event_id).is_some() {
        return Err(StoreError::new(ErrorKind::DuplicateKey, "duplicate key: submit_by, event_id"));
    }
    let uuid = store.submissions.len() as i64 + 1;
    let submission = Submission {
        uuid,
        event_id,
        project_name: name,
        description,
        thumbnail,
        git_url: git,
        live_demo_url: live_url,
        video_demo_url: video_url,
        submit_by,
        status: SUBMISSION_DRAFT,
        created_by: String::new(),
        err_msg: String::new(),
        success: true,
    };
    let stored = submission.duplicate();
    let ghost subs0 = store.submissions@;
    store.submissions.push(stored);
    proof {
        assert(store.submissions@ =~= subs0.push(submission));
        assert forall|i: int, j: int|
            #![trigger store.submissions@[i], store.submissions@[j]]
            0 <= i < j < store.submissions@.len() implies !(store.submissions@[i].submit_by@
            == store.submissions@[j].submit_by@ && store.submissions@[i].event_id
            == store.submissions@[j].event_id) by {
            if j == subs0.len() {
                assert(store.submissions@[i] == subs0[i]);
                if subs0[i].submit_by@ == submission.submit_by@ && subs0[i].event_id
                    == submission.event_id {
                    assert(has_pair(subs0, submission.submit_by@, submission.event_id as int));
                }
            }
        }
    }
    Ok(submission)
}

/// Replaces every content field of the submission with the supplied values;
/// identifier, event, author and status are kept. The repository itself does
/// not gate on status — the workflow layer checks Draft before calling.
/// Fails with a not-found error when the identifier names no row.
pub fn update_submission(
    store: &mut Store,
    id: i64,
    name: String,
    description: String,
    thumbnail: String,
    git_url: String,
    demo_url: String,
    video_url: String,
) -> (r: Result<Submission, StoreError>)
    requires
        old(store).wf(),
    ensures
        final(store).wf(),
        final(store).tables_ready == old(store).tables_ready,
        final(store).team_table_ready == old(store).team_table_ready,
        final(store).users@ == old(store).users@,
        final(store).events@ == old(store).events@,
        r is Ok <==> old(store).tables_ready && valid_submission_id(
            old(store).submissions@,
            id as int,
        ),
        r matches Ok(s) ==> submission_updated(
            s,
            old(store).submissions@[id - 1],
            name,
            description,
            thumbnail,
            git_url,
            demo_url,
            video_url,
        ) && final(store).submissions@ == old(store).submissions@.update(id - 1, s),
        r is Err ==> final(store).submissions@ == old(store).submissions@,
        r matches Err(e) ==> e.kind == lookup_error_kind(old(store).tables_ready) && e.message@
            == lookup_error_message(old(store).tables_ready),
{
    if !store.tables_ready {
        return Err(StoreError::new(ErrorKind::Storage, "no such table"));
    }
    match submission_row_index(&store.submissions, id) {
        Some(i) => {
            let ghost subs0 = store.submissions@;
            let prev = store.submissions.remove(i);
            let updated = Submission {
                uuid: prev.uuid,
                event_id: prev.event_id,
                project_name: name,
                description,
                thumbnail,
                git_url,
                live_demo_url: demo_url,
                video_demo_url: video_url,
                submit_by: prev.submit_by,
                status: prev.status,
                created_by: prev.created_by,
                err_msg: String::new(),
                success: true,
            };
            let stored = updated.duplicate();
            store.submissions.insert(i, stored);
            proof {
                assert(store.submissions@ =~= subs0.update(i as int, updated));
                assert forall|p: int, q: int|
                    #![trigger store.submissions@[p], store.submissions@[q]]
                    0 <= p < q < store.submissions@.len() implies !(store.submissions@[p].submit_by@
                    == store.submissions@[q].submit_by@ && store.submissions@[p].event_id
                    == store.submissions@[q].event_id) by {
                    assert(!(subs0[p].submit_by@ == subs0[q].submit_by@ && subs0[p].event_id
                        == subs0[q].event_id));
                }
            }
            Ok(updated)
        },
        None => Err(get_none_error()),
    }
}

/// Sets the submission's status to Submitted, whatever it was: submitting an
/// already submitted row succeeds and changes nothing. Fails with a
/// not-found error when the identifier names no row.
pub fn submit_submission(store: &mut Store, id: i64) -> (r: Result<Submission, StoreError>)
    requires
        old(store).wf(),
    ensures
        final(store).wf(),
        final(store).tables_ready == old(store).tables_ready,
        final(store).team_table_ready == old(store).team_table_ready,
        final(store).users@ == old(store).users@,
        final(store).events@ == old(store).events@,
        r is Ok <==> old(store).tables_ready && valid_submission_id(
            old(store).submissions@,
            id as int,
        ),
        r matches Ok(s) ==> s == submission_submitted(old(store).submissions@[id - 1])
            && final(store).submissions@ == old(store).submissions@.update(id - 1, s),
        r is Err ==> final(store).submissions@ == old(store).submissions@,
        r matches Err(e) ==> e.kind == lookup_error_kind(old(store).tables_ready) && e.message@
            == lookup_error_message(old(store).tables_ready),
{
    if !store.tables_ready {
        return Err(StoreError::new(ErrorKind::Storage, "no such table"));
    }
    match submission_row_index(&store.submissions, id) {
        Some(i) => {
            let ghost subs0 = store.submissions@;
            let prev = store.submissions.remove(i);
            let submitted = Submission {
                uuid: prev.uuid,
                event_id: prev.event_id,
                project_name: prev.project_name,
                description: prev.description,
                thumbnail: prev.thumbnail,
                git_url: prev.git_url,
                live_demo_url: prev.live_demo_url,
                video_demo_url: prev.video_demo_url,
                submit_by: prev.submit_by,
                status: SUBMISSION_SUBMITTED,
                created_by: prev.created_by,
                err_msg: prev.err_msg,
                success: prev.success,
            };
            let stored = submitted.duplicate();
            store.submissions.insert(i, stored);
            proof {
                assert(store.submissions@ =~= subs0.update(i as int, submitted));
                assert forall|p: int, q: int|
                    #![trigger store.submissions@[p], store.submissions@[q]]
                    0 <= p < q < store.submissions@.len() implies !(store.submissions@[p].submit_by@
                    == store.submissions@[q].submit_by@ && store.submissions@[p].event_id
                    == store.submissions@[q].event_id) by {
                    assert(!(subs0[p].submit_by@ == subs0[q].submit_by@ && subs0[p].event_id
                        == subs0[q].event_id));
                }
            }
            Ok(submitted)
        },
        None => Err(get_none_error()),
    }
}

/// Looks a submission up by identifier; fails with a not-found error when
/// the identifier names no row.
pub fn get_submission(store: &Store, uuid: i64) -> (r: Result<Submission, StoreError>)
    requires
        store.wf(),
    ensures
        r is Ok <==> store.tables_ready && valid_submission_id(store.submissions@, uuid as int),
        r matches Ok(s) ==> s == store.submissions@[uuid - 1],
        r matches Err(e) ==> e.kind == lookup_error_kind(store.tables_ready) && e.message@
            == lookup_error_message(store.tables_ready),
{
    if !store.tables_ready {
        return Err(StoreError::new(ErrorKind::Storage, "no such table"));
    }
    match submission_row_index(&store.submissions, uuid) {
        Some(i) => Ok(store.submissions[i].duplicate()),
        None => Err(get_none_error()),
    }
}

/// Looks up the one submission a participant holds for an event; fails with
/// a not-found error when there is none.
pub fn get_user_submission_for_event(store: &Store, address: String, event_id: i64) -> (r: Result<
    Submission,
    StoreError,
>)
    requires
        store.wf(),
    ensures
        r is Ok <==> store.tables_ready && has_pair(store.submissions@, address@, event_id as int),
        r matches Ok(s) ==> s == store.submissions@[pair_index(
            store.submissions@,
            address@,
            event_id as int,
        )] && s.submit_by@ == address@ && s.event_id == event_id,
        r matches Err(e) ==> e.kind == lookup_error_kind(store.tables_ready) && e.message@
            == lookup_error_message(store.tables_ready),
{
    if !store.tables_ready {
        return Err(StoreError::new(ErrorKind::Storage, "no such table"));
    }
    match find_pair_index(&store.submissions, &address, event_id) {
        Some(i) => {
            let s = store.submissions[i].duplicate();
            proof {
                lemma_pair_index_of_match(store.submissions@, address@, event_id as int, i as int);
            }
            Ok(s)
        },
        None => Err(get_none_error()),
    }
}

/// Every submission, in stored order.
pub fn get_submissions(store: &Store) -> (r: Result<Vec<Submission>, StoreError>)
    requires
        store.wf(),
    ensures
        r is Ok <==> store.tables_ready,
        r matches Ok(v) ==> v@ == store.submissions@,
        r matches Err(e) ==> e.kind == ErrorKind::Storage && e.message@ == "no such table"@,
{
    if !store.tables_ready {
        return Err(StoreError::new(ErrorKind::Storage, "no such table"));
    }
    let mut out: Vec<Submission> = Vec::new();
    let mut i: usize = 0;
    while i < store.submissions.len()
        invariant
            i <= store.submissions@.len(),
            out@ == store.submissions@.take(i as int),
        decreases store.submissions@.len() - i,
    {
        out.push(store.submissions[i].duplicate());
        proof {
            assert(store.submissions@.take(i + 1) =~= store.submissions@.take(i as int).push(
                store.submissions@[i as int],
            ));
        }
        i += 1;
    }
    proof {
        assert(store.submissions@.take(store.submissions@.len() as int) =~= store.submissions@);
    }
    Ok(out)
}

/// Every submission belonging to one event, in stored order.
pub fn get_submissions_by_event(store: &Store, event_id: i64) -> (r: Result<
    Vec<Submission>,
    StoreError,
>)
    requires
        store.wf(),
    ensures
        r is Ok <==> store.tables_ready,
        r matches Ok(v) ==> v@ == submissions_for_event(store.submissions@, event_id as int),
        r matches Err(e) ==> e.kind == ErrorKind::Storage && e.message@ == "no such table"@,
{
    if !store.tables_ready {
        return Err(StoreError::new(ErrorKind::Storage, "no such table"));
    }
    let mut out: Vec<Submission> = Vec::new();
    let mut i: usize = 0;
    while i < store.submissions.len()
        invariant
            i <= store.submissions@.len(),
            out@ == submissions_for_event(store.submissions@.take(i as int), event_id as int),
        decreases store.submissions@.len() - i,
    {
        if store.submissions[i].event_id == event_id {
            out.push(store.submissions[i].duplicate());
        }
        proof {
            assert(store.submissions@.take(i + 1) =~= store.submissions@.take(i as int).push(
                store.submissions@[i as int],
            ));
            lemma_submissions_for_event_push(
                store.submissions@.take(i as int),
                store.submissions@[i as int],
                event_id as int,
            );
        }
        i += 1;
    }
    proof {
        assert(store.submissions@.take(store.submissions@.len() as int) =~= store.submissions@);
    }
    Ok(out)
}

} // verus!
