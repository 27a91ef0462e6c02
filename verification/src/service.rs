//! The service operations a boundary layer exposes, one per caller-visible
//! call. Reads and writes go through the repositories; the workflow
//! operations `draft_submission` and `update_submission` add the cross-entity
//! rules. Every operation returns a uniform reply — the entity with its
//! `success` and `err_msg` fields filled, or `IFResult` — and never panics;
//! error kinds stay tagged until this outermost flattening.

use vstd::prelude::*;

use crate::error::ErrorKind;
use crate::error::StoreError;
use crate::error::lookup_error_message;
use crate::event::Event;
use crate::event::event_added;
use crate::event::event_closed;
use crate::event::event_failed;
use crate::event::event_updated;
use crate::event::live_events;
use crate::event::valid_event_id;
use crate::store::MAX_ROWS;
use crate::store::Store;
use crate::store::create_tables;
use crate::store::delete_tables;
use crate::submission::SUBMISSION_DRAFT;
use crate::submission::Submission;
use crate::submission::has_pair;
use crate::submission::submission_added;
use crate::submission::submission_failed;
use crate::submission::submission_submitted;
use crate::submission::submission_updated;
use crate::submission::submissions_for_event;
use crate::submission::valid_submission_id;
use crate::user::User;
use crate::user::has_user;
use crate::user::register_allowed;
use crate::user::register_error_message;
use crate::user::user_failed;
use crate::user::user_index;
use crate::user::user_profile_updated;
use crate::user::user_registered;

verus! {

/// The reply of an operation that carries no entity: a success flag and a
/// message that is empty on success.
pub struct IFResult {
    pub success: bool,
    pub err_msg: String,
}

impl IFResult {
    /// Flattens a schema-operation result into the uniform reply shape.
    pub fn from_res(res: Result<(), StoreError>) -> (r: IFResult)
        ensures
            r.success <==> res is Ok,
            res is Ok ==> r.err_msg@ == Seq::<char>::empty(),
            res matches Err(e) ==> r.err_msg@ == e.message@,
    {
        match res {
            Ok(_) => IFResult { success: true, err_msg: String::new() },
            Err(e) => IFResult { success: false, err_msg: e.message },
        }
    }

    /// A failure reply carrying the given message.
    pub fn from_err_str(e: &str) -> (r: IFResult)
        ensures
            !r.success,
            r.err_msg@ == e@,
    {
        IFResult { success: false, err_msg: e.to_owned() }
    }
}

/// Creates the schema. The boundary layer's owner check is passed in; the
/// store is touched only when it granted the caller.
pub fn init_service(store: &mut Store, caller_is_owner: bool) -> (r: IFResult)
    requires
        old(store).wf(),
    ensures
        final(store).wf(),
        r.success <==> caller_is_owner,
        caller_is_owner ==> final(store).tables_ready && final(store).team_table_ready && final(store).users@ == old(store).users@ && final(store).events@ == old(store).events@ && final(store).submissions@ == old(store).submissions@ && r.err_msg@ == Seq::<char>::empty(),
        !caller_is_owner ==> *final(store) == *old(store) && r.err_msg@
            == "You are not the owner!"@,
{
    if !caller_is_owner {
        return IFResult::from_err_str("You are not the owner!");
    }
    let res = create_tables(store);
    IFResult::from_res(res)
}

/// Drops the entity tables with every row in them. The boundary layer's
/// owner check is passed in; the store is touched only when it granted the
/// caller.
pub fn reset_service(store: &mut Store, caller_is_owner: bool) -> (r: IFResult)
    requires
        old(store).wf(),
    ensures
        final(store).wf(),
        r.success <==> caller_is_owner,
        caller_is_owner ==> !final(store).tables_ready && final(store).team_table_ready == old(store).team_table_ready && final(store).users@.len() == 0 && final(store).events@.len() == 0
            && final(store).submissions@.len() == 0 && r.err_msg@ == Seq::<char>::empty(),
        !caller_is_owner ==> *final(store) == *old(store) && r.err_msg@
            == "You are not the owner!"@,
{
    if !caller_is_owner {
        return IFResult::from_err_str("You are not the owner!");
    }
    let res = delete_tables(store);
    IFResult::from_res(res)
}

/// Registers a participant: a flattened `crate::user::add_user`.
pub fn register_user(store: &mut Store, near_address: String, email: String) -> (r: User)
    requires
        old(store).wf(),
    ensures
        final(store).wf(),
        final(store).tables_ready == old(store).tables_ready,
        final(store).team_table_ready == old(store).team_table_ready,
        final(store).events@ == old(store).events@,
        final(store).submissions@ == old(store).submissions@,
        r.success <==> register_allowed(
            old(store).tables_ready,
            old(store).users@,
            near_address@,
            email@,
        ),
        r.success ==> user_registered(r, near_address, email) && final(store).users@ == old(store).users@.push(r),
        !r.success ==> final(store).users@ == old(store).users@ && user_failed(
            r,
            register_error_message(old(store).tables_ready, old(store).users@, near_address@),
        ),
{
    let res = crate::user::add_user(store, near_address, email);
    User::from_res(res)
}

/// Replaces a participant's profile fields: a flattened
/// `crate::user::update_user`.
pub fn update_user(
    store: &mut Store,
    near_address: String,
    first_name: String,
    last_name: String,
    is_student: u8,
    country: String,
    git: String,
    linkedin: String,
    twitter: String,
) -> (r: User)
    requires
        old(store).wf(),
    ensures
        final(store).wf(),
        final(store).tables_ready == old(store).tables_ready,
        final(store).team_table_ready == old(store).team_table_ready,
        final(store).events@ == old(store).events@,
        final(store).submissions@ == old(store).submissions@,
        r.success <==> old(store).tables_ready && has_user(old(store).users@, near_address@),
        r.success ==> {
            let i = user_index(old(store).users@, near_address@);
            &&& user_profile_updated(
                r,
                old(store).users@[i],
                first_name,
                last_name,
                is_student,
                country,
                git,
                linkedin,
                twitter,
            )
            &&& final(store).users@ == old(store).users@.update(i, r)
        },
        !r.success ==> final(store).users@ == old(store).users@ && user_failed(
            r,
            lookup_error_message(old(store).tables_ready),
        ),
{
    let res = crate::user::update_user(
        store,
        near_address,
        first_name,
        last_name,
        is_student,
        country,
        git,
        linkedin,
        twitter,
    );
    User::from_res(res)
}

/// Reads a participant by address: a flattened `crate::user::get_user`.
pub fn get_user(store: &Store, near_address: String) -> (r: User)
    requires
        store.wf(),
    ensures
        r.success <==> store.tables_ready && has_user(store.users@, near_address@),
        r.success ==> r == store.users@[user_index(store.users@, near_address@)],
        !r.success ==> user_failed(r, lookup_error_message(store.tables_ready)),
{
    let res = crate::user::get_user(store, near_address);
    User::from_res(res)
}

/// A draft succeeds exactly when the tables exist, the participant is
/// registered, the event exists, and the participant holds no submission for
/// the event yet.
pub open spec fn draft_allowed(
    tables_ready: bool,
    users: Seq<User>,
    events: Seq<Event>,
    subs: Seq<Submission>,
    submit_by: Seq<char>,
    event_id: int,
) -> bool {
    &&& tables_ready
    &&& has_user(users, submit_by)
    &&& valid_event_id(events, event_id)
    &&& !has_pair(subs, submit_by, event_id)
}

/// The kind a failed draft reports: the checks run in order — participant,
/// then event, then the duplicate — and the first to fail names the kind.
pub open spec fn draft_error_kind(
    tables_ready: bool,
    users: Seq<User>,
    events: Seq<Event>,
    submit_by: Seq<char>,
    event_id: int,
) -> ErrorKind {
    if !tables_ready {
        ErrorKind::Storage
    } else if !has_user(users, submit_by) {
        ErrorKind::Validation
    } else if !valid_event_id(events, event_id) {
        ErrorKind::Validation
    } else {
        ErrorKind::Conflict
    }
}

/// The message that goes with `draft_error_kind`.
pub open spec fn draft_error_message(
    tables_ready: bool,
    users: Seq<User>,
    events: Seq<Event>,
    submit_by: Seq<char>,
    event_id: int,
) -> Seq<char> {
    if !tables_ready {
        "no such table"@
    } else if !has_user(users, submit_by) {
        "unknown participant"@
    } else if !valid_event_id(events, event_id) {
        "unknown event"@
    } else {
        "already submitted"@
    }
}

/// The workflow behind `draft`: verifies that the participant and the event
/// exist, then inserts — and keeps the error tagged. The duplicate check is
/// not what upholds the one-per-pair rule; the store's own uniqueness
/// constraint in `crate::submission::add_submission` does.
pub fn draft_submission(
    store: &mut Store,
    event_id: i64,
    name: String,
    description: String,
    thumbnail: String,
    git: String,
    live_url: String,
    video_url: String,
    submit_by: String,
) -> (r: Result<Submission, StoreError>)
    requires
        old(store).wf(),
        old(store).submissions@.len() < MAX_ROWS,
    ensures
        final(store).wf(),
        final(store).tables_ready == old(store).tables_ready,
        final(store).team_table_ready == old(store).team_table_ready,
        final(store).users@ == old(store).users@,
        final(store).events@ == old(store).events@,
        r is Ok <==> draft_allowed(
            old(store).tables_ready,
            old(store).users@,
            old(store).events@,
            old(store).submissions@,
            submit_by@,
            event_id as int,
        ),
        r matches Ok(s) ==> submission_added(
            s,
            old(store).submissions@.len() as int + 1,
            event_id,
            name,
            description,
            thumbnail,
            git,
            live_url,
            video_url,
            submit_by,
        ) && final(store).submissions@ == old(store).submissions@.push(s),
        r is Err ==> final(store).submissions@ == old(store).submissions@,
        r matches Err(e) ==> e.kind == draft_error_kind(
            old(store).tables_ready,
            old(store).users@,
            old(store).events@,
            submit_by@,
            event_id as int,
        ) && e.message@ == draft_error_message(
            old(store).tables_ready,
            old(store).users@,
            old(store).events@,
            submit_by@,
            event_id as int,
        ),
{
    match crate::user::get_user(store, submit_by.clone()) {
        Ok(_) => {},
        Err(e) => {
            if e.kind == ErrorKind::Storage {
                return Err(e);
            }
            return Err(StoreError::new(ErrorKind::Validation, "unknown participant"));
        },
    }
    match crate::event::get_event(store, event_id) {
        Ok(_) => {},
        Err(_) => {
            return Err(StoreError::new(ErrorKind::Validation, "unknown event"));
        },
    }
    match crate::submission::get_user_submission_for_event(store, submit_by.clone(), event_id) {
        Ok(_) => {
            return Err(StoreError::new(ErrorKind::Conflict, "already submitted"));
        },
        Err(_) => {},
    }
    crate::submission::add_submission(
        store,
        event_id,
        name,
        description,
        thumbnail,
        git,
        live_url,
        video_url,
        submit_by,
    )
}

/// Drafts a submission: a flattened `draft_submission`.
pub fn draft(
    store: &mut Store,
    event_id: i64,
    name: String,
    description: String,
    thumbnail: String,
    git: String,
    live_url: String,
    video_url: String,
    submit_by: String,
) -> (r: Submission)
    requires
        old(store).wf(),
        old(store).submissions@.len() < MAX_ROWS,
    ensures
        final(store).wf(),
        final(store).tables_ready == old(store).tables_ready,
        final(store).team_table_ready == old(store).team_table_ready,
        final(store).users@ == old(store).users@,
        final(store).events@ == old(store).events@,
        r.success <==> draft_allowed(
            old(store).tables_ready,
            old(store).users@,
            old(store).events@,
            old(store).submissions@,
            submit_by@,
            event_id as int,
        ),
        r.success ==> submission_added(
            r,
            old(store).submissions@.len() as int + 1,
            event_id,
            name,
            description,
            thumbnail,
            git,
            live_url,
            video_url,
            submit_by,
        ) && final(store).submissions@ == old(store).submissions@.push(r),
        !r.success ==> final(store).submissions@ == old(store).submissions@ && submission_failed(
            r,
            draft_error_message(
                old(store).tables_ready,
                old(store).users@,
                old(store).events@,
                submit_by@,
                event_id as int,
            ),
        ),
{
    let res = draft_submission(
        store,
        event_id,
        name,
        description,
        thumbnail,
        git,
        live_url,
        video_url,
        submit_by,
    );
    Submission::from_res(res)
}

/// Replaces a submission's content fields while it is still a Draft. On a
/// Submitted row the call performs no write and reports success with the
/// stored row unchanged — the silent variant of the status gate, chosen here
/// over an explicit conflict. Fails only when the identifier names no row.
pub fn update_submission(
    store: &mut Store,
    id: i64,
    name: String,
    description: String,
    thumbnail: String,
    git: String,
    live_url: String,
    video_url: String,
) -> (r: Submission)
    requires
        old(store).wf(),
    ensures
        final(store).wf(),
        final(store).tables_ready == old(store).tables_ready,
        final(store).team_table_ready == old(store).team_table_ready,
        final(store).users@ == old(store).users@,
        final(store).events@ == old(store).events@,
        r.success <==> old(store).tables_ready && valid_submission_id(
            old(store).submissions@,
            id as int,
        ),
        (r.success && old(store).submissions@[id - 1].status == SUBMISSION_DRAFT)
            ==> submission_updated(
            r,
            old(store).submissions@[id - 1],
            name,
            description,
            thumbnail,
            git,
            live_url,
            video_url,
        ) && final(store).submissions@ == old(store).submissions@.update(id - 1, r),
        (r.success && old(store).submissions@[id - 1].status != SUBMISSION_DRAFT) ==> r == old(store).submissions@[id - 1] && final(store).submissions@ == old(store).submissions@,
        !r.success ==> final(store).submissions@ == old(store).submissions@ && submission_failed(
            r,
            lookup_error_message(old(store).tables_ready),
        ),
{
    let current = match crate::submission::get_submission(store, id) {
        Ok(s) => s,
        Err(e) => {
            return Submission::from_res(Err(e));
        },
    };
    if current.status == SUBMISSION_DRAFT {
        let res = crate::submission::update_submission(
            store,
            id,
            name,
            description,
            thumbnail,
            git,
            live_url,
            video_url,
        );
        Submission::from_res(res)
    } else {
        current
    }
}

/// Marks a submission Submitted: a flattened
/// `crate::submission::submit_submission`. Submitting again is a no-op that
/// still succeeds.
pub fn submit(store: &mut Store, id: i64) -> (r: Submission)
    requires
        old(store).wf(),
    ensures
        final(store).wf(),
        final(store).tables_ready == old(store).tables_ready,
        final(store).team_table_ready == old(store).team_table_ready,
        final(store).users@ == old(store).users@,
        final(store).events@ == old(store).events@,
        r.success <==> old(store).tables_ready && valid_submission_id(
            old(store).submissions@,
            id as int,
        ),
        r.success ==> r == submission_submitted(old(store).submissions@[id - 1])
            && final(store).submissions@ == old(store).submissions@.update(id - 1, r),
        !r.success ==> final(store).submissions@ == old(store).submissions@ && submission_failed(
            r,
            lookup_error_message(old(store).tables_ready),
        ),
{
    let res = crate::submission::submit_submission(store, id);
    Submission::from_res(res)
}

/// Reads a submission by identifier: a flattened
/// `crate::submission::get_submission`.
pub fn get_submission(store: &Store, id: i64) -> (r: Submission)
    requires
        store.wf(),
    ensures
        r.success <==> store.tables_ready && valid_submission_id(store.submissions@, id as int),
        r.success ==> r == store.submissions@[id - 1],
        !r.success ==> submission_failed(r, lookup_error_message(store.tables_ready)),
{
    let res = crate::submission::get_submission(store, id);
    Submission::from_res(res)
}

/// Reads the one submission a participant holds for an event: a flattened
/// `crate::submission::get_user_submission_for_event`.
pub fn get_user_event_submission(store: &Store, address: String, event_id: i64) -> (r: Submission)
    requires
        store.wf(),
    ensures
        r.success <==> store.tables_ready && has_pair(store.submissions@, address@, event_id as int),
        r.success ==> r == store.submissions@[crate::submission::pair_index(
            store.submissions@,
            address@,
            event_id as int,
        )],
        !r.success ==> submission_failed(r, lookup_error_message(store.tables_ready)),
{
    let res = crate::submission::get_user_submission_for_event(store, address, event_id);
    Submission::from_res(res)
}

/// Every submission; an empty list where the tables are absent.
pub fn get_submissions(store: &Store) -> (r: Vec<Submission>)
    requires
        store.wf(),
    ensures
        store.tables_ready ==> r@ == store.submissions@,
        !store.tables_ready ==> r@ == Seq::<Submission>::empty(),
{
    match crate::submission::get_submissions(store) {
        Ok(v) => v,
        Err(_) => Vec::new(),
    }
}

/// Every submission belonging to one event; an empty list where the tables
/// are absent.
pub fn get_event_submissions(store: &Store, event_id: i64) -> (r: Vec<Submission>)
    requires
        store.wf(),
    ensures
        store.tables_ready ==> r@ == submissions_for_event(store.submissions@, event_id as int),
        !store.tables_ready ==> r@ == Seq::<Submission>::empty(),
{
    match crate::submission::get_submissions_by_event(store, event_id) {
        Ok(v) => v,
        Err(_) => Vec::new(),
    }
}

/// Adds an event: a flattened `crate::event::add_event`.
pub fn add_event(
    store: &mut Store,
    title: String,
    event_type: String,
    start_date: String,
    end_date: String,
    logo: String,
) -> (r: Event)
    requires
        old(store).wf(),
        old(store).events@.len() < MAX_ROWS,
    ensures
        final(store).wf(),
        final(store).tables_ready == old(store).tables_ready,
        final(store).team_table_ready == old(store).team_table_ready,
        final(store).users@ == old(store).users@,
        final(store).submissions@ == old(store).submissions@,
        r.success <==> old(store).tables_ready,
        r.success ==> event_added(
            r,
            old(store).events@.len() as int + 1,
            title,
            event_type,
            start_date,
            end_date,
            logo,
        ) && final(store).events@ == old(store).events@.push(r),
        !r.success ==> final(store).events@ == old(store).events@ && event_failed(
            r,
            "no such table"@,
        ),
{
    let res = crate::event::add_event(store, title, event_type, start_date, end_date, logo);
    Event::from_res(res)
}

/// Replaces an event's mutable fields: a flattened
/// `crate::event::update_event`.
pub fn update_event(
    store: &mut Store,
    id: i64,
    title: String,
    event_type: String,
    start_date: String,
    end_date: String,
    logo: String,
) -> (r: Event)
    requires
        old(store).wf(),
    ensures
        final(store).wf(),
        final(store).tables_ready == old(store).tables_ready,
        final(store).team_table_ready == old(store).team_table_ready,
        final(store).users@ == old(store).users@,
        final(store).submissions@ == old(store).submissions@,
        r.success <==> old(store).tables_ready && valid_event_id(old(store).events@, id as int),
        r.success ==> event_updated(
            r,
            old(store).events@[id - 1],
            title,
            event_type,
            start_date,
            end_date,
            logo,
        ) && final(store).events@ == old(store).events@.update(id - 1, r),
        !r.success ==> final(store).events@ == old(store).events@ && event_failed(
            r,
            lookup_error_message(old(store).tables_ready),
        ),
{
    let res = crate::event::update_event(store, id, title, event_type, start_date, end_date, logo);
    Event::from_res(res)
}

/// Closes an event: a flattened `crate::event::close_event`. Closing again
/// is a no-op that still succeeds.
pub fn close_event(store: &mut Store, id: i64) -> (r: Event)
    requires
        old(store).wf(),
    ensures
        final(store).wf(),
        final(store).tables_ready == old(store).tables_ready,
        final(store).team_table_ready == old(store).team_table_ready,
        final(store).users@ == old(store).users@,
        final(store).submissions@ == old(store).submissions@,
        r.success <==> old(store).tables_ready && valid_event_id(old(store).events@, id as int),
        r.success ==> r == event_closed(old(store).events@[id - 1]) && final(store).events@ == old(store).events@.update(id - 1, r),
        !r.success ==> final(store).events@ == old(store).events@ && event_failed(
            r,
            lookup_error_message(old(store).tables_ready),
        ),
{
    let res = crate::event::close_event(store, id);
    Event::from_res(res)
}

/// Reads an event by identifier: a flattened `crate::event::get_event`.
pub fn get_event(store: &Store, id: i64) -> (r: Event)
    requires
        store.wf(),
    ensures
        r.success <==> store.tables_ready && valid_event_id(store.events@, id as int),
        r.success ==> r == store.events@[id - 1],
        !r.success ==> event_failed(r, lookup_error_message(store.tables_ready)),
{
    let res = crate::event::get_event(store, id);
    Event::from_res(res)
}

/// Every event; an empty list where the tables are absent.
pub fn get_events(store: &Store) -> (r: Vec<Event>)
    requires
        store.wf(),
    ensures
        store.tables_ready ==> r@ == store.events@,
        !store.tables_ready ==> r@ == Seq::<Event>::empty(),
{
    match crate::event::get_events(store) {
        Ok(v) => v,
        Err(_) => Vec::new(),
    }
}

/// Every Open event; an empty list where the tables are absent.
pub fn get_live_events(store: &Store) -> (r: Vec<Event>)
    requires
        store.wf(),
    ensures
        store.tables_ready ==> r@ == live_events(store.events@),
        !store.tables_ready ==> r@ == Seq::<Event>::empty(),
{
    match crate::event::get_live_events(store) {
        Ok(v) => v,
        Err(_) => Vec::new(),
    }
}

/// One submission per participant and event: once a draft stored its row, a
/// second draft for the same pair cannot succeed — whatever its project
/// fields — and reports the conflict.
pub proof fn lemma_one_submission_per_event(
    users: Seq<User>,
    events: Seq<Event>,
    subs: Seq<Submission>,
    s: Submission,
)
    requires
        has_user(users, s.submit_by@),
        valid_event_id(events, s.event_id as int),
    ensures
        !draft_allowed(true, users, events, subs.push(s), s.submit_by@, s.event_id as int),
        draft_error_kind(true, users, events, s.submit_by@, s.event_id as int)
            == ErrorKind::Conflict,
        draft_error_message(true, users, events, s.submit_by@, s.event_id as int)
            == "already submitted"@,
{
    let subs2 = subs.push(s);
    assert(subs2[subs.len() as int] == s);
    assert(has_pair(subs2, s.submit_by@, s.event_id as int));
}

} // verus!
