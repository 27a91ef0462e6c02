//! Events: time-boxed competitions that accept submissions while Open.

use vstd::prelude::*;

use crate::column::ColumnValue;
use crate::column::text_column;
use crate::column::text_or_empty;
use crate::error::ErrorKind;
use crate::error::StoreError;
use crate::error::get_none_error;
use crate::error::lookup_error_kind;
use crate::error::lookup_error_message;
use crate::store::MAX_ROWS;
use crate::store::Store;

verus! {

/// An event accepts submissions.
pub const EVENT_OPEN: i64 = 1;

/// An event stopped accepting submissions; the transition is one-way.
pub const EVENT_CLOSED: i64 = 2;

/// An event row, together with the flattened response fields `err_msg` and
/// `success` that the boundary layer expects on every reply.
#[derive(Debug, PartialEq)]
pub struct Event {
    pub id: i64,
    pub title: String,
    pub event_type: String,
    pub start_date: String,
    pub end_date: String,
    pub logo: String,
    pub status: i64,
    pub err_msg: String,
    pub success: bool,
}

/// `id` names a row of the events table: identifiers are handed out
/// consecutively from one, so row `id - 1` is the one it names.
pub open spec fn valid_event_id(events: Seq<Event>, id: int) -> bool {
    1 <= id <= events.len()
}

/// A stored row never carries a failure marker.
pub open spec fn event_row_clean(e: Event) -> bool {
    e.success && e.err_msg@ == Seq::<char>::empty()
}

/// Well-formedness of the events table: the identifier of row `i` is `i + 1`
/// (auto-increment, never reused), the status is Open or Closed, and rows
/// are clean.
pub open spec fn events_wf(events: Seq<Event>) -> bool {
    forall|i: int| 0 <= i < events.len() ==> {
        &&& (#[trigger] events[i]).id == i + 1
        &&& (events[i].status == EVENT_OPEN || events[i].status == EVENT_CLOSED)
        &&& event_row_clean(events[i])
    }
}

/// The row a fresh event stores: the supplied fields, status Open.
pub open spec fn event_added(
    e: Event,
    id: int,
    title: String,
    event_type: String,
    start_date: String,
    end_date: String,
    logo: String,
) -> bool {
    &&& e.id == id
    &&& e.title == title
    &&& e.event_type == event_type
    &&& e.start_date == start_date
    &&& e.end_date == end_date
    &&& e.logo == logo
    &&& e.status == EVENT_OPEN
    &&& event_row_clean(e)
}

/// The row an event update stores: identifier and status kept, every mutable
/// field replaced by the supplied value.
pub open spec fn event_updated(
    e: Event,
    prev: Event,
    title: String,
    event_type: String,
    start_date: String,
    end_date: String,
    logo: String,
) -> bool {
    &&& e.id == prev.id
    &&& e.title == title
    &&& e.event_type == event_type
    &&& e.start_date == start_date
    &&& e.end_date == end_date
    &&& e.logo == logo
    &&& e.status == prev.status
    &&& event_row_clean(e)
}

/// The row `close` leaves behind: everything kept but the status, which is
/// Closed whatever it was before.
pub open spec fn event_closed(prev: Event) -> Event {
    Event { status: EVENT_CLOSED, ..prev }
}

/// The flattened failure reply: every entity field zero-valued, the message
/// in `err_msg`, `success` false.
pub open spec fn event_failed(e: Event, msg: Seq<char>) -> bool {
    &&& e.id == 0
    &&& e.title@ == Seq::<char>::empty()
    &&& e.event_type@ == Seq::<char>::empty()
    &&& e.start_date@ == Seq::<char>::empty()
    &&& e.end_date@ == Seq::<char>::empty()
    &&& e.logo@ == Seq::<char>::empty()
    &&& e.status == 0
    &&& e.err_msg@ == msg
    &&& !e.success
}

impl Default for Event {
    /// The zero-valued event reply.
    fn default() -> (r: Event)
        ensures
            event_failed(r, Seq::<char>::empty()),
    {
        Event {
            id: 0,
            title: String::new(),
            event_type: String::new(),
            start_date: String::new(),
            end_date: String::new(),
            logo: String::new(),
            status: 0,
            err_msg: String::new(),
            success: false,
        }
    }
}

impl Event {
    /// An exact copy of the row.
    pub fn duplicate(&self) -> (r: Event)
        ensures
            r == *self,
    {
        Event {
            id: self.id,
            title: self.title.clone(),
            event_type: self.event_type.clone(),
            start_date: self.start_date.clone(),
            end_date: self.end_date.clone(),
            logo: self.logo.clone(),
            status: self.status,
            err_msg: self.err_msg.clone(),
            success: self.success,
        }
    }

    /// Decodes a fetched row in the events table's layout — identifier,
    /// type, title, start date, end date, logo, status. The identifier,
    /// type, title and status columns must hold their value; a missing date
    /// or logo decodes to an empty string.
    pub fn from_row(row: &[ColumnValue]) -> (r: Result<Event, StoreError>)
        requires
            row@.len() >= 7,
        ensures
            r is Ok <==> (row@[0] is Integer && row@[1] is Text && row@[2] is Text
                && row@[6] is Integer),
            r matches Ok(e) ==> {
                &&& e.id == row@[0]->Integer_0
                &&& e.event_type == row@[1]->Text_0
                &&& e.title == row@[2]->Text_0
                &&& text_or_empty(row@[3], e.start_date)
                &&& text_or_empty(row@[4], e.end_date)
                &&& text_or_empty(row@[5], e.logo)
                &&& e.status == row@[6]->Integer_0
                &&& event_row_clean(e)
            },
            r matches Err(e) ==> e.kind == ErrorKind::NotFound && e.message@
                == "Value doesn't exist"@,
    {
        let id = match &row[0] {
            ColumnValue::Integer(v) => *v,
            _ => { return Err(get_none_error()); },
        };
        let event_type = match &row[1] {
            ColumnValue::Text(s) => s.clone(),
            _ => { return Err(get_none_error()); },
        };
        let title = match &row[2] {
            ColumnValue::Text(s) => s.clone(),
            _ => { return Err(get_none_error()); },
        };
        let status = match &row[6] {
            ColumnValue::Integer(v) => *v,
            _ => { return Err(get_none_error()); },
        };
        let event = Event {
            id,
            title,
            event_type,
            start_date: text_column(&row[3]),
            end_date: text_column(&row[4]),
            logo: text_column(&row[5]),
            status,
            err_msg: String::new(),
            success: true,
        };
        Ok(event)
    }

    /// Flattens a repository result into the uniform reply shape.
    pub fn from_res(res: Result<Event, StoreError>) -> (r: Event)
        ensures
            res matches Ok(e) ==> r == e,
            res matches Err(e) ==> event_failed(r, e.message@),
    {
        match res {
            Ok(v) => v,
            Err(e) => {
                let mut res_event = Event::default();
                res_event.err_msg = e.message;
                res_event.success = false;
                res_event
            },
        }
    }
}

/// All events, restricted to those with status Open, in stored order.
pub open spec fn live_events(events: Seq<Event>) -> Seq<Event>
    decreases events.len(),
{
    if events.len() == 0 {
        Seq::empty()
    } else {
        let rest = live_events(events.drop_last());
        if events.last().status == EVENT_OPEN {
            rest.push(events.last())
        } else {
            rest
        }
    }
}

/// Appending a row extends the live restriction by that row exactly when the
/// row is Open.
proof fn lemma_live_events_push(events: Seq<Event>, e: Event)
    ensures
        live_events(events.push(e)) == if e.status == EVENT_OPEN {
            live_events(events).push(e)
        } else {
            live_events(events)
        },
{
    assert(events.push(e).drop_last() =~= events);
    assert(events.push(e).last() == e);
}

/// Checks that `id` names a row, under the consecutive-identifier invariant.
fn event_row_index(events: &Vec<Event>, id: i64) -> (r: Option<usize>)
    requires
        events_wf(events@),
    ensures
        match r {
            Some(i) => valid_event_id(events@, id as int) && i as int == id - 1,
            None => !valid_event_id(events@, id as int),
        },
{
    if 1 <= id && id as u64 <= events.len() as u64 {
        Some((id - 1) as usize)
    } else {
        None
    }
}

/// Inserts a new event with the next identifier and status Open.
pub fn add_event(
    store: &mut Store,
    title: String,
    event_type: String,
    start_date: String,
    end_date: String,
    logo: String,
) -> (r: Result<Event, StoreError>)
    requires
        old(store).wf(),
        old(store).events@.len() < MAX_ROWS,
    ensures
        final(store).wf(),
        final(store).tables_ready == old(store).tables_ready,
        final(store).team_table_ready == old(store).team_table_ready,
        final(store).users@ == old(store).users@,
        final(store).submissions@ == old(store).submissions@,
        r is Ok <==> old(store).tables_ready,
        r matches Ok(e) ==> event_added(
            e,
            old(store).events@.len() as int + 1,
            title,
            event_type,
            start_date,
            end_date,
            logo,
        ) && final(store).events@ == old(store).events@.push(e),
        r is Err ==> final(store).events@ == old(store).events@,
        r matches Err(e) ==> e.kind == ErrorKind::Storage && e.message@ == "no such table"@,
{
    if !store.tables_ready {
        return Err(StoreError::new(ErrorKind::Storage, "no such table"));
    }
    let id = store.events.len() as i64 + 1;
    let event = Event {
        id,
        title,
        event_type,
        start_date,
        end_date,
        logo,
        status: EVENT_OPEN,
        err_msg: String::new(),
        success: true,
    };
    let stored = event.duplicate();
    let ghost events0 = store.events@;
    store.events.push(stored);
    proof {
        assert(store.events@ =~= events0.push(event));
    }
    Ok(event)
}

/// Replaces every mutable field of the event with the supplied values,
/// whatever its status; identifier and status are kept. Fails with a
/// not-found error when the identifier names no row.
pub fn update_event(
    store: &mut Store,
    id: i64,
    title: String,
    event_type: String,
    start_date: String,
    end_date: String,
    logo: String,
) -> (r: Result<Event, StoreError>)
    requires
        old(store).wf(),
    ensures
        final(store).wf(),
        final(store).tables_ready == old(store).tables_ready,
        final(store).team_table_ready == old(store).team_table_ready,
        final(store).users@ == old(store).users@,
        final(store).submissions@ == old(store).submissions@,
        r is Ok <==> old(store).tables_ready && valid_event_id(old(store).events@, id as int),
        r matches Ok(e) ==> event_updated(
            e,
            old(store).events@[id - 1],
            title,
            event_type,
            start_date,
            end_date,
            logo,
        ) && final(store).events@ == old(store).events@.update(id - 1, e),
        r is Err ==> final(store).events@ == old(store).events@,
        r matches Err(e) ==> e.kind == lookup_error_kind(old(store).tables_ready) && e.message@
            == lookup_error_message(old(store).tables_ready),
{
    if !store.tables_ready {
        return Err(StoreError::new(ErrorKind::Storage, "no such table"));
    }
    match event_row_index(&store.events, id) {
        Some(i) => {
            let ghost events0 = store.events@;
            let prev = store.events.remove(i);
            let updated = Event {
                id: prev.id,
                title,
                event_type,
                start_date,
                end_date,
                logo,
                status: prev.status,
                err_msg: String::new(),
                success: true,
            };
            let stored = updated.duplicate();
            store.events.insert(i, stored);
            proof {
                assert(store.events@ =~= events0.update(i as int, updated));
            }
            Ok(updated)
        },
        None => Err(get_none_error()),
    }
}

/// Sets the event's status to Closed, whatever it was: closing an already
/// closed event succeeds and changes nothing. Fails with a not-found error
/// when the identifier names no row.
pub fn close_event(store: &mut Store, id: i64) -> (r: Result<Event, StoreError>)
    requires
        old(store).wf(),
    ensures
        final(store).wf(),
        final(store).tables_ready == old(store).tables_ready,
        final(store).team_table_ready == old(store).team_table_ready,
        final(store).users@ == old(store).users@,
        final(store).submissions@ == old(store).submissions@,
        r is Ok <==> old(store).tables_ready && valid_event_id(old(store).events@, id as int),
        r matches Ok(e) ==> e == event_closed(old(store).events@[id - 1]) && final(store).events@
            == old(store).events@.update(id - 1, e),
        r is Err ==> final(store).events@ == old(store).events@,
        r matches Err(e) ==> e.kind == lookup_error_kind(old(store).tables_ready) && e.message@
            == lookup_error_message(old(store).tables_ready),
{
    if !store.tables_ready {
        return Err(StoreError::new(ErrorKind::Storage, "no such table"));
    }
    match event_row_index(&store.events, id) {
        Some(i) => {
            let ghost events0 = store.events@;
            let prev = store.events.remove(i);
            let closed = Event {
                id: prev.id,
                title: prev.title,
                event_type: prev.event_type,
                start_date: prev.start_date,
                end_date: prev.end_date,
                logo: prev.logo,
                status: EVENT_CLOSED,
                err_msg: prev.err_msg,
                success: prev.success,
            };
            let stored = closed.duplicate();
            store.events.insert(i, stored);
            proof {
                assert(store.events@ =~= events0.update(i as int, closed));
            }
            Ok(closed)
        },
        None => Err(get_none_error()),
    }
}

/// Looks an event up by identifier; fails with a not-found error when the
/// identifier names no row.
pub fn get_event(store: &Store, id: i64) -> (r: Result<Event, StoreError>)
    requires
        store.wf(),
    ensures
        r is Ok <==> store.tables_ready && valid_event_id(store.events@, id as int),
        r matches Ok(e) ==> e == store.events@[id - 1],
        r matches Err(e) ==> e.kind == lookup_error_kind(store.tables_ready) && e.message@
            == lookup_error_message(store.tables_ready),
{
    if !store.tables_ready {
        return Err(StoreError::new(ErrorKind::Storage, "no such table"));
    }
    match event_row_index(&store.events, id) {
        Some(i) => Ok(store.events[i].duplicate()),
        None => Err(get_none_error()),
    }
}

/// Every event, in stored order.
pub fn get_events(store: &Store) -> (r: Result<Vec<Event>, StoreError>)
    requires
        store.wf(),
    ensures
        r is Ok <==> store.tables_ready,
        r matches Ok(v) ==> v@ == store.events@,
        r matches Err(e) ==> e.kind == ErrorKind::Storage && e.message@ == "no such table"@,
{
    if !store.tables_ready {
        return Err(StoreError::new(ErrorKind::Storage, "no such table"));
    }
    let mut out: Vec<Event> = Vec::new();
    let mut i: usize = 0;
    while i < store.events.len()
        invariant
            i <= store.events@.len(),
            out@ == store.events@.take(i as int),
        decreases store.events@.len() - i,
    {
        out.push(store.events[i].duplicate());
        proof {
            assert(store.events@.take(i + 1) =~= store.events@.take(i as int).push(
                store.events@[i as int],
            ));
        }
        i += 1;
    }
    proof {
        assert(store.events@.take(store.events@.len() as int) =~= store.events@);
    }
    Ok(out)
}

/// Every event whose status is Open, in stored order.
pub fn get_live_events(store: &Store) -> (r: Result<Vec<Event>, StoreError>)
    requires
        store.wf(),
    ensures
        r is Ok <==> store.tables_ready,
        r matches Ok(v) ==> v@ == live_events(store.events@),
        r matches Err(e) ==> e.kind == ErrorKind::Storage && e.message@ == "no such table"@,
{
    if !store.tables_ready {
        return Err(StoreError::new(ErrorKind::Storage, "no such table"));
    }
    let mut out: Vec<Event> = Vec::new();
    let mut i: usize = 0;
    while i < store.events.len()
        invariant
            i <= store.events@.len(),
            out@ == live_events(store.events@.take(i as int)),
        decreases store.events@.len() - i,
    {
        if store.events[i].status == EVENT_OPEN {
            out.push(store.events[i].duplicate());
        }
        proof {
            assert(store.events@.take(i + 1) =~= store.events@.take(i as int).push(
                store.events@[i as int],
            ));
            lemma_live_events_push(store.events@.take(i as int), store.events@[i as int]);
        }
        i += 1;
    }
    proof {
        assert(store.events@.take(store.events@.len() as int) =~= store.events@);
    }
    Ok(out)
}

/// Round trip of an insert: under the identifier the insert assigned, the
/// lookup finds the stored row, field for field.
pub proof fn lemma_add_event_read_back(events: Seq<Event>, e: Event)
    requires
        e.id == events.len() + 1,
    ensures
        valid_event_id(events.push(e), e.id as int),
        events.push(e)[e.id - 1] == e,
{
}

/// Closing is idempotent: a second close of the same event finds the same
/// table shape (so it succeeds exactly when the first did) and leaves the
/// table exactly as the first close left it, with the row's status Closed.
pub proof fn lemma_close_idempotent(events: Seq<Event>, id: int)
    requires
        valid_event_id(events, id),
    ensures
        valid_event_id(events.update(id - 1, event_closed(events[id - 1])), id),
        events.update(id - 1, event_closed(events[id - 1])).update(
            id - 1,
            event_closed(events.update(id - 1, event_closed(events[id - 1]))[id - 1]),
        ) == events.update(id - 1, event_closed(events[id - 1])),
        events.update(id - 1, event_closed(events[id - 1]))[id - 1].status == EVENT_CLOSED,
{
    let once = events.update(id - 1, event_closed(events[id - 1]));
    assert(once[id - 1] == event_closed(events[id - 1]));
    assert(event_closed(once[id - 1]) == once[id - 1]);
    assert(once.update(id - 1, event_closed(once[id - 1])) =~= once);
}

} // verus!
