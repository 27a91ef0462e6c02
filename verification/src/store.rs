//! The relational store: four tables behind one handle.
//!
//! A `Store` value models the persistent state the service works against:
//! whether the schema exists, and the rows of the participants, events and
//! submissions tables. The team table carries no in-scope reads or writes, so
//! only its existence is modelled. `wf` is the store's invariant; every
//! operation of the library requires it and hands it back.

use vstd::prelude::*;

use crate::error::StoreError;
use crate::event::Event;
use crate::event::events_wf;
use crate::submission::Submission;
use crate::submission::submissions_wf;
use crate::user::User;
use crate::user::users_wf;

verus! {

/// Identifiers are handed out consecutively from one, so a table can never
/// hold more rows than the largest identifier.
pub const MAX_ROWS: u64 = 0x7fff_ffff_ffff_ffff;

/// The persistent state of the service.
pub struct Store {
    /// The participants, events and submissions tables exist.
    pub tables_ready: bool,
    /// The team table exists; a reset leaves it standing.
    pub team_table_ready: bool,
    pub users: Vec<User>,
    pub events: Vec<Event>,
    pub submissions: Vec<Submission>,
}

impl Store {
    /// The store's invariant: absent tables hold no rows, keys are unique,
    /// identifiers are consecutive, statuses are legal, and at most one
    /// submission exists per participant and event.
    pub open spec fn wf(&self) -> bool {
        &&& !self.tables_ready ==> self.users@.len() == 0 && self.events@.len() == 0
            && self.submissions@.len() == 0
        &&& users_wf(self.users@)
        &&& events_wf(self.events@)
        &&& submissions_wf(self.submissions@)
    }

    /// A handle on a store nothing was ever written to: no schema, no rows.
    pub fn new() -> (s: Store)
        ensures
            s.wf(),
            !s.tables_ready,
            !s.team_table_ready,
            s.users@ == Seq::<User>::empty(),
            s.events@ == Seq::<Event>::empty(),
            s.submissions@ == Seq::<Submission>::empty(),
    {
        let s = Store {
            tables_ready: false,
            team_table_ready: false,
            users: Vec::new(),
            events: Vec::new(),
            submissions: Vec::new(),
        };
        proof {
            assert(s.users@ =~= Seq::<User>::empty());
            assert(s.events@ =~= Seq::<Event>::empty());
            assert(s.submissions@ =~= Seq::<Submission>::empty());
        }
        s
    }
}

/// Creates the four tables where they are absent. Idempotent: existing rows
/// are untouched, and creating an existing schema succeeds.
pub fn create_tables(store: &mut Store) -> (r: Result<(), StoreError>)
    requires
        old(store).wf(),
    ensures
        final(store).wf(),
        r is Ok,
        final(store).tables_ready,
        final(store).team_table_ready,
        final(store).users@ == old(store).users@,
        final(store).events@ == old(store).events@,
        final(store).submissions@ == old(store).submissions@,
{
    store.tables_ready = true;
    store.team_table_ready = true;
    Ok(())
}

/// Drops the submissions, events and participants tables with their rows.
/// The team table is left standing, an asymmetry kept on purpose.
/// Destructive and irreversible.
pub fn delete_tables(store: &mut Store) -> (r: Result<(), StoreError>)
    requires
        old(store).wf(),
    ensures
        final(store).wf(),
        r is Ok,
        !final(store).tables_ready,
        final(store).team_table_ready == old(store).team_table_ready,
        final(store).users@ == Seq::<User>::empty(),
        final(store).events@ == Seq::<Event>::empty(),
        final(store).submissions@ == Seq::<Submission>::empty(),
{
    store.submissions.clear();
    store.events.clear();
    store.users.clear();
    store.tables_ready = false;
    proof {
        assert(store.users@ =~= Seq::<User>::empty());
        assert(store.events@ =~= Seq::<Event>::empty());
        assert(store.submissions@ =~= Seq::<Submission>::empty());
    }
    Ok(())
}

} // verus!
