//! Participants: a registered individual identified by a unique address and a
//! unique email.

use vstd::prelude::*;

use crate::column::ColumnValue;
use crate::column::int_or_zero;
use crate::column::integer_column;
use crate::column::text_column;
use crate::column::text_or_empty;
use crate::error::ErrorKind;
use crate::error::StoreError;
use crate::error::get_none_error;
use crate::error::lookup_error_kind;
use crate::error::lookup_error_message;
use crate::store::Store;

verus! {

/// A participant row, together with the flattened response fields `err_msg`
/// and `success` that the boundary layer expects on every reply.
#[derive(Debug, PartialEq)]
pub struct User {
    pub near_address: String,
    pub email: String,
    pub first_name: String,
    pub last_name: String,
    pub is_student: i64,
    pub country: String,
    pub git_handler: String,
    pub linkedin_handler: String,
    pub twitter_handler: String,
    pub err_msg: String,
    pub success: bool,
}

/// Some row of `users` carries this address.
pub open spec fn has_user(users: Seq<User>, addr: Seq<char>) -> bool {
    exists|i: int| 0 <= i < users.len() && users[i].near_address@ == addr
}

/// The index of the row carrying this address; meaningful only under
/// `has_user`, and unique under `users_wf`.
pub open spec fn user_index(users: Seq<User>, addr: Seq<char>) -> int {
    choose|i: int| 0 <= i < users.len() && users[i].near_address@ == addr
}

/// Some row of `users` carries this email.
pub open spec fn has_email(users: Seq<User>, email: Seq<char>) -> bool {
    exists|i: int| 0 <= i < users.len() && users[i].email@ == email
}

/// A stored row never carries a failure marker.
pub open spec fn user_row_clean(u: User) -> bool {
    u.success && u.err_msg@ == Seq::<char>::empty()
}

/// Well-formedness of the participants table: rows are clean, and both the
/// address column and the email column are unique.
pub open spec fn users_wf(users: Seq<User>) -> bool {
    &&& forall|i: int| 0 <= i < users.len() ==> user_row_clean(#[trigger] users[i])
    &&& forall|i: int, j: int|
        #![trigger users[i], users[j]]
        0 <= i < j < users.len() ==> users[i].near_address@ != users[j].near_address@
            && users[i].email@ != users[j].email@
}

/// The row a fresh registration stores: the supplied keys, and every
/// optional profile field at its zero value.
pub open spec fn user_registered(u: User, near_address: String, email: String) -> bool {
    &&& u.near_address == near_address
    &&& u.email == email
    &&& u.first_name@ == Seq::<char>::empty()
    &&& u.last_name@ == Seq::<char>::empty()
    &&& u.is_student == 0
    &&& u.country@ == Seq::<char>::empty()
    &&& u.git_handler@ == Seq::<char>::empty()
    &&& u.linkedin_handler@ == Seq::<char>::empty()
    &&& u.twitter_handler@ == Seq::<char>::empty()
    &&& user_row_clean(u)
}

/// The row a profile update stores: keys kept, every mutable profile field
/// replaced by the supplied value.
pub open spec fn user_profile_updated(
    u: User,
    prev: User,
    first_name: String,
    last_name: String,
    is_student: u8,
    country: String,
    git: String,
    linkedin: String,
    twitter: String,
) -> bool {
    &&& u.near_address == prev.near_address
    &&& u.email == prev.email
    &&& u.first_name == first_name
    &&& u.last_name == last_name
    &&& u.is_student == is_student as i64
    &&& u.country == country
    &&& u.git_handler == git
    &&& u.linkedin_handler == linkedin
    &&& u.twitter_handler == twitter
    &&& user_row_clean(u)
}

/// The flattened failure reply: every entity field zero-valued, the message
/// in `err_msg`, `success` false.
pub open spec fn user_failed(u: User, msg: Seq<char>) -> bool {
    &&& u.near_address@ == Seq::<char>::empty()
    &&& u.email@ == Seq::<char>::empty()
    &&& u.first_name@ == Seq::<char>::empty()
    &&& u.last_name@ == Seq::<char>::empty()
    &&& u.is_student == 0
    &&& u.country@ == Seq::<char>::empty()
    &&& u.git_handler@ == Seq::<char>::empty()
    &&& u.linkedin_handler@ == Seq::<char>::empty()
    &&& u.twitter_handler@ == Seq::<char>::empty()
    &&& u.err_msg@ == msg
    &&& !u.success
}

impl Default for User {
    /// The zero-valued participant reply.
    fn default() -> (r: User)
        ensures
            user_failed(r, Seq::<char>::empty()),
    {
        User {
            near_address: String::new(),
            email: String::new(),
            first_name: String::new(),
            last_name: String::new(),
            is_student: 0,
            country: String::new(),
            git_handler: String::new(),
            linkedin_handler: String::new(),
            twitter_handler: String::new(),
            err_msg: String::new(),
            success: false,
        }
    }
}

impl User {
    /// An exact copy of the row.
    pub fn duplicate(&self) -> (r: User)
        ensures
            r == *self,
    {
        User {
            near_address: self.near_address.clone(),
            email: self.email.clone(),
            first_name: self.first_name.clone(),
            last_name: self.last_name.clone(),
            is_student: self.is_student,
            country: self.country.clone(),
            git_handler: self.git_handler.clone(),
            linkedin_handler: self.linkedin_handler.clone(),
            twitter_handler: self.twitter_handler.clone(),
            err_msg: self.err_msg.clone(),
            success: self.success,
        }
    }

    /// Decodes a fetched row. The address and email columns must hold text;
    /// a missing optional column decodes to an empty string or zero.
    pub fn from_row(row: &[ColumnValue]) -> (r: Result<User, StoreError>)
        requires
            row@.len() >= 9,
        ensures
            r is Ok <==> (row@[0] is Text && row@[1] is Text),
            r matches Ok(u) ==> {
                &&& u.near_address == row@[0]->Text_0
                &&& u.email == row@[1]->Text_0
                &&& text_or_empty(row@[2], u.first_name)
                &&& text_or_empty(row@[3], u.last_name)
                &&& int_or_zero(row@[4], u.is_student)
                &&& text_or_empty(row@[5], u.country)
                &&& text_or_empty(row@[6], u.git_handler)
                &&& text_or_empty(row@[7], u.linkedin_handler)
                &&& text_or_empty(row@[8], u.twitter_handler)
                &&& user_row_clean(u)
            },
            r matches Err(e) ==> e.kind == ErrorKind::NotFound && e.message@
                == "Value doesn't exist"@,
    {
        let near_address = match &row[0] {
            ColumnValue::Text(s) => s.clone(),
            _ => { return Err(get_none_error()); },
        };
        let email = match &row[1] {
            ColumnValue::Text(s) => s.clone(),
            _ => { return Err(get_none_error()); },
        };
        let user = User {
            near_address,
            email,
            first_name: text_column(&row[2]),
            last_name: text_column(&row[3]),
            is_student: integer_column(&row[4]),
            country: text_column(&row[5]),
            git_handler: text_column(&row[6]),
            linkedin_handler: text_column(&row[7]),
            twitter_handler: text_column(&row[8]),
            err_msg: String::new(),
            success: true,
        };
        Ok(user)
    }

    /// Flattens a repository result into the uniform reply shape.
    pub fn from_res(res: Result<User, StoreError>) -> (r: User)
        ensures
            res matches Ok(u) ==> r == u,
            res matches Err(e) ==> user_failed(r, e.message@),
    {
        match res {
            Ok(v) => v,
            Err(e) => {
                let mut res_user = User::default();
                res_user.err_msg = e.message;
                res_user.success = false;
                res_user
            },
        }
    }
}

/// A registration succeeds exactly when the tables exist and neither the
/// address nor the email is taken.
pub open spec fn register_allowed(
    tables_ready: bool,
    users: Seq<User>,
    addr: Seq<char>,
    email: Seq<char>,
) -> bool {
    tables_ready && !has_user(users, addr) && !has_email(users, email)
}

/// The kind a failed registration reports.
pub open spec fn register_error_kind(tables_ready: bool) -> ErrorKind {
    if !tables_ready {
        ErrorKind::Storage
    } else {
        ErrorKind::DuplicateKey
    }
}

/// The message a failed registration reports: the store failure, or the
/// first unique column — address before email — that is already taken.
pub open spec fn register_error_message(
    tables_ready: bool,
    users: Seq<User>,
    addr: Seq<char>,
) -> Seq<char> {
    if !tables_ready {
        "no such table"@
    } else if has_user(users, addr) {
        "duplicate key: near_address"@
    } else {
        "duplicate key: email"@
    }
}

/// Uniqueness: once a registration stored its row, no later registration can
/// succeed with the same address, nor with the same email under any other
/// address.
pub proof fn lemma_register_is_unique(
    users: Seq<User>,
    u: User,
    other_addr: Seq<char>,
    other_email: Seq<char>,
)
    ensures
        !register_allowed(true, users.push(u), u.near_address@, other_email),
        !register_allowed(true, users.push(u), other_addr, u.email@),
        register_error_kind(true) == ErrorKind::DuplicateKey,
{
    let users2 = users.push(u);
    assert(users2[users.len() as int] == u);
    assert(has_user(users2, u.near_address@));
    assert(has_email(users2, u.email@));
}

/// Round trip of a registration: the stored row is the one a lookup by the
/// new address finds, field for field.
pub proof fn lemma_register_read_back(users: Seq<User>, u: User)
    requires
        !has_user(users, u.near_address@),
    ensures
        has_user(users.push(u), u.near_address@),
        users.push(u)[user_index(users.push(u), u.near_address@)] == u,
{
    let users2 = users.push(u);
    assert(users2[users.len() as int] == u);
    assert(has_user(users2, u.near_address@));
    let k = user_index(users2, u.near_address@);
    assert(0 <= k < users2.len() && users2[k].near_address@ == u.near_address@);
    if k < users.len() {
        assert(users[k] == users2[k]);
        assert(has_user(users, u.near_address@));
    }
}

/// Round trip of a profile update: the replaced row is the one a lookup by
/// the unchanged address finds, field for field.
pub proof fn lemma_update_read_back(users: Seq<User>, i: int, u: User)
    requires
        users_wf(users),
        0 <= i < users.len(),
        u.near_address@ == users[i].near_address@,
    ensures
        has_user(users.update(i, u), u.near_address@),
        users.update(i, u)[user_index(users.update(i, u), u.near_address@)] == u,
{
    let users2 = users.update(i, u);
    assert(users2[i] == u);
    assert(has_user(users2, u.near_address@));
    let k = user_index(users2, u.near_address@);
    assert(0 <= k < users2.len() && users2[k].near_address@ == u.near_address@);
    if k != i {
        assert(users2[k] == users[k]);
        if k < i {
            assert(users[k].near_address@ != users[i].near_address@);
        } else {
            assert(users[i].near_address@ != users[k].near_address@);
        }
    }
}

/// A matching row's index is the one `user_index` names: the address column
/// is unique, so there is no other.
pub proof fn lemma_user_index_of_match(users: Seq<User>, addr: Seq<char>, i: int)
    requires
        users_wf(users),
        0 <= i < users.len(),
        users[i].near_address@ == addr,
    ensures
        has_user(users, addr),
        user_index(users, addr) == i,
{
    assert(has_user(users, addr));
    let k = user_index(users, addr);
    assert(0 <= k < users.len() && users[k].near_address@ == addr);
    if k < i {
        assert(users[k].near_address@ != users[i].near_address@);
    }
    if i < k {
        assert(users[i].near_address@ != users[k].near_address@);
    }
}

/// The index of the row whose address column matches, if any.
fn find_user_index(users: &Vec<User>, near_address: &String) -> (r: Option<usize>)
    ensures
        match r {
            Some(i) => i < users@.len() && users@[i as int].near_address@ == near_address@,
            None => !has_user(users@, near_address@),
        },
{
    let mut i: usize = 0;
    while i < users.len()
        invariant
            i <= users@.len(),
            forall|j: int| 0 <= j < i ==> (#[trigger] users@[j]).near_address@ != near_address@,
        decreases users@.len() - i,
    {
        if users[i].near_address == *near_address {
            return Some(i);
        }
        i += 1;
    }
    None
}

/// Whether some row's email column matches.
fn email_taken(users: &Vec<User>, email: &String) -> (r: bool)
    ensures
        r == has_email(users@, email@),
{
    let mut i: usize = 0;
    while i < users.len()
        invariant
            i <= users@.len(),
            forall|j: int| 0 <= j < i ==> (#[trigger] users@[j]).email@ != email@,
        decreases users@.len() - i,
    {
        if users[i].email == *email {
            return true;
        }
        i += 1;
    }
    false
}

/// Inserts a new participant under a fresh address and email. Fails with a
/// duplicate-key error when either unique column is already taken, and with
/// a storage error when the tables are absent.
pub fn add_user(store: &mut Store, near_address: String, email: String) -> (r: Result<
    User,
    StoreError,
>)
    requires
        old(store).wf(),
    ensures
        final(store).wf(),
        final(store).tables_ready == old(store).tables_ready,
        final(store).team_table_ready == old(store).team_table_ready,
        final(store).events@ == old(store).events@,
        final(store).submissions@ == old(store).submissions@,
        r is Ok <==> register_allowed(
            old(store).tables_ready,
            old(store).users@,
            near_address@,
            email@,
        ),
        r matches Ok(u) ==> user_registered(u, near_address, email)
            && final(store).users@ == old(store).users@.push(u),
        r is Err ==> final(store).users@ == old(store).users@,
        r matches Err(e) ==> e.kind == register_error_kind(old(store).tables_ready)
            && e.message@ == register_error_message(
            old(store).tables_ready,
            old(store).users@,
            near_address@,
        ),
{
    if !store.tables_ready {
        return Err(StoreError::new(ErrorKind::Storage, "no such table"));
    }
    if find_user_index(&store.users, &near_address).is_some() {
        return Err(StoreError::new(ErrorKind::DuplicateKey, "duplicate key: near_address"));
    }
    if email_taken(&store.users, &email) {
        return Err(StoreError::new(ErrorKind::DuplicateKey, "duplicate key: email"));
    }
    let user = User {
        near_address,
        email,
        first_name: String::new(),
        last_name: String::new(),
        is_student: 0,
        country: String::new(),
        git_handler: String::new(),
        linkedin_handler: String::new(),
        twitter_handler: String::new(),
        err_msg: String::new(),
        success: true,
    };
    let stored = user.duplicate();
    let ghost users0 = store.users@;
    store.users.push(stored);
    proof {
        assert(store.users@ =~= users0.push(user));
        assert forall|i: int, j: int|
            #![trigger store.users@[i], store.users@[j]]
            0 <= i < j < store.users@.len() implies store.users@[i].near_address@
            != store.users@[j].near_address@ && store.users@[i].email@
            != store.users@[j].email@ by {
            if j == users0.len() {
                assert(store.users@[i] == users0[i]);
                if users0[i].near_address@ == user.near_address@ {
                    assert(has_user(users0, user.near_address@));
                }
                if users0[i].email@ == user.email@ {
                    assert(has_email(users0, user.email@));
                }
            }
        }
    }
    Ok(user)
}

/// Looks a participant up by address; fails with a not-found error when no
/// row matches.
pub fn get_user(store: &Store, near_address: String) -> (r: Result<User, StoreError>)
    requires
        store.wf(),
    ensures
        r is Ok <==> store.tables_ready && has_user(store.users@, near_address@),
        r matches Ok(u) ==> u == store.users@[user_index(store.users@, near_address@)]
            && u.near_address@ == near_address@,
        r matches Err(e) ==> e.kind == lookup_error_kind(store.tables_ready) && e.message@
            == lookup_error_message(store.tables_ready),
{
    if !store.tables_ready {
        return Err(StoreError::new(ErrorKind::Storage, "no such table"));
    }
    match find_user_index(&store.users, &near_address) {
        Some(i) => {
            let u = store.users[i].duplicate();
            proof {
                lemma_user_index_of_match(store.users@, near_address@, i as int);
            }
            Ok(u)
        },
        None => Err(get_none_error()),
    }
}

/// Replaces every mutable profile field of the participant with the supplied
/// values, whatever they were; the address and email keys are kept. Fails
/// with a not-found error when the address matches no row.
pub fn update_user(
    store: &mut Store,
    near_address: String,
    first_name: String,
    last_name: String,
    is_student: u8,
    country: String,
    git: String,
    linkedin: String,
    twitter: String,
) -> (r: Result<User, StoreError>)
    requires
        old(store).wf(),
    ensures
        final(store).wf(),
        final(store).tables_ready == old(store).tables_ready,
        final(store).team_table_ready == old(store).team_table_ready,
        final(store).events@ == old(store).events@,
        final(store).submissions@ == old(store).submissions@,
        r is Ok <==> old(store).tables_ready && has_user(old(store).users@, near_address@),
        r matches Ok(u) ==> {
            let i = user_index(old(store).users@, near_address@);
            &&& user_profile_updated(
                u,
                old(store).users@[i],
                first_name,
                last_name,
                is_student,
                country,
                git,
                linkedin,
                twitter,
            )
            &&& final(store).users@ == old(store).users@.update(i, u)
        },
        r is Err ==> final(store).users@ == old(store).users@,
        r matches Err(e) ==> e.kind == lookup_error_kind(old(store).tables_ready) && e.message@
            == lookup_error_message(old(store).tables_ready),
{
    if !store.tables_ready {
        return Err(StoreError::new(ErrorKind::Storage, "no such table"));
    }
    match find_user_index(&store.users, &near_address) {
        Some(i) => {
            proof {
                lemma_user_index_of_match(store.users@, near_address@, i as int);
            }
            let ghost users0 = store.users@;
            let prev = store.users.remove(i);
            let updated = User {
                near_address: prev.near_address,
                email: prev.email,
                first_name,
                last_name,
                is_student: is_student as i64,
                country,
                git_handler: git,
                linkedin_handler: linkedin,
                twitter_handler: twitter,
                err_msg: String::new(),
                success: true,
            };
            let stored = updated.duplicate();
            store.users.insert(i, stored);
            proof {
                assert(store.users@ =~= users0.update(i as int, updated));
                assert forall|p: int, q: int|
                    #![trigger store.users@[p], store.users@[q]]
                    0 <= p < q < store.users@.len() implies store.users@[p].near_address@
                    != store.users@[q].near_address@ && store.users@[p].email@
                    != store.users@[q].email@ by {
                    assert(users0[p].near_address@ != users0[q].near_address@);
                    assert(users0[p].email@ != users0[q].email@);
                }
            }
            Ok(updated)
        },
        None => Err(get_none_error()),
    }
}

} // verus!
