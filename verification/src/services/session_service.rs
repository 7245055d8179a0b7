//! The session store and the session lifecycle: creation, explicit
//! invalidation, the sweep of expired rows, and the live check of a token's
//! session.

use vstd::prelude::*;
use crate::clock::{current_timestamp, on_the_clock};
use crate::config::AuthConfig;
use crate::error::StoreError;
use crate::models::session_models::{
    NewSession,
    Session,
    SessionFields,
    SessionView,
    UpdateSession,
};
use crate::table::{
    first_match,
    lemma_filter_membership,
    lemma_filter_of_passing,
    lemma_filter_step,
    lemma_first_match_at,
};
use crate::text::{opt_text, owned, text_is};

verus! {

/// The views of a run of rows.
pub open spec fn views(rows: Seq<Session>) -> Seq<SessionView> {
    rows.map_values(|s: Session| s@)
}

/// Rows that belong to `user_id`.
pub open spec fn owned_by(user_id: i32) -> spec_fn(SessionView) -> bool {
    |r: SessionView| r.id_utilisateur == Some(user_id)
}

/// Rows whose id is `id`.
pub open spec fn identified_by(id: i32) -> spec_fn(SessionView) -> bool {
    |r: SessionView| r.id == id
}

/// Rows whose id is not `id`.
pub open spec fn other_than(id: i32) -> spec_fn(SessionView) -> bool {
    |r: SessionView| r.id != id
}

/// Rows whose expiry has not been reached at `now`.
pub open spec fn unexpired_at(now: i64) -> spec_fn(SessionView) -> bool {
    |r: SessionView| !r.is_expired(now)
}

/// Rows that carry `token` and are active at `now`.
pub open spec fn usable_with(token: Seq<char>, now: i64) -> spec_fn(SessionView) -> bool {
    |r: SessionView| r.token == Some(token) && r.is_active(now)
}

/// The table after every row of `user_id` has had its flag cleared.
pub open spec fn spec_invalidate_user_sessions(rows: Seq<SessionView>, user_id: i32) -> Seq<
    SessionView,
> {
    rows.map_values(
        |r: SessionView|
            if r.id_utilisateur == Some(user_id) {
                r.revoked()
            } else {
                r
            },
    )
}

/// The table after the sweep at `now`: the rows whose expiry has not been
/// reached, in their order.
pub open spec fn spec_cleanup_expired_sessions(rows: Seq<SessionView>, now: i64) -> Seq<
    SessionView,
> {
    rows.filter(unexpired_at(now))
}

/// Some row carries `token` and is active at `now`.
pub open spec fn spec_is_session_valid(rows: Seq<SessionView>, token: Seq<char>, now: i64)
    -> bool {
    rows.filter(usable_with(token, now)).len() > 0
}

/// The table after the row `id` has taken the update `changes`.
pub open spec fn spec_update_session(rows: Seq<SessionView>, id: i32, changes: SessionFields)
    -> Seq<SessionView> {
    rows.map_values(
        |r: SessionView|
            if r.id == id {
                r.updated(changes)
            } else {
                r
            },
    )
}

/// The fields of a session opened for `user_id` at `now`, valid for
/// `window` seconds; `None` where the expiry is not representable.
pub open spec fn spec_user_session(
    user_id: i32,
    token: Seq<char>,
    user_agent: Option<Seq<char>>,
    ip: Option<Seq<char>>,
    now: i64,
    window: i64,
) -> Option<SessionFields> {
    if now + window <= i64::MAX {
        Some(
            SessionFields {
                id_utilisateur: Some(user_id),
                token: Some(token),
                user_agent,
                ip_address: ip,
                date_creation: Some(now),
                date_expiration: Some((now + window) as i64),
                est_valide: Some(true),
            },
        )
    } else {
        None
    }
}

/// The ids are positive, ascend along the table and lie below `next_id`.
pub open spec fn ids_ascending(rows: Seq<SessionView>, next_id: i32) -> bool {
    &&& next_id >= 1
    &&& forall|i: int| 0 <= i < rows.len() ==> 1 <= (#[trigger] rows[i]).id < next_id
    &&& forall|i: int, j: int| 0 <= i < j < rows.len() ==> rows[i].id < rows[j].id
}

/// The sessions table, held in memory: rows in the order of their creation,
/// each under an id of its own.
pub struct SessionStore {
    rows: Vec<Session>,
    next_id: i32,
}

impl View for SessionStore {
    type V = Seq<SessionView>;

    closed spec fn view(&self) -> Seq<SessionView> {
        views(self.rows@)
    }
}

impl SessionStore {
    #[verifier::type_invariant]
    spec fn well_formed(self) -> bool {
        ids_ascending(views(self.rows@), self.next_id)
    }

    /// The id that the next row will get.
    pub closed spec fn spec_next_id(self) -> i32 {
        self.next_id
    }

    /// An empty table whose first row will get the id 1.
    pub fn new() -> (store: SessionStore)
        ensures
            store@ == Seq::<SessionView>::empty(),
            store.spec_next_id() == 1,
    {
        let store = SessionStore { rows: Vec::new(), next_id: 1 };
        assert(store@ =~= Seq::<SessionView>::empty());
        store
    }

    /// The table that holds `rows` and gives `next_id` to its next row.
    ///
    /// Fails with `ConstraintViolation` exactly when the ids are not
    /// positive, do not ascend or do not lie below `next_id`.
    pub fn from_rows(rows: Vec<Session>, next_id: i32) -> (res: Result<SessionStore, StoreError>)
        ensures
            ids_ascending(views(rows@), next_id) ==> (res matches Ok(store) && store@ == views(
                rows@,
            ) && store.spec_next_id() == next_id),
            !ids_ascending(views(rows@), next_id) ==> res matches Err(
                StoreError::ConstraintViolation,
            ),
    {
        if next_id < 1 {
            return Err(StoreError::ConstraintViolation);
        }
        let ghost all = views(rows@);
        let mut i: usize = 0;
        while i < rows.len()
            invariant
                i <= rows@.len(),
                all == views(rows@),
                next_id >= 1,
                forall|j: int| 0 <= j < i ==> 1 <= (#[trigger] all[j]).id < next_id,
                forall|j: int, k: int| 0 <= j < k < i ==> all[j].id < all[k].id,
            decreases rows@.len() - i,
        {
            let id = rows[i].id;
            if id < 1 || id >= next_id || (i > 0 && rows[i - 1].id >= id) {
                proof {
                    assert(all[i as int].id == id);
                    if i > 0 {
                        assert(all[i - 1].id == rows@[i - 1].id);
                    }
                }
                return Err(StoreError::ConstraintViolation);
            }
            proof {
                assert(all[i as int].id == id);
                assert forall|j: int, k: int| 0 <= j < k < i + 1 implies all[j].id
                    < all[k].id by {
                    if k == i && j < i - 1 {
                        assert(all[j].id < all[i - 1].id);
                    }
                }
            }
            i = i + 1;
        }
        Ok(SessionStore { rows, next_id })
    }

    /// The number of rows.
    pub fn len(&self) -> (n: usize)
        ensures
            n == self@.len(),
    {
        self.rows.len()
    }

    /// The id that the next row will get.
    pub fn next_id(&self) -> (id: i32)
        ensures
            id == self.spec_next_id(),
            ids_ascending(self@, id),
    {
        proof {
            use_type_invariant(self);
        }
        self.next_id
    }
}

/// Every row, in the order of creation.
pub fn get_all_sessions(store: &SessionStore) -> (res: Result<Vec<Session>, StoreError>)
    ensures
        res matches Ok(all) && views(all@) == store@,
{
    let mut all: Vec<Session> = Vec::new();
    let mut i: usize = 0;
    while i < store.rows.len()
        invariant
            i <= store.rows@.len(),
            all@ == store.rows@.take(i as int),
        decreases store.rows@.len() - i,
    {
        all.push(store.rows[i].clone());
        assert(store.rows@.take(i + 1) =~= store.rows@.take(i as int).push(store.rows@[i as int]));
        i = i + 1;
    }
    assert(store.rows@.take(i as int) =~= store.rows@);
    Ok(all)
}

/// The row under `id`, or `NotFound`.
pub fn get_session_by_id(store: &SessionStore, id: i32) -> (res: Result<Session, StoreError>)
    ensures
        match first_match(store@, identified_by(id)) {
            Some(row) => res matches Ok(s) && s@ == row,
            None => res == Err::<Session, StoreError>(StoreError::NotFound),
        },
{
    match position_of(&store.rows, id) {
        Some(i) => Ok(store.rows[i].clone()),
        None => Err(StoreError::NotFound),
    }
}

/// The index of the first row under `id`.
fn position_of(rows: &Vec<Session>, id: i32) -> (res: Option<usize>)
    ensures
        match res {
            Some(i) => {
                &&& i < rows@.len()
                &&& rows@[i as int].id == id
                &&& first_match(views(rows@), identified_by(id)) == Some(rows@[i as int]@)
                &&& forall|j: int| 0 <= j < i ==> rows@[j].id != id
            },
            None => {
                &&& first_match(views(rows@), identified_by(id)) is None
                &&& forall|j: int| 0 <= j < rows@.len() ==> rows@[j].id != id
            },
        },
{
    let ghost all = views(rows@);
    let ghost wanted = identified_by(id);
    let mut i: usize = 0;
    while i < rows.len()
        invariant
            i <= rows@.len(),
            all == views(rows@),
            wanted == identified_by(id),
            all.take(i as int).filter(wanted).len() == 0,
            forall|j: int| 0 <= j < i ==> rows@[j].id != id,
        decreases rows@.len() - i,
    {
        if rows[i].id == id {
            proof {
                lemma_first_match_at(all, wanted, i as int);
            }
            return Some(i);
        }
        proof {
            lemma_filter_step(all, wanted, i as int);
        }
        i = i + 1;
    }
    assert(all.take(i as int) =~= all);
    None
}

/// Adds a row made from `new_session` under the next id.
///
/// Fails with `ConstraintViolation`, and changes nothing, exactly when the
/// id space is exhausted.
pub fn create_session(store: &mut SessionStore, new_session: NewSession) -> (res: Result<
    Session,
    StoreError,
>)
    ensures
        old(store).spec_next_id() == i32::MAX ==> {
            &&& res == Err::<Session, StoreError>(StoreError::ConstraintViolation)
            &&& final(store)@ == old(store)@
            &&& final(store).spec_next_id() == old(store).spec_next_id()
        },
        old(store).spec_next_id() < i32::MAX ==> {
            &&& res matches Ok(s) && s@ == new_session@.with_id(old(store).spec_next_id())
            &&& final(store)@ == old(store)@.push(new_session@.with_id(old(store).spec_next_id()))
            &&& final(store).spec_next_id() == old(store).spec_next_id() + 1
        },
{
    proof {
        use_type_invariant(&*store);
    }
    if store.next_id == i32::MAX {
        return Err(StoreError::ConstraintViolation);
    }
    let id = store.next_id;
    let row = Session::from_new(id, new_session);
    let copy = row.clone();
    let ghost before = store.rows@;
    let mut rows: Vec<Session> = Vec::new();
    std::mem::swap(&mut store.rows, &mut rows);
    rows.push(row);
    store.next_id = id + 1;
    assert(views(rows@) =~= views(before).push(row@));
    store.rows = rows;
    Ok(copy)
}

/// Applies `changes` to the row under `id` and hands the row back.
///
/// An update without any field fails with `NoChanges`; an id that no row
/// has fails with `NotFound`. Neither changes the table.
pub fn update_session(store: &mut SessionStore, id: i32, changes: UpdateSession) -> (res: Result<
    Session,
    StoreError,
>)
    ensures
        final(store).spec_next_id() == old(store).spec_next_id(),
        changes@.is_empty() ==> res == Err::<Session, StoreError>(StoreError::NoChanges)
            && final(store)@ == old(store)@,
        !changes@.is_empty() ==> match first_match(old(store)@, identified_by(id)) {
            Some(row) => {
                &&& res matches Ok(s) && s@ == row.updated(changes@)
                &&& final(store)@ == spec_update_session(old(store)@, id, changes@)
            },
            None => {
                &&& res == Err::<Session, StoreError>(StoreError::NotFound)
                &&& final(store)@ == old(store)@
            },
        },
{
    proof {
        use_type_invariant(&*store);
    }
    if changes.is_empty() {
        return Err(StoreError::NoChanges);
    }
    match position_of(&store.rows, id) {
        None => Err(StoreError::NotFound),
        Some(i) => {
            let ghost before = store.rows@;
            let ghost fields = changes@;
            let mut rows: Vec<Session> = Vec::new();
            std::mem::swap(&mut store.rows, &mut rows);
            let row = rows[i].clone().apply(changes);
            let copy = row.clone();
            rows.set(i, row);
            assert(views(rows@) =~= spec_update_session(views(before), id, fields)) by {
                assert forall|j: int| 0 <= j < before.len() implies #[trigger] views(rows@)[j]
                    == spec_update_session(views(before), id, fields)[j] by {
                    if j != i {
                        assert(views(before)[j].id != views(before)[i as int].id);
                    }
                }
            }
            assert(ids_ascending(views(rows@), store.next_id)) by {
                assert forall|j: int| 0 <= j < rows@.len() implies (#[trigger] views(rows@)[j]).id
                    == views(before)[j].id by {}
            }
            store.rows = rows;
            Ok(copy)
        },
    }
}

/// Removes the row under `id`, and says how many rows went.
pub fn delete_session(store: &mut SessionStore, id: i32) -> (res: Result<usize, StoreError>)
    ensures
        final(store).spec_next_id() == old(store).spec_next_id(),
        final(store)@ == old(store)@.filter(other_than(id)),
        res matches Ok(n) && n == old(store)@.len() - final(store)@.len(),
{
    proof {
        use_type_invariant(&*store);
    }
    let ghost all = store@;
    let ghost keep = other_than(id);
    let mut kept: Vec<Session> = Vec::new();
    let mut i: usize = 0;
    while i < store.rows.len()
        invariant
            i <= store.rows@.len(),
            all == views(store.rows@),
            keep == other_than(id),
            views(kept@) == all.take(i as int).filter(keep),
        decreases store.rows@.len() - i,
    {
        proof {
            lemma_filter_step(all, keep, i as int);
        }
        if store.rows[i].id != id {
            let ghost so_far = kept@;
            kept.push(store.rows[i].clone());
            assert(views(kept@) =~= views(so_far).push(all[i as int]));
        }
        i = i + 1;
    }
    assert(all.take(i as int) =~= all);
    proof {
        lemma_filter_keeps_ids(all, keep, store.next_id);
        all.lemma_filter_len(keep);
    }
    let removed = store.rows.len() - kept.len();
    store.rows = kept;
    Ok(removed)
}

/// The rows of `user_id`, in the order of creation.
pub fn get_sessions_by_user_id(store: &SessionStore, user_id: i32) -> (res: Result<
    Vec<Session>,
    StoreError,
>)
    ensures
        res matches Ok(found) && views(found@) == store@.filter(owned_by(user_id)),
{
    let ghost all = store@;
    let ghost wanted = owned_by(user_id);
    let mut found: Vec<Session> = Vec::new();
    let mut i: usize = 0;
    while i < store.rows.len()
        invariant
            i <= store.rows@.len(),
            all == views(store.rows@),
            wanted == owned_by(user_id),
            views(found@) == all.take(i as int).filter(wanted),
        decreases store.rows@.len() - i,
    {
        proof {
            lemma_filter_step(all, wanted, i as int);
        }
        if belongs_to(&store.rows[i], user_id) {
            let ghost so_far = found@;
            found.push(store.rows[i].clone());
            assert(views(found@) =~= views(so_far).push(all[i as int]));
        }
        i = i + 1;
    }
    assert(all.take(i as int) =~= all);
    Ok(found)
}

/// Whether the row belongs to `user_id`.
fn belongs_to(row: &Session, user_id: i32) -> (yes: bool)
    ensures
        yes == (row@.id_utilisateur == Some(user_id)),
{
    match row.id_utilisateur {
        Some(owner) => owner == user_id,
        None => false,
    }
}

/// The index of the first row that carries `token` and is active at `now`.
fn position_of_usable(rows: &Vec<Session>, token: &String, now: i64) -> (res: Option<usize>)
    ensures
        match res {
            Some(i) => {
                &&& i < rows@.len()
                &&& first_match(views(rows@), usable_with(token@, now)) == Some(rows@[i as int]@)
                &&& spec_is_session_valid(views(rows@), token@, now)
            },
            None => {
                &&& first_match(views(rows@), usable_with(token@, now)) is None
                &&& !spec_is_session_valid(views(rows@), token@, now)
            },
        },
{
    let ghost all = views(rows@);
    let ghost wanted = usable_with(token@, now);
    let mut i: usize = 0;
    while i < rows.len()
        invariant
            i <= rows@.len(),
            all == views(rows@),
            wanted == usable_with(token@, now),
            all.take(i as int).filter(wanted).len() == 0,
        decreases rows@.len() - i,
    {
        if text_is(&rows[i].token, token) && rows[i].is_active(now) {
            proof {
                lemma_first_match_at(all, wanted, i as int);
            }
            return Some(i);
        }
        proof {
            lemma_filter_step(all, wanted, i as int);
        }
        i = i + 1;
    }
    assert(all.take(i as int) =~= all);
    None
}

/// Whether a session that carries `token` is active at `now`: its flag set
/// and its expiry in the future, both read from the row at this call.
pub fn is_session_valid_at(store: &SessionStore, token: &str, now: i64) -> (res: Result<
    bool,
    StoreError,
>)
    ensures
        res == Ok::<bool, StoreError>(spec_is_session_valid(store@, token@, now)),
{
    let wanted = owned(token);
    Ok(position_of_usable(&store.rows, &wanted, now).is_some())
}

/// Whether a session that carries `token` is active at the current time.
pub fn is_session_valid(store: &SessionStore, token: &str) -> (res: Result<bool, StoreError>)
    ensures
        exists|now: i64|
            on_the_clock(now) && res == Ok::<bool, StoreError>(
                #[trigger] spec_is_session_valid(store@, token@, now),
            ),
{
    let now = current_timestamp();
    let res = is_session_valid_at(store, token, now);
    assert(res == Ok::<bool, StoreError>(spec_is_session_valid(store@, token@, now)));
    res
}

/// The first session that carries `token` and is active at `now`.
pub fn get_session_by_token_at(store: &SessionStore, token_value: &str, now: i64) -> (res: Result<
    Option<Session>,
    StoreError,
>)
    ensures
        match first_match(store@, usable_with(token_value@, now)) {
            Some(row) => res matches Ok(Some(s)) && s@ == row,
            None => res matches Ok(None),
        },
{
    let wanted = owned(token_value);
    match position_of_usable(&store.rows, &wanted, now) {
        Some(i) => Ok(Some(store.rows[i].clone())),
        None => Ok(None),
    }
}

/// The first session that carries `token` and is active at the current
/// time.
pub fn get_session_by_token(store: &SessionStore, token_value: &str) -> (res: Result<
    Option<Session>,
    StoreError,
>)
    ensures
        exists|now: i64|
            on_the_clock(now) && match #[trigger] first_match(store@, usable_with(token_value@, now)) {
                Some(row) => res matches Ok(Some(s)) && s@ == row,
                None => res matches Ok(None),
            },
{
    let now = current_timestamp();
    let res = get_session_by_token_at(store, token_value, now);
    assert(match first_match(store@, usable_with(token_value@, now)) {
        Some(row) => res matches Ok(Some(s)) && s@ == row,
        None => res matches Ok(None),
    });
    res
}

/// Clears the flag of every row of `user_id`, in one step, and says how
/// many rows it touched.
///
/// Rows of other users, and every other field, stay as they are. A session
/// created afterwards is not touched.
pub fn invalidate_user_sessions(store: &mut SessionStore, user_id: i32) -> (res: Result<
    usize,
    StoreError,
>)
    ensures
        final(store).spec_next_id() == old(store).spec_next_id(),
        final(store)@ == spec_invalidate_user_sessions(old(store)@, user_id),
        res matches Ok(n) && n == old(store)@.filter(owned_by(user_id)).len(),
{
    proof {
        use_type_invariant(&*store);
    }
    let ghost all = store@;
    let ghost wanted = owned_by(user_id);
    let ghost after = spec_invalidate_user_sessions(all, user_id);
    let mut rows: Vec<Session> = Vec::new();
    std::mem::swap(&mut store.rows, &mut rows);
    let mut touched: usize = 0;
    let mut i: usize = 0;
    while i < rows.len()
        invariant
            i <= rows@.len(),
            rows@.len() == all.len(),
            wanted == owned_by(user_id),
            after == spec_invalidate_user_sessions(all, user_id),
            touched == all.take(i as int).filter(wanted).len(),
            touched <= i,
            forall|j: int| 0 <= j < i ==> (#[trigger] rows@[j])@ == after[j],
            forall|j: int| i <= j < rows@.len() ==> (#[trigger] rows@[j])@ == all[j],
        decreases rows@.len() - i,
    {
        proof {
            lemma_filter_step(all, wanted, i as int);
        }
        if belongs_to(&rows[i], user_id) {
            rows[i].est_valide = Some(false);
            touched = touched + 1;
        }
        i = i + 1;
    }
    assert(all.take(i as int) =~= all);
    assert(views(rows@) =~= after);
    assert(ids_ascending(views(rows@), store.next_id)) by {
        assert forall|j: int| 0 <= j < rows@.len() implies (#[trigger] views(rows@)[j]).id
            == all[j].id by {}
    }
    store.rows = rows;
    Ok(touched)
}

/// What opening a session for `user_id` at `now` does to a table.
///
/// Where the expiry `now + window` is representable and an id is left, the
/// table grows by the new row, which comes back. Otherwise the attempt fails
/// with `ConstraintViolation` and the table stays as it is.
pub open spec fn opened_at(
    before: Seq<SessionView>,
    next_id: i32,
    after: Seq<SessionView>,
    next_id_after: i32,
    outcome: Result<SessionView, StoreError>,
    user_id: i32,
    token: Seq<char>,
    user_agent: Option<Seq<char>>,
    ip: Option<Seq<char>>,
    now: i64,
    window: i64,
) -> bool {
    match spec_user_session(user_id, token, user_agent, ip, now, window) {
        Some(fields) if next_id < i32::MAX => {
            &&& outcome == Ok::<SessionView, StoreError>(fields.with_id(next_id))
            &&& after == before.push(fields.with_id(next_id))
            &&& next_id_after == next_id + 1
        },
        _ => {
            &&& outcome == Err::<SessionView, StoreError>(StoreError::ConstraintViolation)
            &&& after == before
            &&& next_id_after == next_id
        },
    }
}

/// The view of a result that carries a session.
pub open spec fn session_result_view(res: Result<Session, StoreError>) -> Result<
    SessionView,
    StoreError,
> {
    match res {
        Ok(s) => Ok(s@),
        Err(e) => Err(e),
    }
}

/// Opens a session for `user_id` at the instant `now`: flag set, created at
/// `now`, expiring one validity window later.
///
/// Fails with `ConstraintViolation`, and changes nothing, exactly when the
/// expiry is not representable or the id space is exhausted.
pub fn create_user_session_at(
    store: &mut SessionStore,
    config: &AuthConfig,
    user_id: i32,
    token_value: String,
    user_agent: Option<String>,
    ip: Option<String>,
    now: i64,
) -> (res: Result<Session, StoreError>)
    ensures
        opened_at(
            old(store)@,
            old(store).spec_next_id(),
            final(store)@,
            final(store).spec_next_id(),
            session_result_view(res),
            user_id,
            token_value@,
            opt_text(user_agent),
            opt_text(ip),
            now,
            config.spec_validity_window(),
        ),
{
    match now.checked_add(config.validity_window()) {
        None => Err(StoreError::ConstraintViolation),
        Some(expires_at) => {
            let new_session = NewSession {
                id_utilisateur: Some(user_id),
                token: Some(token_value),
                user_agent,
                ip_address: ip,
                date_creation: Some(now),
                date_expiration: Some(expires_at),
                est_valide: Some(true),
            };
            create_session(store, new_session)
        },
    }
}

/// Opens a session for `user_id` at the current time.
///
/// The session is opened exactly when an id is left: the table then grows
/// by the new row, which comes back. What happens is `opened_at` for some
/// instant on the clock.
pub fn create_user_session(
    store: &mut SessionStore,
    config: &AuthConfig,
    user_id: i32,
    token_value: String,
    user_agent: Option<String>,
    ip: Option<String>,
) -> (res: Result<Session, StoreError>)
    ensures
        res is Ok <==> old(store).spec_next_id() < i32::MAX,
        res matches Ok(s) ==> final(store)@ == old(store)@.push(s@),
        res is Err ==> final(store)@ == old(store)@,
        exists|now: i64|
            on_the_clock(now) && #[trigger] opened_at(
                old(store)@,
                old(store).spec_next_id(),
                final(store)@,
                final(store).spec_next_id(),
                session_result_view(res),
                user_id,
                token_value@,
                opt_text(user_agent),
                opt_text(ip),
                now,
                config.spec_validity_window(),
            ),
{
    let now = current_timestamp();
    let window = config.validity_window();
    assert(now + window <= i64::MAX);
    let res = create_user_session_at(store, config, user_id, token_value, user_agent, ip, now);
    assert(opened_at(
        old(store)@,
        old(store).spec_next_id(),
        store@,
        store.spec_next_id(),
        session_result_view(res),
        user_id,
        token_value@,
        opt_text(user_agent),
        opt_text(ip),
        now,
        config.spec_validity_window(),
    ));
    res
}

/// Clears the flag of the row under `session_id` and hands the row back;
/// `NotFound` where no row has that id.
pub fn invalidate_session(store: &mut SessionStore, session_id: i32) -> (res: Result<
    Session,
    StoreError,
>)
    ensures
        final(store).spec_next_id() == old(store).spec_next_id(),
        match first_match(old(store)@, identified_by(session_id)) {
            Some(row) => {
                &&& res matches Ok(s) && s@ == row.revoked()
                &&& final(store)@ == spec_update_session(
                    old(store)@,
                    session_id,
                    SessionFields::revocation(),
                )
            },
            None => {
                &&& res == Err::<Session, StoreError>(StoreError::NotFound)
                &&& final(store)@ == old(store)@
            },
        },
{
    let res = update_session(store, session_id, UpdateSession::revocation());
    proof {
        let found = first_match(old(store)@, identified_by(session_id));
        if found is Some {
            let row = found->Some_0;
            assert(row.updated(SessionFields::revocation()) == row.revoked());
        }
    }
    res
}

/// Removes the rows whose expiry has been reached at `now`, and says how
/// many went. Rows without an expiry stay.
pub fn cleanup_expired_sessions_at(store: &mut SessionStore, now: i64) -> (res: Result<
    usize,
    StoreError,
>)
    ensures
        final(store).spec_next_id() == old(store).spec_next_id(),
        final(store)@ == spec_cleanup_expired_sessions(old(store)@, now),
        res matches Ok(n) && n == old(store)@.len() - final(store)@.len(),
{
    proof {
        use_type_invariant(&*store);
    }
    let ghost all = store@;
    let ghost keep = unexpired_at(now);
    let mut kept: Vec<Session> = Vec::new();
    let mut i: usize = 0;
    while i < store.rows.len()
        invariant
            i <= store.rows@.len(),
            all == views(store.rows@),
            keep == unexpired_at(now),
            views(kept@) == all.take(i as int).filter(keep),
        decreases store.rows@.len() - i,
    {
        proof {
            lemma_filter_step(all, keep, i as int);
        }
        if !crate::models::session_models::is_expired(store.rows[i].date_expiration, now) {
            let ghost so_far = kept@;
            kept.push(store.rows[i].clone());
            assert(views(kept@) =~= views(so_far).push(all[i as int]));
        }
        i = i + 1;
    }
    assert(all.take(i as int) =~= all);
    proof {
        lemma_filter_keeps_ids(all, keep, store.next_id);
        all.lemma_filter_len(keep);
    }
    let removed = store.rows.len() - kept.len();
    store.rows = kept;
    Ok(removed)
}

/// Removes the rows whose expiry has been reached at the current time.
pub fn cleanup_expired_sessions(store: &mut SessionStore) -> (res: Result<usize, StoreError>)
    ensures
        final(store).spec_next_id() == old(store).spec_next_id(),
        exists|now: i64|
            on_the_clock(now) && final(store)@ == #[trigger] spec_cleanup_expired_sessions(
                old(store)@,
                now,
            ),
        res matches Ok(n) && n == old(store)@.len() - final(store)@.len(),
{
    let now = current_timestamp();
    let res = cleanup_expired_sessions_at(store, now);
    assert(store@ == spec_cleanup_expired_sessions(old(store)@, now));
    res
}

/// A filtered table keeps its ids in order.
pub proof fn lemma_filter_keeps_ids(
    rows: Seq<SessionView>,
    keep: spec_fn(SessionView) -> bool,
    next_id: i32,
)
    requires
        ids_ascending(rows, next_id),
    ensures
        ids_ascending(rows.filter(keep), next_id),
    decreases rows.len(),
{
    reveal(Seq::filter);
    if rows.len() > 0 {
        let front = rows.drop_last();
        assert forall|i: int| 0 <= i < front.len() implies 1 <= (#[trigger] front[i]).id
            < next_id by {
            assert(front[i] == rows[i]);
        }
        assert forall|i: int, j: int| 0 <= i < j < front.len() implies front[i].id
            < front[j].id by {
            assert(front[i] == rows[i] && front[j] == rows[j]);
        }
        lemma_filter_keeps_ids(front, keep, next_id);
        lemma_filter_below_last(front, keep, rows.last().id);
    }
}

/// Where every id lies below `bound`, so does every id that a filter keeps.
proof fn lemma_filter_below_last(
    rows: Seq<SessionView>,
    keep: spec_fn(SessionView) -> bool,
    bound: i32,
)
    requires
        forall|i: int| 0 <= i < rows.len() ==> (#[trigger] rows[i]).id < bound,
    ensures
        forall|i: int| 0 <= i < rows.filter(keep).len() ==> (#[trigger] rows.filter(keep)[i]).id
            < bound,
    decreases rows.len(),
{
    reveal(Seq::filter);
    if rows.len() > 0 {
        let front = rows.drop_last();
        assert forall|i: int| 0 <= i < front.len() implies (#[trigger] front[i]).id < bound by {
            assert(front[i] == rows[i]);
        }
        lemma_filter_below_last(front, keep, bound);
        assert(rows.last() == rows[rows.len() - 1]);
    }
}

/// The live check trusts neither the flag without the expiry nor the expiry
/// without the flag: a token has an active session exactly when some row
/// carries it with the flag set and the expiry after `now`.
pub proof fn lemma_valid_session_is_flagged_and_unexpired(
    rows: Seq<SessionView>,
    token: Seq<char>,
    now: i64,
)
    ensures
        spec_is_session_valid(rows, token, now) <==> exists|i: int|
            0 <= i < rows.len() && (#[trigger] rows[i]).token == Some(token) && rows[i].est_valide
                == Some(true) && rows[i].date_expiration is Some && rows[i].date_expiration->Some_0
                > now,
{
    let wanted = usable_with(token, now);
    if rows.filter(wanted).len() > 0 {
        let row = rows.filter(wanted)[0];
        assert(rows.filter(wanted).contains(row));
        lemma_filter_membership(rows, wanted, row);
        let i = choose|i: int| 0 <= i < rows.len() && rows[i] == row;
        assert(rows[i].token == Some(token) && rows[i].est_valide == Some(true));
    }
    if exists|i: int|
        0 <= i < rows.len() && (#[trigger] rows[i]).token == Some(token) && rows[i].est_valide
            == Some(true) && rows[i].date_expiration is Some && rows[i].date_expiration->Some_0
            > now {
        let i = choose|i: int|
            0 <= i < rows.len() && (#[trigger] rows[i]).token == Some(token) && rows[i].est_valide
                == Some(true) && rows[i].date_expiration is Some
                && rows[i].date_expiration->Some_0 > now;
        assert(wanted(rows[i]));
        assert(rows.contains(rows[i]));
        lemma_filter_membership(rows, wanted, rows[i]);
        assert(rows.filter(wanted).contains(rows[i]));
    }
}

/// The sweep removes exactly the rows whose expiry has been reached: a row
/// stays exactly when it was there and has not expired at `now`.
pub proof fn lemma_cleanup_removes_exactly_the_expired(
    rows: Seq<SessionView>,
    now: i64,
    row: SessionView,
)
    ensures
        spec_cleanup_expired_sessions(rows, now).contains(row) <==> rows.contains(row)
            && !row.is_expired(now),
{
    lemma_filter_membership(rows, unexpired_at(now), row);
}

/// The sweep is idempotent: a second sweep at the same instant finds the
/// table as the first one left it, and removes no row.
pub proof fn lemma_cleanup_is_idempotent(rows: Seq<SessionView>, now: i64)
    ensures
        spec_cleanup_expired_sessions(spec_cleanup_expired_sessions(rows, now), now)
            == spec_cleanup_expired_sessions(rows, now),
        spec_cleanup_expired_sessions(rows, now).len() - spec_cleanup_expired_sessions(
            spec_cleanup_expired_sessions(rows, now),
            now,
        ).len() == 0,
{
    let once = spec_cleanup_expired_sessions(rows, now);
    assert forall|i: int| 0 <= i < once.len() implies unexpired_at(now)(#[trigger] once[i]) by {
        rows.lemma_filter_pred(unexpired_at(now), i);
    }
    lemma_filter_of_passing(once, unexpired_at(now));
}

/// The sweep changes no answer of the live check: a token has an active
/// session after the sweep exactly when it had one before.
pub proof fn lemma_cleanup_keeps_validity(rows: Seq<SessionView>, token: Seq<char>, now: i64)
    ensures
        spec_is_session_valid(spec_cleanup_expired_sessions(rows, now), token, now)
            == spec_is_session_valid(rows, token, now),
{
    let swept = spec_cleanup_expired_sessions(rows, now);
    let wanted = usable_with(token, now);
    if rows.filter(wanted).len() > 0 {
        let row = rows.filter(wanted)[0];
        assert(rows.filter(wanted).contains(row));
        lemma_filter_membership(rows, wanted, row);
        lemma_filter_membership(rows, unexpired_at(now), row);
        lemma_filter_membership(swept, wanted, row);
        assert(swept.filter(wanted).contains(row));
    }
    if swept.filter(wanted).len() > 0 {
        let row = swept.filter(wanted)[0];
        assert(swept.filter(wanted).contains(row));
        lemma_filter_membership(swept, wanted, row);
        lemma_filter_membership(rows, unexpired_at(now), row);
        lemma_filter_membership(rows, wanted, row);
        assert(rows.filter(wanted).contains(row));
    }
}

/// Once every session of a user is invalidated, no token that only that
/// user's sessions carry has an active session, at any instant.
pub proof fn lemma_invalidation_revokes(
    rows: Seq<SessionView>,
    user_id: i32,
    token: Seq<char>,
    now: i64,
)
    requires
        forall|i: int|
            0 <= i < rows.len() && (#[trigger] rows[i]).token == Some(token)
                ==> rows[i].id_utilisateur == Some(user_id),
    ensures
        !spec_is_session_valid(spec_invalidate_user_sessions(rows, user_id), token, now),
{
    let after = spec_invalidate_user_sessions(rows, user_id);
    let wanted = usable_with(token, now);
    if after.filter(wanted).len() > 0 {
        let row = after.filter(wanted)[0];
        assert(after.filter(wanted).contains(row));
        lemma_filter_membership(after, wanted, row);
        let i = choose|i: int| 0 <= i < after.len() && after[i] == row;
        assert(rows[i].token == Some(token));
        assert(after[i] == rows[i].revoked());
        assert(false);
    }
}

/// An invalidation leaves the sessions of every other user as they are.
pub proof fn lemma_invalidation_spares_others(
    rows: Seq<SessionView>,
    user_id: i32,
    token: Seq<char>,
    now: i64,
)
    requires
        forall|i: int|
            0 <= i < rows.len() && (#[trigger] rows[i]).token == Some(token)
                ==> rows[i].id_utilisateur != Some(user_id),
    ensures
        spec_is_session_valid(spec_invalidate_user_sessions(rows, user_id), token, now)
            == spec_is_session_valid(rows, token, now),
{
    let after = spec_invalidate_user_sessions(rows, user_id);
    let wanted = usable_with(token, now);
    if after.filter(wanted).len() > 0 {
        let row = after.filter(wanted)[0];
        assert(after.filter(wanted).contains(row));
        lemma_filter_membership(after, wanted, row);
        let i = choose|i: int| 0 <= i < after.len() && after[i] == row;
        assert(rows[i].token == after[i].token);
        assert(rows[i] == row);
        lemma_filter_membership(rows, wanted, row);
        assert(rows.filter(wanted).contains(row));
    }
    if rows.filter(wanted).len() > 0 {
        let row = rows.filter(wanted)[0];
        assert(rows.filter(wanted).contains(row));
        lemma_filter_membership(rows, wanted, row);
        let i = choose|i: int| 0 <= i < rows.len() && rows[i] == row;
        assert(after[i] == row);
        lemma_filter_membership(after, wanted, row);
        assert(after.filter(wanted).contains(row));
    }
}

/// A session opened at `made` for `window` seconds is active from `made`
/// until its expiry, whatever the table held before, and so whether or not
/// the user's earlier sessions were invalidated.
pub proof fn lemma_new_session_is_active(
    rows: Seq<SessionView>,
    id: i32,
    user_id: i32,
    token: Seq<char>,
    user_agent: Option<Seq<char>>,
    ip: Option<Seq<char>>,
    made: i64,
    window: i64,
    at: i64,
)
    requires
        spec_user_session(user_id, token, user_agent, ip, made, window) is Some,
        at < made + window,
    ensures
        spec_is_session_valid(
            rows.push(
                spec_user_session(user_id, token, user_agent, ip, made, window)->Some_0.with_id(id),
            ),
            token,
            at,
        ),
{
    let row = spec_user_session(user_id, token, user_agent, ip, made, window)->Some_0.with_id(id);
    let wanted = usable_with(token, at);
    assert(wanted(row));
    rows.lemma_filter_push(row, wanted);
}

} // verus!
