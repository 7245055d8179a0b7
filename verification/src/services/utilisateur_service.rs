//! The user store, registration and login.

use vstd::prelude::*;
use crate::clock::{current_timestamp, on_the_clock};
use crate::config::{AuthConfig, HashCost};
use crate::error::{AuthError, StoreError};
use crate::models::utilisateur_models::{
    AuthResponse,
    AuthResponseView,
    NewUtilisateur,
    UpdateUtilisateur,
    Utilisateur,
    UtilisateurFields,
    UtilisateurView,
};
use crate::password::{
    hash_password,
    hash_view,
    hashable,
    password_matches,
    salt_byte_count,
    spec_hash_password,
    verify_password,
    FRESH_SALT_BYTES,
};
use crate::table::{first_match, lemma_filter_step, lemma_first_match_at};
use crate::text::{owned, text_is};
use crate::token::{generate_jwt_token_at, issued_at, spec_issue};

verus! {

/// The views of a run of rows.
pub open spec fn user_views(rows: Seq<Utilisateur>) -> Seq<UtilisateurView> {
    rows.map_values(|u: Utilisateur| u@)
}

/// Rows whose id is `id`.
pub open spec fn user_identified_by(id: i32) -> spec_fn(UtilisateurView) -> bool {
    |u: UtilisateurView| u.id == id
}

/// Rows that hold the email `mail`, the row under `except` left aside.
pub open spec fn holds_mail(mail: Seq<char>, except: Option<i32>) -> spec_fn(
    UtilisateurView,
) -> bool {
    |u: UtilisateurView| u.mail == Some(mail) && Some(u.id) != except
}

/// Some row holds the email `mail`.
pub open spec fn spec_email_exists(rows: Seq<UtilisateurView>, mail: Seq<char>) -> bool {
    rows.filter(holds_mail(mail, None)).len() > 0
}

/// The ids are positive, ascend along the table and lie below `next_id`.
pub open spec fn user_ids_ascending(rows: Seq<UtilisateurView>, next_id: i32) -> bool {
    &&& next_id >= 1
    &&& forall|i: int| 0 <= i < rows.len() ==> 1 <= (#[trigger] rows[i]).id < next_id
    &&& forall|i: int, j: int| 0 <= i < j < rows.len() ==> rows[i].id < rows[j].id
}

/// No two rows hold the same email.
pub open spec fn mails_distinct(rows: Seq<UtilisateurView>) -> bool {
    forall|i: int, j: int|
        0 <= i < j < rows.len() && rows[i].mail is Some ==> rows[i].mail != rows[j].mail
}

/// The hash that registration stores for `fields`: a configuration error
/// where they carry no password, else the hash of the password under
/// `salt`.
pub open spec fn spec_hash_for(fields: UtilisateurFields, salt: Seq<char>, cost: HashCost)
    -> Result<Seq<char>, AuthError> {
    match fields.mot_de_passe {
        Some(password) => spec_hash_password(password, salt, cost),
        None => Err(AuthError::ConfigurationError),
    }
}

/// The row that registration adds, given what the hasher answered.
///
/// A failed hash is handed on; an email that a row already holds is a
/// conflict; an exhausted id space is a persistence failure. Otherwise the
/// row holds the fields under the next id, with the hash in place of the
/// password.
pub open spec fn spec_register(
    rows: Seq<UtilisateurView>,
    next_id: i32,
    fields: UtilisateurFields,
    hashed: Result<Seq<char>, AuthError>,
) -> Result<UtilisateurView, AuthError> {
    match hashed {
        Err(e) => Err(e),
        Ok(hash) => if fields.mail is Some && spec_email_exists(rows, fields.mail->Some_0) {
            Err(AuthError::Conflict)
        } else if next_id == i32::MAX {
            Err(AuthError::PersistenceError(StoreError::ConstraintViolation))
        } else {
            Ok(fields.with_password(hash).with_id(next_id))
        },
    }
}

/// The table after a registration with the outcome `outcome`.
pub open spec fn after_register(
    rows: Seq<UtilisateurView>,
    outcome: Result<UtilisateurView, AuthError>,
) -> Seq<UtilisateurView> {
    match outcome {
        Ok(row) => rows.push(row),
        Err(_) => rows,
    }
}

/// The row that a profile update leaves under `id`.
///
/// An id that no row has is a persistence failure; an email that another
/// row holds is a conflict. Otherwise every field of the row is replaced.
pub open spec fn spec_update(rows: Seq<UtilisateurView>, id: i32, fields: UtilisateurFields)
    -> Result<UtilisateurView, AuthError> {
    if first_match(rows, user_identified_by(id)) is None {
        Err(AuthError::PersistenceError(StoreError::NotFound))
    } else if fields.mail is Some && rows.filter(holds_mail(fields.mail->Some_0, Some(id))).len()
        > 0 {
        Err(AuthError::Conflict)
    } else {
        Ok(fields.with_id(id))
    }
}

/// The table after a profile update with the outcome `outcome`.
pub open spec fn after_update(
    rows: Seq<UtilisateurView>,
    id: i32,
    outcome: Result<UtilisateurView, AuthError>,
) -> Seq<UtilisateurView> {
    match outcome {
        Ok(row) => rows.map_values(
            |u: UtilisateurView|
                if u.id == id {
                    row
                } else {
                    u
                },
        ),
        Err(_) => rows,
    }
}

/// What a login attempt yields at `now`.
///
/// `None` where no user holds the email, the user has no stored hash, or
/// the password does not match it: the three are not told apart. Otherwise
/// the user with a fresh token, or the issuer's failure.
pub open spec fn spec_authenticate(
    rows: Seq<UtilisateurView>,
    secret: Seq<char>,
    window: i64,
    email: Seq<char>,
    password: Seq<char>,
    now: i64,
) -> Result<Option<AuthResponseView>, AuthError> {
    match first_match(rows, holds_mail(email, None)) {
        None => Ok(None),
        Some(user) => match user.mot_de_passe {
            None => Ok(None),
            Some(stored) => if password_matches(password, stored) {
                match spec_issue(user, secret, now, window) {
                    Ok(token) => Ok(Some(AuthResponseView { token, user })),
                    Err(e) => Err(e),
                }
            } else {
                Ok(None)
            },
        },
    }
}

/// The view of a login result.
pub open spec fn login_view(res: Result<Option<AuthResponse>, AuthError>) -> Result<
    Option<AuthResponseView>,
    AuthError,
> {
    match res {
        Ok(Some(auth)) => Ok(Some(auth@)),
        Ok(None) => Ok(None),
        Err(e) => Err(e),
    }
}

/// The view of a result that carries a user.
pub open spec fn user_result_view(res: Result<Utilisateur, AuthError>) -> Result<
    UtilisateurView,
    AuthError,
> {
    match res {
        Ok(user) => Ok(user@),
        Err(e) => Err(e),
    }
}

/// The users table, held in memory: rows in the order of registration, each
/// under an id of its own, no email held twice.
pub struct UserStore {
    rows: Vec<Utilisateur>,
    next_id: i32,
}

impl View for UserStore {
    type V = Seq<UtilisateurView>;

    closed spec fn view(&self) -> Seq<UtilisateurView> {
        user_views(self.rows@)
    }
}

impl UserStore {
    #[verifier::type_invariant]
    spec fn well_formed(self) -> bool {
        &&& user_ids_ascending(user_views(self.rows@), self.next_id)
        &&& mails_distinct(user_views(self.rows@))
    }

    /// The id that the next row will get.
    pub closed spec fn spec_next_id(self) -> i32 {
        self.next_id
    }

    /// An empty table whose first row will get the id 1.
    pub fn new() -> (store: UserStore)
        ensures
            store@ == Seq::<UtilisateurView>::empty(),
            store.spec_next_id() == 1,
    {
        let store = UserStore { rows: Vec::new(), next_id: 1 };
        assert(store@ =~= Seq::<UtilisateurView>::empty());
        store
    }

    /// The table that holds `rows` and gives `next_id` to its next row.
    ///
    /// Fails with `ConstraintViolation` exactly when the ids are not
    /// positive, do not ascend or do not lie below `next_id`, or two rows
    /// hold the same email.
    pub fn from_rows(rows: Vec<Utilisateur>, next_id: i32) -> (res: Result<UserStore, StoreError>)
        ensures
            user_ids_ascending(user_views(rows@), next_id) && mails_distinct(user_views(rows@))
                ==> (res matches Ok(store) && store@ == user_views(rows@) && store.spec_next_id()
                == next_id),
            !(user_ids_ascending(user_views(rows@), next_id) && mails_distinct(user_views(rows@)))
                ==> res matches Err(StoreError::ConstraintViolation),
    {
        if next_id < 1 {
            return Err(StoreError::ConstraintViolation);
        }
        let ghost all = user_views(rows@);
        let mut i: usize = 0;
        while i < rows.len()
            invariant
                i <= rows@.len(),
                all == user_views(rows@),
                next_id >= 1,
                forall|j: int| 0 <= j < i ==> 1 <= (#[trigger] all[j]).id < next_id,
                forall|j: int, k: int| 0 <= j < k < i ==> all[j].id < all[k].id,
                forall|j: int, k: int|
                    0 <= j < k < i && all[j].mail is Some ==> all[j].mail != all[k].mail,
            decreases rows@.len() - i,
        {
            let id = rows[i].id;
            if id < 1 || id >= next_id || (i > 0 && rows[i - 1].id >= id) {
                proof {
                    assert(all[i as int].id == id);
                    if i > 0 {
                        assert(all[i - 1].id == rows@[i - 1].id);
                    }
                }
                return Err(StoreError::ConstraintViolation);
            }
            let mut j: usize = 0;
            while j < i
                invariant
                    j <= i < rows@.len(),
                    all == user_views(rows@),
                    forall|k: int|
                        0 <= k < j && all[k].mail is Some ==> all[k].mail != all[i as int].mail,
                decreases i - j,
            {
                let same = match &rows[i].mail {
                    Some(mail) => text_is(&rows[j].mail, mail),
                    None => false,
                };
                if same {
                    proof {
                        assert(all[j as int].mail == all[i as int].mail);
                        assert(all[j as int].mail is Some);
                    }
                    return Err(StoreError::ConstraintViolation);
                }
                proof {
                    assert(all[j as int] == rows@[j as int]@);
                    assert(all[i as int] == rows@[i as int]@);
                }
                j = j + 1;
            }
            proof {
                assert(all[i as int].id == id);
                assert forall|j: int, k: int| 0 <= j < k < i + 1 implies all[j].id
                    < all[k].id by {
                    if k == i && j < i - 1 {
                        assert(all[j].id < all[i - 1].id);
                    }
                }
            }
            i = i + 1;
        }
        Ok(UserStore { rows, next_id })
    }

    /// The number of rows.
    pub fn len(&self) -> (n: usize)
        ensures
            n == self@.len(),
    {
        self.rows.len()
    }

    /// The id that the next row will get.
    pub fn next_id(&self) -> (id: i32)
        ensures
            id == self.spec_next_id(),
            user_ids_ascending(self@, id),
            mails_distinct(self@),
    {
        proof {
            use_type_invariant(self);
        }
        self.next_id
    }
}

/// The index of the first row under `id`.
fn position_of_user(rows: &Vec<Utilisateur>, id: i32) -> (res: Option<usize>)
    ensures
        match res {
            Some(i) => {
                &&& i < rows@.len()
                &&& rows@[i as int].id == id
                &&& first_match(user_views(rows@), user_identified_by(id)) == Some(
                    rows@[i as int]@,
                )
            },
            None => first_match(user_views(rows@), user_identified_by(id)) is None,
        },
{
    let ghost all = user_views(rows@);
    let ghost wanted = user_identified_by(id);
    let mut i: usize = 0;
    while i < rows.len()
        invariant
            i <= rows@.len(),
            all == user_views(rows@),
            wanted == user_identified_by(id),
            all.take(i as int).filter(wanted).len() == 0,
        decreases rows@.len() - i,
    {
        if rows[i].id == id {
            proof {
                lemma_first_match_at(all, wanted, i as int);
            }
            return Some(i);
        }
        proof {
            lemma_filter_step(all, wanted, i as int);
        }
        i = i + 1;
    }
    assert(all.take(i as int) =~= all);
    None
}

/// The index of the first row that holds `mail`, the row under `except`
/// left aside.
fn position_of_mail(rows: &Vec<Utilisateur>, mail: &String, except: Option<i32>) -> (res: Option<
    usize,
>)
    ensures
        match res {
            Some(i) => {
                &&& i < rows@.len()
                &&& first_match(user_views(rows@), holds_mail(mail@, except)) == Some(
                    rows@[i as int]@,
                )
                &&& user_views(rows@).filter(holds_mail(mail@, except)).len() > 0
            },
            None => {
                &&& user_views(rows@).filter(holds_mail(mail@, except)).len() == 0
                &&& forall|j: int|
                    0 <= j < rows@.len() ==> !holds_mail(mail@, except)((#[trigger] rows@[j])@)
            },
        },
{
    let ghost all = user_views(rows@);
    let ghost wanted = holds_mail(mail@, except);
    let mut i: usize = 0;
    while i < rows.len()
        invariant
            i <= rows@.len(),
            all == user_views(rows@),
            wanted == holds_mail(mail@, except),
            all.take(i as int).filter(wanted).len() == 0,
            forall|j: int| 0 <= j < i ==> !wanted((#[trigger] rows@[j])@),
        decreases rows@.len() - i,
    {
        let aside = match except {
            Some(id) => rows[i].id == id,
            None => false,
        };
        if text_is(&rows[i].mail, mail) && !aside {
            proof {
                lemma_first_match_at(all, wanted, i as int);
            }
            return Some(i);
        }
        proof {
            lemma_filter_step(all, wanted, i as int);
        }
        i = i + 1;
    }
    assert(all.take(i as int) =~= all);
    None
}

/// Every user, in the order of registration.
pub fn get_all_utilisateurs(store: &UserStore) -> (res: Result<Vec<Utilisateur>, StoreError>)
    ensures
        res matches Ok(all) && user_views(all@) == store@,
{
    let mut all: Vec<Utilisateur> = Vec::new();
    let mut i: usize = 0;
    while i < store.rows.len()
        invariant
            i <= store.rows@.len(),
            all@ == store.rows@.take(i as int),
        decreases store.rows@.len() - i,
    {
        all.push(store.rows[i].clone());
        assert(store.rows@.take(i + 1) =~= store.rows@.take(i as int).push(store.rows@[i as int]));
        i = i + 1;
    }
    assert(store.rows@.take(i as int) =~= store.rows@);
    Ok(all)
}

/// The user under `id`, or `NotFound`.
pub fn get_utilisateur_by_id(store: &UserStore, id: i32) -> (res: Result<Utilisateur, StoreError>)
    ensures
        match first_match(store@, user_identified_by(id)) {
            Some(row) => res matches Ok(u) && u@ == row,
            None => res == Err::<Utilisateur, StoreError>(StoreError::NotFound),
        },
{
    match position_of_user(&store.rows, id) {
        Some(i) => Ok(store.rows[i].clone()),
        None => Err(StoreError::NotFound),
    }
}

/// The user that holds `email`, or `NotFound`.
pub fn get_utilisateur_by_email(store: &UserStore, email: String) -> (res: Result<
    Utilisateur,
    StoreError,
>)
    ensures
        match first_match(store@, holds_mail(email@, None)) {
            Some(row) => res matches Ok(u) && u@ == row,
            None => res == Err::<Utilisateur, StoreError>(StoreError::NotFound),
        },
{
    match position_of_mail(&store.rows, &email, None) {
        Some(i) => Ok(store.rows[i].clone()),
        None => Err(StoreError::NotFound),
    }
}

/// Whether a user holds `email`.
pub fn email_exists(store: &UserStore, email: String) -> (res: Result<bool, StoreError>)
    ensures
        res == Ok::<bool, StoreError>(spec_email_exists(store@, email@)),
{
    Ok(position_of_mail(&store.rows, &email, None).is_some())
}

/// Adds the user that `new_utilisateur` describes, with `hashed` as the
/// stored hash of the password.
///
/// The outcome is `spec_register` of the arguments; the table grows by the
/// new row on success and stays as it is on failure.
pub fn register_hashed(
    store: &mut UserStore,
    new_utilisateur: NewUtilisateur,
    hashed: Result<String, AuthError>,
) -> (res: Result<Utilisateur, AuthError>)
    ensures
        user_result_view(res) == spec_register(
            old(store)@,
            old(store).spec_next_id(),
            new_utilisateur@,
            hash_view(hashed),
        ),
        final(store)@ == after_register(old(store)@, user_result_view(res)),
        final(store).spec_next_id() == if res is Ok {
            old(store).spec_next_id() + 1
        } else {
            old(store).spec_next_id() as int
        },
{
    proof {
        use_type_invariant(&*store);
    }
    let hash = match hashed {
        Err(e) => {
            return Err(e);
        },
        Ok(hash) => hash,
    };
    let taken = match &new_utilisateur.mail {
        Some(mail) => position_of_mail(&store.rows, mail, None).is_some(),
        None => false,
    };
    if taken {
        return Err(AuthError::Conflict);
    }
    if store.next_id == i32::MAX {
        return Err(AuthError::PersistenceError(StoreError::ConstraintViolation));
    }
    let id = store.next_id;
    let mut fields = new_utilisateur;
    fields.mot_de_passe = Some(hash);
    let row = Utilisateur::from_new(id, fields);
    let copy = row.clone();
    let ghost before = store.rows@;
    let mut rows: Vec<Utilisateur> = Vec::new();
    std::mem::swap(&mut store.rows, &mut rows);
    rows.push(row);
    store.next_id = id + 1;
    assert(user_views(rows@) =~= user_views(before).push(row@));
    assert(mails_distinct(user_views(rows@))) by {
        assert forall|i: int, j: int|
            0 <= i < j < rows@.len() && user_views(rows@)[i].mail is Some implies user_views(
            rows@,
        )[i].mail != user_views(rows@)[j].mail by {
            if j == before.len() {
                assert(user_views(before)[i] == before[i]@);
            } else {
                assert(user_views(rows@)[i] == user_views(before)[i]);
                assert(user_views(rows@)[j] == user_views(before)[j]);
            }
        }
    }
    store.rows = rows;
    Ok(copy)
}

/// The registration carries a password that the hasher takes.
pub open spec fn has_hashable_password(fields: UtilisateurFields) -> bool {
    fields.mot_de_passe matches Some(password) && hashable(password)
}

/// The registration names an email that a row already holds.
pub open spec fn names_taken_mail(rows: Seq<UtilisateurView>, fields: UtilisateurFields) -> bool {
    fields.mail matches Some(mail) && spec_email_exists(rows, mail)
}

/// Registers a user: hashes the password under a fresh salt and adds the
/// row.
///
/// The checks come in this order. A registration without a password, or
/// with one that is empty or too long, is a configuration error. An email
/// that a row already holds is a conflict. An exhausted id space is a
/// persistence failure. Every other registration succeeds: the table grows
/// by the user under the next id, with a hash in place of the password that
/// `verify_password` accepts for it. A failure changes nothing.
pub fn create_utilisateur(
    store: &mut UserStore,
    config: &AuthConfig,
    new_utilisateur: NewUtilisateur,
) -> (res: Result<Utilisateur, AuthError>)
    ensures
        !has_hashable_password(new_utilisateur@) ==> res matches Err(
            AuthError::ConfigurationError,
        ),
        has_hashable_password(new_utilisateur@) && names_taken_mail(old(store)@, new_utilisateur@)
            ==> res matches Err(AuthError::Conflict),
        has_hashable_password(new_utilisateur@) && !names_taken_mail(
            old(store)@,
            new_utilisateur@,
        ) && old(store).spec_next_id() == i32::MAX ==> res matches Err(
            AuthError::PersistenceError(StoreError::ConstraintViolation),
        ),
        has_hashable_password(new_utilisateur@) && !names_taken_mail(
            old(store)@,
            new_utilisateur@,
        ) && old(store).spec_next_id() < i32::MAX ==> res is Ok,
        res matches Ok(user) ==> {
            &&& user@.mot_de_passe is Some
            &&& user@ == new_utilisateur@.with_password(user@.mot_de_passe->Some_0).with_id(
                old(store).spec_next_id(),
            )
            &&& password_matches(new_utilisateur@.mot_de_passe->Some_0, user@.mot_de_passe->Some_0)
        },
        new_utilisateur@.mot_de_passe is Some ==> exists|salt: Seq<char>|
            salt_byte_count(salt) == Some(FRESH_SALT_BYTES as nat) && user_result_view(res)
                == spec_register(
                old(store)@,
                old(store).spec_next_id(),
                new_utilisateur@,
                #[trigger] spec_hash_for(new_utilisateur@, salt, config.spec_hash_cost()),
            ),
        final(store)@ == after_register(old(store)@, user_result_view(res)),
        final(store).spec_next_id() == if res is Ok {
            old(store).spec_next_id() + 1
        } else {
            old(store).spec_next_id() as int
        },
{
    let hashed = match &new_utilisateur.mot_de_passe {
        Some(password) => hash_password(password.as_str(), config),
        None => Err(AuthError::ConfigurationError),
    };
    proof {
        let cost = config.spec_hash_cost();
        if new_utilisateur@.mot_de_passe is Some {
            let password = new_utilisateur@.mot_de_passe->Some_0;
            let salt = choose|salt: Seq<char>|
                salt_byte_count(salt) == Some(FRESH_SALT_BYTES as nat) && hash_view(hashed)
                    == #[trigger] spec_hash_password(password, salt, cost);
            assert(hash_view(hashed) == spec_hash_for(new_utilisateur@, salt, cost));
        }
    }
    register_hashed(store, new_utilisateur, hashed)
}

/// Replaces every field of the user under `id`. The password field is
/// written as it comes: whoever updates a password hands in its hash.
///
/// The outcome is `spec_update` of the arguments; the table holds the new
/// row in place of the old one on success and stays as it is on failure.
pub fn update_utilisateur(store: &mut UserStore, id: i32, updated_utilisateur: UpdateUtilisateur)
    -> (res: Result<Utilisateur, AuthError>)
    ensures
        user_result_view(res) == spec_update(old(store)@, id, updated_utilisateur@),
        final(store)@ == after_update(old(store)@, id, user_result_view(res)),
        final(store).spec_next_id() == old(store).spec_next_id(),
{
    proof {
        use_type_invariant(&*store);
    }
    let i = match position_of_user(&store.rows, id) {
        None => {
            return Err(AuthError::PersistenceError(StoreError::NotFound));
        },
        Some(i) => i,
    };
    let taken = match &updated_utilisateur.mail {
        Some(mail) => position_of_mail(&store.rows, mail, Some(id)).is_some(),
        None => false,
    };
    if taken {
        return Err(AuthError::Conflict);
    }
    let row = Utilisateur::from_update(id, updated_utilisateur);
    let copy = row.clone();
    let ghost before = store.rows@;
    let ghost after = after_update(user_views(before), id, Ok(row@));
    let mut rows: Vec<Utilisateur> = Vec::new();
    std::mem::swap(&mut store.rows, &mut rows);
    rows.set(i, row);
    assert(user_views(rows@) =~= after) by {
        assert forall|j: int| 0 <= j < before.len() implies #[trigger] user_views(rows@)[j]
            == after[j] by {
            if j != i {
                assert(user_views(before)[j].id != user_views(before)[i as int].id);
            }
        }
    }
    assert(user_ids_ascending(user_views(rows@), store.next_id)) by {
        assert forall|j: int| 0 <= j < rows@.len() implies (#[trigger] user_views(rows@)[j]).id
            == user_views(before)[j].id by {}
    }
    assert(mails_distinct(user_views(rows@))) by {
        assert forall|a: int, b: int|
            0 <= a < b < rows@.len() && user_views(rows@)[a].mail is Some implies user_views(
            rows@,
        )[a].mail != user_views(rows@)[b].mail by {
            assert(user_views(before)[a] == before[a]@);
            assert(user_views(before)[b] == before[b]@);
            if a != i && b != i {
                assert(user_views(rows@)[a] == user_views(before)[a]);
                assert(user_views(rows@)[b] == user_views(before)[b]);
            }
        }
    }
    store.rows = rows;
    Ok(copy)
}

/// The credentials hold: a user holds the email, and the password matches
/// the hash stored for the first such user.
pub open spec fn spec_credentials_match(
    rows: Seq<UtilisateurView>,
    email: Seq<char>,
    password: Seq<char>,
) -> bool {
    first_match(rows, holds_mail(email, None)) matches Some(user) && (
    user.mot_de_passe matches Some(stored) && password_matches(password, stored))
}

/// `outcome` is what a login attempt yields at `now`, and the token in it,
/// if any, is one issued to the user at `now`.
pub open spec fn authenticated_at(
    outcome: Result<Option<AuthResponseView>, AuthError>,
    rows: Seq<UtilisateurView>,
    secret: Seq<char>,
    window: i64,
    email: Seq<char>,
    password: Seq<char>,
    now: i64,
) -> bool {
    &&& outcome == spec_authenticate(rows, secret, window, email, password, now)
    &&& outcome matches Ok(Some(auth)) ==> {
        &&& Some(auth.user) == first_match(rows, holds_mail(email, None))
        &&& issued_at(auth.token, auth.user, secret, now, window)
    }
}

/// Checks a login at the instant `now`.
///
/// The result is `spec_authenticate` of the arguments. Credentials that do
/// not hold give `Ok(None)`. Credentials that hold give the user with a
/// token issued at `now`, unless `now` lies before the epoch or the expiry
/// is not representable, which is a configuration error.
pub fn authenticate_user_at(
    store: &UserStore,
    config: &AuthConfig,
    email: &str,
    password: &str,
    now: i64,
) -> (res: Result<Option<AuthResponse>, AuthError>)
    ensures
        authenticated_at(
            login_view(res),
            store@,
            config.spec_secret(),
            config.spec_validity_window(),
            email@,
            password@,
            now,
        ),
        !spec_credentials_match(store@, email@, password@) ==> res matches Ok(None),
        spec_credentials_match(store@, email@, password@) ==> (res matches Ok(Some(_)) <==> 0
            <= now && now + config.spec_validity_window() <= i64::MAX),
        spec_credentials_match(store@, email@, password@) ==> !(res matches Ok(None)),
{
    let wanted = owned(email);
    let i = match position_of_mail(&store.rows, &wanted, None) {
        None => {
            return Ok(None);
        },
        Some(i) => i,
    };
    let user = store.rows[i].clone();
    let matches = match &user.mot_de_passe {
        Some(stored) => verify_password(password, stored.as_str()),
        None => false,
    };
    if !matches {
        return Ok(None);
    }
    match generate_jwt_token_at(&user, config, now) {
        Ok(token) => Ok(Some(AuthResponse { token, user })),
        Err(e) => Err(e),
    }
}

/// Checks a login at the current time.
///
/// Credentials that hold always give the user with a fresh token;
/// credentials that do not hold give `Ok(None)`. What comes back is
/// `authenticated_at` for some instant on the clock.
pub fn authenticate_user(store: &UserStore, config: &AuthConfig, email: &str, password: &str)
    -> (res: Result<Option<AuthResponse>, AuthError>)
    ensures
        spec_credentials_match(store@, email@, password@) ==> res matches Ok(Some(_)),
        !spec_credentials_match(store@, email@, password@) ==> res matches Ok(None),
        exists|now: i64|
            on_the_clock(now) && #[trigger] authenticated_at(
                login_view(res),
                store@,
                config.spec_secret(),
                config.spec_validity_window(),
                email@,
                password@,
                now,
            ),
{
    let now = current_timestamp();
    let window = config.validity_window();
    assert(now + window <= i64::MAX);
    let res = authenticate_user_at(store, config, email, password, now);
    assert(authenticated_at(
        login_view(res),
        store@,
        config.spec_secret(),
        config.spec_validity_window(),
        email@,
        password@,
        now,
    ));
    res
}

/// A login with an email that no user holds and a login with a wrong
/// password yield the same answer.
pub proof fn lemma_login_failures_look_alike(
    rows: Seq<UtilisateurView>,
    secret: Seq<char>,
    window: i64,
    known: Seq<char>,
    unknown: Seq<char>,
    wrong: Seq<char>,
    any: Seq<char>,
    now: i64,
)
    requires
        first_match(rows, holds_mail(unknown, None)) is None,
        first_match(rows, holds_mail(known, None)) matches Some(user) && (
        user.mot_de_passe matches Some(stored) && !password_matches(wrong, stored)),
    ensures
        spec_authenticate(rows, secret, window, known, wrong, now) == spec_authenticate(
            rows,
            secret,
            window,
            unknown,
            any,
            now,
        ),
        spec_authenticate(rows, secret, window, known, wrong, now) == Ok::<
            Option<AuthResponseView>,
            AuthError,
        >(None),
{
}

} // verus!
