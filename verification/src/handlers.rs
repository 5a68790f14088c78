use vstd::prelude::*;

verus! {

use crate::errors::ServiceError;
use crate::hashing::{encoded_hash_of, hash, verifies, verify};
use crate::model::{spec_user_json, user_json, AuthData, NewUser, User, UserView};
use crate::session::{sealed_of, CookieAction, CookieAuth};
use crate::store::{lemma_find_by_id_none, spec_find_by_email, spec_find_by_id, UserStore};

/// Relies on uuid::Uuid::new_v4 and its hyphenated display form: a freshly
/// drawn random identifier, rendered as 36 characters.
#[verifier::external_body]
fn new_user_id() -> (r: String)
    ensures
        r@.len() == 36,
{
    uuid::Uuid::new_v4().to_string()
}

/// Looks a user up by unique identifier through the persistence
/// collaborator's find-by-key operation.
pub fn find_user_by_uid(store: &UserStore, uid: &String) -> (r: Option<User>)
    ensures
        match r {
            Some(u) => spec_find_by_id(store@, uid@) == Some(u@),
            None => spec_find_by_id(store@, uid@) is None,
        },
{
    store.find_by_id(uid)
}

/// Creates and persists a user row from registration input: a fresh unique
/// id, the display name and email as given, and the password replaced by its
/// salted hash. Fails with a storage fault — the store unchanged — only when
/// the email is already registered or the drawn id collides with a stored
/// one; with a fresh email and no stored 36-character id, success is owed.
pub fn insert_new_user(store: &mut UserStore, data: NewUser) -> (r: Result<User, ServiceError>)
    requires
        old(store).wf(),
        data.password@.len() < 0x4000_0000usize,
    ensures
        final(store).wf(),
        match r {
            Ok(u) => {
                &&& u@.name == data.name@
                &&& u@.email == data.email@
                &&& u@.id.len() == 36
                &&& verifies(u@.password, data.password@)
                &&& exists|salt: Seq<u8>| u@.password == encoded_hash_of(data.password@, salt)
                &&& spec_find_by_email(old(store)@, data.email@) is None
                &&& spec_find_by_id(old(store)@, u@.id) is None
                &&& final(store)@ == old(store)@ + seq![u@]
            },
            Err(e) => {
                &&& e == ServiceError::Storage
                &&& final(store)@ == old(store)@
            },
        },
        spec_find_by_email(old(store)@, data.email@) is Some ==> r is Err,
        spec_find_by_email(old(store)@, data.email@) is None && (forall|k: int|
            0 <= k < old(store)@.len() ==> old(store)@[k].id.len() != 36) ==> r is Ok,
        r is Err ==> spec_find_by_email(old(store)@, data.email@) is Some || exists|k: int|
            0 <= k < old(store)@.len() && old(store)@[k].id.len() == 36,
{
    let id = new_user_id();
    let password = hash(data.password.as_str());
    let user = User { id, name: data.name, password, email: data.email };
    let created = user.duplicate();
    proof {
        lemma_find_by_id_none(store@, created@.id);
    }
    match store.insert(user) {
        Ok(()) => Ok(created),
        Err(e) => {
            proof {
                if spec_find_by_email(old(store)@, data.email@) is None {
                    // The storage fault can then only be an id collision: some
                    // stored row carries the freshly drawn 36-character id.
                    assert(spec_find_by_id(old(store)@, created@.id) is Some);
                    assert(!(forall|k: int|
                        0 <= k < old(store)@.len() ==> old(store)@[k].id != created@.id));
                    let k = choose|k: int|
                        !(0 <= k < old(store)@.len() ==> old(store)@[k].id != created@.id);
                    assert(0 <= k < old(store)@.len() && old(store)@[k].id.len() == 36);
                }
            }
            Err(e)
        },
    }
}

/// Registration: persists the new user and serializes the stored row for the
/// response. The body carries id, name and email; the password hash is
/// omitted from it.
pub fn register(store: &mut UserStore, data: NewUser) -> (r: Result<(User, String), ServiceError>)
    requires
        old(store).wf(),
        data.password@.len() < 0x4000_0000usize,
    ensures
        final(store).wf(),
        match r {
            Ok((u, body)) => {
                &&& u@.name == data.name@
                &&& u@.email == data.email@
                &&& u@.id.len() == 36
                &&& verifies(u@.password, data.password@)
                &&& spec_find_by_email(old(store)@, data.email@) is None
                &&& spec_find_by_id(old(store)@, u@.id) is None
                &&& final(store)@ == old(store)@ + seq![u@]
                &&& body@ == spec_user_json(u@)
            },
            Err(e) => {
                &&& e == ServiceError::Storage
                &&& final(store)@ == old(store)@
            },
        },
        spec_find_by_email(old(store)@, data.email@) is Some ==> r is Err,
        spec_find_by_email(old(store)@, data.email@) is None && (forall|k: int|
            0 <= k < old(store)@.len() ==> old(store)@[k].id.len() != 36) ==> r is Ok,
        r is Err ==> spec_find_by_email(old(store)@, data.email@) is Some || exists|k: int|
            0 <= k < old(store)@.len() && old(store)@[k].id.len() == 36,
{
    match insert_new_user(store, data) {
        Ok(u) => {
            let body = user_json(&u);
            Ok((u, body))
        },
        Err(e) => Err(e),
    }
}

/// The outcome of credential verification: the stored user whose email
/// matches, provided the candidate password verifies against the stored
/// hash. An unknown email and a wrong password yield the same error, so the
/// caller cannot tell which of the two failed.
pub open spec fn spec_verify_user(
    users: Seq<UserView>,
    email: Seq<char>,
    password: Seq<char>,
) -> Result<UserView, ServiceError> {
    match spec_find_by_email(users, email) {
        Some(u) => if verifies(u.password, password) {
            Ok(u)
        } else {
            Err(ServiceError::Unauthorized)
        },
        None => Err(ServiceError::Unauthorized),
    }
}

/// Checks login credentials against the stored users.
pub fn verify_user(store: &UserStore, auth_data: &AuthData) -> (r: Result<User, ServiceError>)
    ensures
        match r {
            Ok(u) => spec_verify_user(store@, auth_data.email@, auth_data.password@) == Ok::<UserView, ServiceError>(u@),
            Err(e) => spec_verify_user(store@, auth_data.email@, auth_data.password@) == Err::<
                UserView,
                ServiceError,
            >(e),
        },
{
    match store.find_by_email(&auth_data.email) {
        Some(user) => {
            let verified = verify(user.password.as_str(), auth_data.password.as_str());
            if verified {
                Ok(user)
            } else {
                Err(ServiceError::Unauthorized)
            }
        },
        None => Err(ServiceError::Unauthorized),
    }
}

/// Login: verifies the credentials; on success serializes the user record,
/// writes it as the identity claim into a sealed session cookie, and returns
/// the user with the response body (password omitted). Bad credentials of
/// either kind yield the unauthorized error and no cookie.
pub fn login(store: &UserStore, auth_data: &AuthData, session: &CookieAuth) -> (r: Result<
    (User, CookieAction, String),
    ServiceError,
>)
    requires
        session.wf(),
    ensures
        match r {
            Ok((u, action, body)) => {
                &&& spec_verify_user(store@, auth_data.email@, auth_data.password@) == Ok::<UserView, ServiceError>(u@)
                &&& action matches CookieAction::Issue(c) && c@ == sealed_of(
                    session.key(),
                    spec_user_json(u@),
                )
                &&& body@ == spec_user_json(u@)
            },
            Err(e) => spec_verify_user(store@, auth_data.email@, auth_data.password@) == Err::<
                UserView,
                ServiceError,
            >(e),
        },
{
    match verify_user(store, auth_data) {
        Ok(user) => {
            let claim = user_json(&user);
            let action = session.set_identity(claim.as_str());
            Ok((user, action, claim))
        },
        Err(e) => Err(e),
    }
}

/// Logout: instructs the client to discard the session cookie and confirms.
/// It always succeeds and is idempotent — with no identity present the
/// clearing instruction simply has nothing to remove.
pub fn logout(session: &CookieAuth) -> (r: (CookieAction, String))
    ensures
        r.0 is Clear,
        r.1@ == "Logged out"@,
{
    (session.clear_identity(), "Logged out".to_owned())
}

/// Fetch-user-by-id: the body serializes the matching user without the
/// password; an unknown id is a not-found error.
pub fn get_user(store: &UserStore, user_uid: &String) -> (r: Result<(User, String), ServiceError>)
    ensures
        match r {
            Ok((u, body)) => spec_find_by_id(store@, user_uid@) == Some(u@) && body@
                == spec_user_json(u@),
            Err(e) => e == ServiceError::NotFound && spec_find_by_id(store@, user_uid@) is None,
        },
{
    match find_user_by_uid(store, user_uid) {
        Some(user) => {
            let body = user_json(&user);
            Ok((user, body))
        },
        None => Err(ServiceError::NotFound),
    }
}

/// Login with an email that no user carries and login with a stored user's
/// email but a password that does not verify produce the very same error
/// value: the two failure modes are indistinguishable to the caller.
pub proof fn lemma_login_failures_indistinguishable(
    users1: Seq<UserView>,
    email1: Seq<char>,
    password1: Seq<char>,
    users2: Seq<UserView>,
    email2: Seq<char>,
    password2: Seq<char>,
)
    requires
        spec_find_by_email(users1, email1) is None,
        spec_find_by_email(users2, email2) matches Some(u) && !verifies(u.password, password2),
    ensures
        spec_verify_user(users1, email1, password1) == spec_verify_user(
            users2,
            email2,
            password2,
        ),
        spec_verify_user(users1, email1, password1) == Err::<UserView, ServiceError>(
            ServiceError::Unauthorized,
        ),
{
}

} // verus!
