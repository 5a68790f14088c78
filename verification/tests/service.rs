use ged_auth::errors::ServiceError;
use ged_auth::handlers::{
    find_user_by_uid, get_user, insert_new_user, login, logout, register, verify_user,
};
use ged_auth::model::{escape_json, user_json, AuthData, NewUser, User};
use ged_auth::session::{CookieAction, CookieAuth, GateDecision};
use ged_auth::store::UserStore;

fn server_key() -> Vec<u8> {
    "0123456789abcdef".repeat(4).into_bytes()
}

fn alice() -> NewUser {
    NewUser {
        name: String::from("Alice"),
        password: String::from("secret"),
        email: String::from("a@x.com"),
    }
}

#[test]
fn register_returns_user_with_generated_id_and_hashed_password() {
    let mut store = UserStore::new();
    let (user, body) = register(&mut store, alice()).expect("first registration succeeds");
    assert_eq!(user.id.len(), 36);
    assert_eq!(user.name, "Alice");
    assert_eq!(user.email, "a@x.com");
    assert_ne!(user.password, "secret");
    let expected = format!(
        "{{\"id\":\"{}\",\"name\":\"Alice\",\"email\":\"a@x.com\"}}",
        user.id
    );
    assert_eq!(body, expected);
    assert!(!body.contains("password"));
    assert!(!body.contains("secret"));
}

#[test]
fn duplicate_email_registration_fails_with_storage_error() {
    let mut store = UserStore::new();
    let (first, _) = register(&mut store, alice()).expect("first registration succeeds");
    let second = register(
        &mut store,
        NewUser {
            name: String::from("Mallory"),
            password: String::from("other"),
            email: String::from("a@x.com"),
        },
    );
    match second {
        Err(ServiceError::Storage) => {}
        other => panic!("duplicate email must be a storage fault, got {:?}", other),
    }
    // The first registration is unaffected.
    let found = find_user_by_uid(&store, &first.id).expect("first user still stored");
    assert_eq!(found.email, "a@x.com");
    assert_eq!(found.name, "Alice");
}

#[test]
fn login_with_good_credentials_returns_user_and_cookie() {
    let mut store = UserStore::new();
    let session = CookieAuth::new(server_key());
    let (created, _) = register(&mut store, alice()).expect("registration succeeds");
    let auth_data = AuthData { email: String::from("a@x.com"), password: String::from("secret") };
    let (user, action, body) = login(&store, &auth_data, &session).expect("login succeeds");
    assert_eq!(user.id, created.id);
    assert_eq!(body, user_json(&user));
    let cookie = match action {
        CookieAction::Issue(c) => c,
        CookieAction::Clear => panic!("login must issue a cookie"),
    };
    // The issued cookie passes the middleware and carries the serialized user.
    let gate = session.new_transform();
    match gate.call(Some(&cookie)) {
        GateDecision::Forward(claim) => assert_eq!(claim, body),
        GateDecision::Reject(code) => panic!("issued cookie rejected with {}", code),
    }
}

#[test]
fn unknown_email_and_wrong_password_are_indistinguishable() {
    let mut store = UserStore::new();
    let session = CookieAuth::new(server_key());
    register(&mut store, alice()).expect("registration succeeds");
    let unknown =
        AuthData { email: String::from("nobody@x.com"), password: String::from("secret") };
    let wrong = AuthData { email: String::from("a@x.com"), password: String::from("wrong") };
    let e1 = login(&store, &unknown, &session).expect_err("unknown email fails");
    let e2 = login(&store, &wrong, &session).expect_err("wrong password fails");
    assert_eq!(e1, e2);
    assert_eq!(e1, ServiceError::Unauthorized);
    assert_eq!(e1.status_code(), 401);
    assert_eq!(e1.message(), e2.message());
    // verify_user reports the same single error value too.
    assert_eq!(verify_user(&store, &unknown).expect_err("fails"), ServiceError::Unauthorized);
    assert_eq!(verify_user(&store, &wrong).expect_err("fails"), ServiceError::Unauthorized);
}

#[test]
fn get_user_unknown_id_is_not_found_and_known_id_omits_password() {
    let mut store = UserStore::new();
    let (created, _) = register(&mut store, alice()).expect("registration succeeds");
    let missing = String::from("00000000-0000-0000-0000-000000000000");
    match get_user(&store, &missing) {
        Err(e) => {
            assert_eq!(e, ServiceError::NotFound);
            assert_eq!(e.status_code(), 404);
        }
        Ok(_) => panic!("unknown id must be a not-found error"),
    }
    let (user, body) = get_user(&store, &created.id).expect("known id is found");
    assert_eq!(user.id, created.id);
    assert_eq!(user.email, "a@x.com");
    assert!(!body.contains("password"));
    assert!(body.contains(&format!("\"id\":\"{}\"", created.id)));
}

#[test]
fn logout_clears_the_cookie_and_confirms() {
    let session = CookieAuth::new(server_key());
    let (action, body) = logout(&session);
    assert!(matches!(action, CookieAction::Clear));
    assert_eq!(body, "Logged out");
    // Idempotent: a second logout behaves the same.
    let (again, body2) = logout(&session);
    assert!(matches!(again, CookieAction::Clear));
    assert_eq!(body2, "Logged out");
}

#[test]
fn full_session_scenario() {
    let mut store = UserStore::new();
    let session = CookieAuth::new(server_key());
    let gate = session.new_transform();

    // Register Alice: a user with a generated id and no password in the body.
    let (created, reg_body) = register(&mut store, alice()).expect("registration succeeds");
    assert!(!reg_body.contains("password"));

    // Login with the right password: cookie set, same user returned.
    let good = AuthData { email: String::from("a@x.com"), password: String::from("secret") };
    let (user, action, _) = login(&store, &good, &session).expect("login succeeds");
    assert_eq!(user.id, created.id);
    let cookie = match action {
        CookieAction::Issue(c) => c,
        CookieAction::Clear => panic!("login must issue a cookie"),
    };

    // A protected fetch with that cookie is forwarded and finds the user.
    match gate.call(Some(&cookie)) {
        GateDecision::Forward(_) => {}
        GateDecision::Reject(code) => panic!("issued cookie rejected with {}", code),
    }
    let (fetched, _) = get_user(&store, &created.id).expect("user is found");
    assert_eq!(fetched.id, created.id);

    // Logout clears the cookie; a request without one is rejected.
    let (action, _) = logout(&session);
    assert!(matches!(action, CookieAction::Clear));
    assert!(matches!(gate.call(None), GateDecision::Reject(401)));

    // Login with the wrong password is unauthorized.
    let bad = AuthData { email: String::from("a@x.com"), password: String::from("wrong") };
    let err = login(&store, &bad, &session).expect_err("wrong password fails");
    assert_eq!(err.status_code(), 401);
}

#[test]
fn insert_new_user_hashes_and_stores() {
    let mut store = UserStore::new();
    let user = insert_new_user(&mut store, alice()).expect("insert succeeds");
    assert!(user.password.starts_with("$argon2"));
    let found = find_user_by_uid(&store, &user.id).expect("stored");
    assert_eq!(found.password, user.password);
}

#[test]
fn user_json_escapes_special_characters() {
    let user = User {
        id: String::from("u-1"),
        name: String::from("A\"B\\C\nD"),
        password: String::from("hash"),
        email: String::from("a@x.com"),
    };
    assert_eq!(
        user_json(&user),
        "{\"id\":\"u-1\",\"name\":\"A\\\"B\\\\C\\u000aD\",\"email\":\"a@x.com\"}"
    );
    assert_eq!(escape_json("plain"), "plain");
    assert_eq!(escape_json("tab\there"), "tab\\u0009here");
    assert_eq!(escape_json(""), "");
}

#[test]
fn error_kinds_map_to_their_status_codes() {
    assert_eq!(ServiceError::Unauthorized.status_code(), 401);
    assert_eq!(ServiceError::NotFound.status_code(), 404);
    assert_eq!(ServiceError::Storage.status_code(), 500);
    assert_eq!(ServiceError::Unauthorized.message(), "Unauthorized");
    assert_eq!(ServiceError::NotFound.message(), "Not Found");
    assert_eq!(ServiceError::Storage.message(), "Internal Server Error");
}
