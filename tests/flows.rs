use avocado::auth::{AuthData, LoginCredentials};
use avocado::error::{HashFault, ServiceError, StoreFault, ValidationError};
use avocado::login::{login, LoginAction, LoginEvent, LoginState};
use avocado::register::{
    check_registration, register_user, validate_and_unwrap, RegisterAction, RegisterEvent,
    RegisterState, MIN_POWER,
};
use avocado::user::{FullUser, User};

const STRONG: &str = "Str0ng!Pass-Word#2024";

fn user(first: &str, last: &str, username: &str, email: &str, password: &str) -> User {
    let mut credentials = AuthData::default();
    credentials.set_email(email.to_string());
    credentials.set_username(username.to_string());
    credentials.set_password(password.to_string());
    User { first_name: first.to_string(), last_name: last.to_string(), credentials }
}

fn ada(password: &str) -> User {
    user("Ada", "Lovelace", "ada", "ada@example.com", password)
}

fn validation(r: Result<User, ServiceError>) -> Option<ValidationError> {
    match r {
        Err(ServiceError::Validation(v)) => Some(v),
        _ => None,
    }
}

/// Runs a registration where every collaborator succeeds; returns the stored
/// user, the secret it was hashed with, and the final action.
fn register_ok(u: User) -> (FullUser, String, RegisterAction) {
    let (s, a) = register_user(u);
    assert!(matches!(a, RegisterAction::FindUsers { ref username } if username == "ada"));
    let (s, a) = s.step(RegisterEvent::UsersFound(Ok(0)));
    assert!(matches!(a, RegisterAction::CreateSecret { ref username } if username == "ada"));
    let secret = "k".repeat(45);
    let (s, a) = s.step(RegisterEvent::SecretStored(Ok(secret.clone())));
    match a {
        RegisterAction::HashPassword { password, secret: key } => {
            assert_eq!(password, STRONG);
            assert_eq!(key, secret);
        }
        _ => panic!("expected a hash request"),
    }
    let (s, a) = s.step(RegisterEvent::Hashed(Ok("digest-of-password".to_string())));
    let stored = match a {
        RegisterAction::StoreUser { user } => user,
        _ => panic!("expected a store request"),
    };
    let (s, a) = s.step(RegisterEvent::UserStored(Ok(())));
    assert!(matches!(s, RegisterState::Finished));
    (stored, secret, a)
}

#[test]
fn threshold_boundary() {
    let u = ada(STRONG);
    assert_eq!(MIN_POWER, 101);
    assert_eq!(
        check_registration(&u, 100),
        Err(ServiceError::Validation(ValidationError::WeakPassword))
    );
    assert_eq!(check_registration(&u, 101), Ok(()));
    assert_eq!(check_registration(&u, 255), Ok(()));
}

#[test]
fn validation_order() {
    assert_eq!(validation(validate_and_unwrap(user("", "", "", "", ""))), Some(ValidationError::EmptyLastName));
    assert_eq!(validation(validate_and_unwrap(user("", "L", "", "", ""))), Some(ValidationError::EmptyFirstName));
    assert_eq!(validation(validate_and_unwrap(user("F", "L", "", "", ""))), Some(ValidationError::EmptyUsername));
    assert_eq!(validation(validate_and_unwrap(user("F", "L", "u", "", ""))), Some(ValidationError::EmptyEmail));
    assert_eq!(validation(validate_and_unwrap(user("F", "L", "u", "e", ""))), Some(ValidationError::EmptyPassword));
    assert_eq!(validation(validate_and_unwrap(user("F", "L", "u", "e", "weak"))), Some(ValidationError::WeakPassword));
    let ok = validate_and_unwrap(user("F", "L", "u", "e", STRONG)).ok().unwrap();
    assert_eq!(ok.credentials.password(), STRONG);
}

#[test]
fn stated_scenario_password_is_too_weak() {
    // "Str0ng!Pass" scores 56, under the threshold of 101.
    let (s, a) = register_user(ada("Str0ng!Pass"));
    assert!(matches!(s, RegisterState::Finished));
    assert!(matches!(
        a,
        RegisterAction::Respond(Err(ServiceError::Validation(ValidationError::WeakPassword)))
    ));
}

#[test]
fn registration_stores_one_user_and_answers_projection() {
    let (stored, _, a) = register_ok(ada(STRONG));
    assert_eq!(stored.username(), "ada");
    assert_eq!(stored.hash(), "digest-of-password");
    assert_eq!(stored.emails, vec!["ada@example.com".to_string()]);
    match a {
        RegisterAction::Respond(Ok(info)) => {
            assert_eq!(info.first_name, "Ada");
            assert_eq!(info.last_name, "Lovelace");
            assert_eq!(info.credentials.username(), "ada");
            assert_eq!(info.credentials.email(), "ada@example.com");
            assert_eq!(info.credentials.password(), "");
        }
        _ => panic!("expected a successful answer"),
    }
}

#[test]
fn registration_of_taken_username() {
    let (s, _) = register_user(ada(STRONG));
    let (s, a) = s.step(RegisterEvent::UsersFound(Ok(1)));
    assert!(matches!(s, RegisterState::Finished));
    assert!(matches!(
        a,
        RegisterAction::Respond(Err(ServiceError::Validation(ValidationError::UsernameTaken)))
    ));
}

#[test]
fn registration_faults_are_internal() {
    let (s, _) = register_user(ada(STRONG));
    let (_, a) = s.step(RegisterEvent::UsersFound(Err(StoreFault)));
    assert!(matches!(a, RegisterAction::Respond(Err(ServiceError::Internal))));

    let (s, _) = register_user(ada(STRONG));
    let (s, _) = s.step(RegisterEvent::UsersFound(Ok(0)));
    let (_, a) = s.step(RegisterEvent::SecretStored(Err(StoreFault)));
    assert!(matches!(a, RegisterAction::Respond(Err(ServiceError::Internal))));

    let (s, _) = register_user(ada(STRONG));
    let (s, _) = s.step(RegisterEvent::UsersFound(Ok(0)));
    let (s, _) = s.step(RegisterEvent::SecretStored(Ok("k".to_string())));
    let (_, a) = s.step(RegisterEvent::Hashed(Err(HashFault)));
    assert!(matches!(a, RegisterAction::Respond(Err(ServiceError::Internal))));

    let (s, _) = register_user(ada(STRONG));
    let (s, _) = s.step(RegisterEvent::UsersFound(Ok(0)));
    let (s, _) = s.step(RegisterEvent::SecretStored(Ok("k".to_string())));
    let (s, _) = s.step(RegisterEvent::Hashed(Ok("d".to_string())));
    let (_, a) = s.step(RegisterEvent::UserStored(Err(StoreFault)));
    assert!(matches!(a, RegisterAction::Respond(Err(ServiceError::Internal))));

    let (_, a) = RegisterState::Finished.step(RegisterEvent::UserStored(Ok(())));
    assert!(matches!(a, RegisterAction::Respond(Err(ServiceError::Internal))));
}

/// Runs a login against a store with the given users and secrets, with the
/// verifier answering `verdict`.
fn login_with(
    target: &str,
    password: &str,
    users: Vec<FullUser>,
    secrets: Vec<String>,
    verdict: Result<bool, HashFault>,
) -> LoginAction {
    let (s, a) = login(LoginCredentials::new(target.to_string(), password.to_string()));
    match a {
        LoginAction::FindUsers { target: t } => assert_eq!(t, target),
        _ => panic!("expected a user lookup"),
    }
    let (s, a) = s.step(LoginEvent::UsersFound(Ok(users)));
    match a {
        LoginAction::FindSecrets { username } => assert_eq!(username, target),
        other => return other,
    }
    let expected_secret = secrets.first().cloned();
    let (s, a) = s.step(LoginEvent::SecretsFound(Ok(secrets)));
    match a {
        LoginAction::Verify { password: p, secret, .. } => {
            assert_eq!(p, password);
            assert_eq!(Some(secret), expected_secret);
        }
        other => return other,
    }
    let (s, a) = s.step(LoginEvent::Verified(verdict));
    assert!(matches!(s, LoginState::Finished));
    a
}

fn is_invalid(a: &LoginAction) -> bool {
    matches!(a, LoginAction::Refuse(ServiceError::InvalidCredentials))
}

#[test]
fn scenario_register_then_login() {
    let (stored, secret, a) = register_ok(ada(STRONG));
    assert!(matches!(a, RegisterAction::Respond(Ok(_))));
    let hash = stored.hash().to_string();

    let (s, _) = login(LoginCredentials::new("ada".to_string(), STRONG.to_string()));
    let (s, _) = s.step(LoginEvent::UsersFound(Ok(vec![stored])));
    let (s, a) = s.step(LoginEvent::SecretsFound(Ok(vec![secret.clone()])));
    match a {
        LoginAction::Verify { hash: h, password, secret: k } => {
            assert_eq!(h, hash);
            assert_eq!(password, STRONG);
            assert_eq!(k, secret);
        }
        _ => panic!("expected a verification"),
    }
    let (_, a) = s.step(LoginEvent::Verified(Ok(true)));
    match a {
        LoginAction::SignIn(shown) => {
            assert_eq!(shown.first_name, "Ada");
            assert_eq!(shown.last_name, "Lovelace");
            assert_eq!(shown.username(), "ada");
            assert_eq!(shown.email(), "ada@example.com");
        }
        _ => panic!("expected a sign-in"),
    }
}

#[test]
fn scenario_wrong_password() {
    let (stored, secret, _) = register_ok(ada(STRONG));
    let a = login_with("ada", "wrong", vec![stored], vec![secret], Ok(false));
    assert!(is_invalid(&a));
    if let LoginAction::Refuse(e) = a {
        assert_eq!(e.status_code(), 400);
        assert_eq!(e.message(), "Your credentials are wrong");
    }
}

#[test]
fn unknown_user_refused_like_wrong_password() {
    let unknown = login_with("nobody", "whatever", vec![], vec![], Ok(true));
    let (stored, secret, _) = register_ok(ada(STRONG));
    let wrong = login_with("ada", "wrong", vec![stored], vec![secret], Ok(false));
    assert!(is_invalid(&unknown));
    assert!(is_invalid(&wrong));
}

#[test]
fn missing_secret_refused_like_wrong_password() {
    let (stored, _, _) = register_ok(ada(STRONG));
    let a = login_with("ada", STRONG, vec![stored], vec![], Ok(true));
    assert!(is_invalid(&a));
}

#[test]
fn integrity_faults_are_internal() {
    let (first, s1, _) = register_ok(ada(STRONG));
    let (second, _, _) = register_ok(ada(STRONG));
    let a = login_with("ada", STRONG, vec![first, second], vec![s1.clone()], Ok(true));
    assert!(matches!(a, LoginAction::Refuse(ServiceError::Internal)));

    let (stored, _, _) = register_ok(ada(STRONG));
    let a = login_with("ada", STRONG, vec![stored], vec![s1.clone(), s1.clone()], Ok(true));
    assert!(matches!(a, LoginAction::Refuse(ServiceError::Internal)));

    let (stored, _, _) = register_ok(ada(STRONG));
    let a = login_with("ada", STRONG, vec![stored], vec![s1.clone()], Err(HashFault));
    assert!(matches!(a, LoginAction::Refuse(ServiceError::Internal)));

    let (s, _) = login(LoginCredentials::new("ada".to_string(), STRONG.to_string()));
    let (_, a) = s.step(LoginEvent::UsersFound(Err(StoreFault)));
    assert!(matches!(a, LoginAction::Refuse(ServiceError::Internal)));

    let no_email = FullUser::new(String::new(), String::new(), "h".to_string(), vec![], "ada".to_string());
    let a = login_with("ada", STRONG, vec![no_email], vec![s1], Ok(true));
    assert!(matches!(a, LoginAction::Refuse(ServiceError::Internal)));
}

#[test]
fn secret_store_fault_refused_like_wrong_password() {
    let (stored, _, _) = register_ok(ada(STRONG));
    let (s, _) = login(LoginCredentials::new("ada".to_string(), STRONG.to_string()));
    let (s, _) = s.step(LoginEvent::UsersFound(Ok(vec![stored])));
    let (_, a) = s.step(LoginEvent::SecretsFound(Err(StoreFault)));
    assert!(is_invalid(&a));
}
