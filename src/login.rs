//! Login: looking up the user, then its secret, then verifying the password
//! against the stored digest, as a state machine driven by the server, which
//! performs each action and hands back what came of it. Every refusal that
//! depends on the credentials is the same `InvalidCredentials`.
use vstd::prelude::*;
use crate::auth::LoginCredentials;
use crate::error::{HashFault, SecretError, ServiceError, StoreFault};
use crate::secret::{read_secret_key, read_secret_spec, rows_view};
use crate::user::{FullUser, LoggedUser};

verus! {

/// Where a login attempt stands.
pub enum LoginState {
    /// Waiting for the users stored under the target.
    AwaitingUsers { password: String },
    /// Waiting for the secrets stored under the user's username.
    AwaitingSecret { password: String, user: FullUser },
    /// Waiting for the verifier's verdict.
    AwaitingVerdict { user: FullUser },
    Finished,
}

/// What came of the last action.
pub enum LoginEvent {
    /// The users stored under the target.
    UsersFound(Result<Vec<FullUser>, StoreFault>),
    /// The secrets stored under the username.
    SecretsFound(Result<Vec<String>, StoreFault>),
    /// Whether the password matches the digest under the secret.
    Verified(Result<bool, HashFault>),
}

/// What the server is to do next.
pub enum LoginAction {
    /// Look up the users stored under a username.
    FindUsers { target: String },
    /// Look up the secrets stored under a username.
    FindSecrets { username: String },
    /// Verify a password against a digest keyed by a secret.
    Verify { hash: String, password: String, secret: String },
    /// Remember the user's session and answer with the user; the attempt is over.
    SignIn(LoggedUser),
    /// Answer with an error; the attempt is over.
    Refuse(ServiceError),
}

/// The answer a login gives for a secret that could not be read: an
/// integrity fault where there were several, the generic refusal otherwise.
pub open spec fn secret_refusal(e: SecretError) -> ServiceError {
    match e {
        SecretError::Ambiguous => ServiceError::Internal,
        _ => ServiceError::InvalidCredentials,
    }
}

/// An attempt that ends on `a` refusing with `err`.
pub open spec fn login_refuses(t: LoginState, a: LoginAction, err: ServiceError) -> bool {
    t is Finished && a == LoginAction::Refuse(err)
}

/// How a login with `credentials` starts.
pub open spec fn login_start(credentials: LoginCredentials, t: LoginState, a: LoginAction) -> bool {
    &&& t matches LoginState::AwaitingUsers { password }
    &&& password@ == credentials.password_of()
    &&& a matches LoginAction::FindUsers { target }
    &&& target@ == credentials.target_of()
}

/// One step of a login attempt: from `s`, on `e`, to `t`, doing `a`.
pub open spec fn login_next(s: LoginState, e: LoginEvent, t: LoginState, a: LoginAction) -> bool {
    match s {
        LoginState::AwaitingUsers { password } => match e {
            LoginEvent::UsersFound(Ok(rows)) => if rows@.len() == 0 {
                login_refuses(t, a, ServiceError::InvalidCredentials)
            } else if rows@.len() == 1 {
                &&& t == LoginState::AwaitingSecret { password, user: rows@[0] }
                &&& a matches LoginAction::FindSecrets { username }
                &&& username@ == rows@[0].username_of()
            } else {
                login_refuses(t, a, ServiceError::Internal)
            },
            _ => login_refuses(t, a, ServiceError::Internal),
        },
        LoginState::AwaitingSecret { password, user } => match e {
            LoginEvent::SecretsFound(rows) => match read_secret_spec(rows_view(rows)) {
                Err(err) => login_refuses(t, a, secret_refusal(err)),
                Ok(secret) => {
                    &&& t == LoginState::AwaitingVerdict { user }
                    &&& a matches LoginAction::Verify { hash, password: p, secret: s2 }
                    &&& hash@ == user.hash_of()
                    &&& p == password
                    &&& s2 == secret
                },
            },
            _ => login_refuses(t, a, ServiceError::Internal),
        },
        LoginState::AwaitingVerdict { user } => match e {
            LoginEvent::Verified(Ok(true)) => if user.emails_of().len() == 0 {
                login_refuses(t, a, ServiceError::Internal)
            } else {
                &&& t is Finished
                &&& a matches LoginAction::SignIn(shown)
                &&& shown.first_name_of() == user.first_name_of()
                &&& shown.last_name_of() == user.last_name_of()
                &&& shown.username_of() == user.username_of()
                &&& shown.email_of() == user.emails_of()[0]@
            },
            LoginEvent::Verified(Ok(false)) => login_refuses(t, a, ServiceError::InvalidCredentials),
            _ => login_refuses(t, a, ServiceError::Internal),
        },
        LoginState::Finished => login_refuses(t, a, ServiceError::Internal),
    }
}

/// Starts a login attempt: asks for the users stored under the target.
pub fn login(credentials: LoginCredentials) -> (r: (LoginState, LoginAction))
    ensures
        login_start(credentials, r.0, r.1),
{
    let password = String::from_str(credentials.password());
    let target = String::from_str(credentials.target());
    (LoginState::AwaitingUsers { password }, LoginAction::FindUsers { target })
}

impl LoginState {
    /// The next state and action, given what came of the last action.
    pub fn step(self, e: LoginEvent) -> (r: (LoginState, LoginAction))
        ensures
            login_next(self, e, r.0, r.1),
    {
        match self {
            LoginState::AwaitingUsers { password } => match e {
                LoginEvent::UsersFound(Ok(mut rows)) => {
                    if rows.len() == 0 {
                        (LoginState::Finished, LoginAction::Refuse(ServiceError::InvalidCredentials))
                    } else if rows.len() == 1 {
                        let user = rows.pop().unwrap();
                        let username = String::from_str(user.username());
                        (LoginState::AwaitingSecret { password, user }, LoginAction::FindSecrets { username })
                    } else {
                        (LoginState::Finished, LoginAction::Refuse(ServiceError::Internal))
                    }
                },
                _ => (LoginState::Finished, LoginAction::Refuse(ServiceError::Internal)),
            },
            LoginState::AwaitingSecret { password, user } => match e {
                LoginEvent::SecretsFound(rows) => match read_secret_key(rows) {
                    Err(SecretError::Ambiguous) => (
                        LoginState::Finished,
                        LoginAction::Refuse(ServiceError::Internal),
                    ),
                    Err(_) => (LoginState::Finished, LoginAction::Refuse(ServiceError::InvalidCredentials)),
                    Ok(secret) => {
                        let hash = String::from_str(user.hash());
                        (LoginState::AwaitingVerdict { user }, LoginAction::Verify { hash, password, secret })
                    },
                },
                _ => (LoginState::Finished, LoginAction::Refuse(ServiceError::Internal)),
            },
            LoginState::AwaitingVerdict { user } => match e {
                LoginEvent::Verified(Ok(true)) => {
                    if !user.has_email() {
                        (LoginState::Finished, LoginAction::Refuse(ServiceError::Internal))
                    } else {
                        (LoginState::Finished, LoginAction::SignIn(user.to_logged_user()))
                    }
                },
                LoginEvent::Verified(Ok(false)) => (
                    LoginState::Finished,
                    LoginAction::Refuse(ServiceError::InvalidCredentials),
                ),
                _ => (LoginState::Finished, LoginAction::Refuse(ServiceError::Internal)),
            },
            LoginState::Finished => (LoginState::Finished, LoginAction::Refuse(ServiceError::Internal)),
        }
    }
}

/// A registered user, with exactly one user record and exactly one secret
/// stored under its username, who logs in with that username has the stored
/// digest verified against the given password, keyed by the stored secret.
/// The attempt signs the user in, showing names, username and email, when the
/// verifier accepts, and refuses with `InvalidCredentials` when it rejects.
pub proof fn lemma_registered_user_login(
    credentials: LoginCredentials,
    full: FullUser,
    users: Vec<FullUser>,
    secrets: Vec<String>,
    verdict: bool,
    s0: LoginState,
    a0: LoginAction,
    s1: LoginState,
    a1: LoginAction,
    s2: LoginState,
    a2: LoginAction,
    s3: LoginState,
    a3: LoginAction,
)
    requires
        full.username_of() == credentials.target_of(),
        full.emails_of().len() > 0,
        users@ == seq![full],
        secrets@.len() == 1,
        login_start(credentials, s0, a0),
        login_next(s0, LoginEvent::UsersFound(Ok(users)), s1, a1),
        login_next(s1, LoginEvent::SecretsFound(Ok(secrets)), s2, a2),
        login_next(s2, LoginEvent::Verified(Ok(verdict)), s3, a3),
    ensures
        a0 matches LoginAction::FindUsers { target } && target@ == credentials.target_of(),
        a1 matches LoginAction::FindSecrets { username } && username@ == credentials.target_of(),
        a2 matches LoginAction::Verify { hash, password, secret } && hash@ == full.hash_of()
            && password@ == credentials.password_of() && secret == secrets@[0],
        s3 is Finished,
        verdict ==> (a3 matches LoginAction::SignIn(shown) && shown.first_name_of()
            == full.first_name_of() && shown.last_name_of() == full.last_name_of()
            && shown.username_of() == full.username_of() && shown.email_of()
            == full.emails_of()[0]@),
        !verdict ==> a3 == LoginAction::Refuse(ServiceError::InvalidCredentials),
{
}

/// A login with a username under which no user is stored, one whose user has
/// no stored secret, and one with a wrong password for a registered user all
/// end alike: refused with `InvalidCredentials`.
pub proof fn lemma_refusals_alike(
    unknown: LoginCredentials,
    no_users: Vec<FullUser>,
    no_secrets: Vec<String>,
    s0: LoginState,
    a0: LoginAction,
    s1: LoginState,
    a1: LoginAction,
    awaiting_secret: LoginState,
    t2: LoginState,
    a2: LoginAction,
    awaiting_verdict: LoginState,
    t3: LoginState,
    a3: LoginAction,
)
    requires
        no_users@.len() == 0,
        no_secrets@.len() == 0,
        login_start(unknown, s0, a0),
        login_next(s0, LoginEvent::UsersFound(Ok(no_users)), s1, a1),
        awaiting_secret is AwaitingSecret,
        login_next(awaiting_secret, LoginEvent::SecretsFound(Ok(no_secrets)), t2, a2),
        awaiting_verdict is AwaitingVerdict,
        login_next(awaiting_verdict, LoginEvent::Verified(Ok(false)), t3, a3),
    ensures
        a1 == LoginAction::Refuse(ServiceError::InvalidCredentials),
        a1 == a2,
        a2 == a3,
        s1 is Finished && t2 is Finished && t3 is Finished,
{
}

} // verus!
