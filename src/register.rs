//! Registration: validating a candidate user, then provisioning its secret,
//! hashing its password and storing it, as a state machine driven by the
//! server, which performs each action and hands back what came of it. A
//! username under which a user is already stored is refused before any
//! secret is made.
use vstd::prelude::*;
use crate::error::{HashFault, ServiceError, StoreFault, ValidationError};
use crate::power::{power_score, Power};
use crate::secret::{secret_count, Roots};
use crate::user::{user_count, FullUser, User};

verus! {

/// The lowest password strength score that registration accepts.
pub const MIN_POWER: u8 = 101;

/// What validation answers for a candidate user whose password scores
/// `score`: the first failing check wins.
pub open spec fn registration_check(user: User, score: u8) -> Result<(), ServiceError> {
    if user.last_name@.len() == 0 {
        Err(ServiceError::Validation(ValidationError::EmptyLastName))
    } else if user.first_name@.len() == 0 {
        Err(ServiceError::Validation(ValidationError::EmptyFirstName))
    } else if user.credentials.username_of().len() == 0 {
        Err(ServiceError::Validation(ValidationError::EmptyUsername))
    } else if user.credentials.email_of().len() == 0 {
        Err(ServiceError::Validation(ValidationError::EmptyEmail))
    } else if user.credentials.password_of().len() == 0 {
        Err(ServiceError::Validation(ValidationError::EmptyPassword))
    } else if score < MIN_POWER {
        Err(ServiceError::Validation(ValidationError::WeakPassword))
    } else {
        Ok(())
    }
}

/// Validates a candidate user, given the strength score of its password.
pub fn check_registration(user: &User, score: u8) -> (r: Result<(), ServiceError>)
    ensures
        r == registration_check(*user, score),
{
    if user.last_name.as_str().is_empty() {
        Err(ServiceError::Validation(ValidationError::EmptyLastName))
    } else if user.first_name.as_str().is_empty() {
        Err(ServiceError::Validation(ValidationError::EmptyFirstName))
    } else if user.credentials.username().is_empty() {
        Err(ServiceError::Validation(ValidationError::EmptyUsername))
    } else if user.credentials.email().is_empty() {
        Err(ServiceError::Validation(ValidationError::EmptyEmail))
    } else if user.credentials.password().is_empty() {
        Err(ServiceError::Validation(ValidationError::EmptyPassword))
    } else if score < MIN_POWER {
        Err(ServiceError::Validation(ValidationError::WeakPassword))
    } else {
        Ok(())
    }
}

/// Validates a candidate user, scoring its password; hands the user back
/// when it passes.
pub fn validate_and_unwrap(user: User) -> (r: Result<User, ServiceError>)
    ensures
        r == match registration_check(user, power_score(user.credentials.password_of())) {
            Ok(_) => Ok(user),
            Err(e) => Err::<User, ServiceError>(e),
        },
{
    let score = Power::calculate_power(String::from_str(user.credentials.password()));
    match check_registration(&user, score) {
        Ok(()) => Ok(user),
        Err(e) => Err(e),
    }
}

/// Where a registration stands.
pub enum RegisterState {
    /// Waiting for how many users are stored under the username.
    AwaitingUsers(User),
    /// Waiting for the new secret to be stored.
    AwaitingSecret(User),
    /// Waiting for the digest of the password.
    AwaitingDigest(User),
    /// Waiting for the user record to be stored; holds the answer to give.
    AwaitingStore(User),
    Finished,
}

/// What came of the last action.
pub enum RegisterEvent {
    /// How many users are stored under the username.
    UsersFound(Result<usize, StoreFault>),
    /// The secret that was stored for the username.
    SecretStored(Result<String, StoreFault>),
    /// The digest of the password under the secret.
    Hashed(Result<String, HashFault>),
    UserStored(Result<(), StoreFault>),
}

/// What the server is to do next.
pub enum RegisterAction {
    /// Count the users stored under a username.
    FindUsers { username: String },
    /// Store a new secret for a username (`create_secret_key`), and report it.
    CreateSecret { username: String },
    /// Hash a password keyed by a secret.
    HashPassword { password: String, secret: String },
    /// Store a user record.
    StoreUser { user: FullUser },
    /// Answer the client; the registration is over.
    Respond(Result<User, ServiceError>),
}

/// The user as shown back: the given names, username and email, and an
/// empty password.
pub open spec fn shows(
    info: User,
    first_name: Seq<char>,
    last_name: Seq<char>,
    username: Seq<char>,
    email: Seq<char>,
) -> bool {
    &&& info.first_name@ == first_name
    &&& info.last_name@ == last_name
    &&& info.credentials.username_of() == username
    &&& info.credentials.email_of() == email
    &&& info.credentials.password_of() == Seq::<char>::empty()
}

/// The record stored for `user` with password digest `digest`.
pub open spec fn stored_record(full: FullUser, user: User, digest: Seq<char>) -> bool {
    &&& full.first_name_of() == user.first_name@
    &&& full.last_name_of() == user.last_name@
    &&& full.hash_of() == digest
    &&& full.emails_of().len() == 1
    &&& full.emails_of()[0]@ == user.credentials.email_of()
    &&& full.username_of() == user.credentials.username_of()
}

/// A registration that ends on an internal fault.
pub open spec fn register_fails(t: RegisterState, a: RegisterAction) -> bool {
    t is Finished && a == RegisterAction::Respond(Err(ServiceError::Internal))
}

/// How a registration of `user`, whose password scores `score`, starts.
pub open spec fn register_start(user: User, score: u8, t: RegisterState, a: RegisterAction) -> bool {
    match registration_check(user, score) {
        Err(e) => t is Finished && a == RegisterAction::Respond(Err(e)),
        Ok(_) => {
            &&& t == RegisterState::AwaitingUsers(user)
            &&& a matches RegisterAction::FindUsers { username }
            &&& username@ == user.credentials.username_of()
        },
    }
}

/// One step of a registration: from `s`, on `e`, to `t`, doing `a`.
pub open spec fn register_next(
    s: RegisterState,
    e: RegisterEvent,
    t: RegisterState,
    a: RegisterAction,
) -> bool {
    match s {
        RegisterState::AwaitingUsers(user) => match e {
            RegisterEvent::UsersFound(Ok(n)) => if n == 0 {
                &&& t == RegisterState::AwaitingSecret(user)
                &&& a matches RegisterAction::CreateSecret { username }
                &&& username@ == user.credentials.username_of()
            } else {
                t is Finished && a == RegisterAction::Respond(
                    Err(ServiceError::Validation(ValidationError::UsernameTaken)),
                )
            },
            _ => register_fails(t, a),
        },
        RegisterState::AwaitingSecret(user) => match e {
            RegisterEvent::SecretStored(Ok(secret)) => {
                &&& t == RegisterState::AwaitingDigest(user)
                &&& a matches RegisterAction::HashPassword { password, secret: s2 }
                &&& password@ == user.credentials.password_of()
                &&& s2 == secret
            },
            _ => register_fails(t, a),
        },
        RegisterState::AwaitingDigest(user) => match e {
            RegisterEvent::Hashed(Ok(digest)) => {
                &&& t matches RegisterState::AwaitingStore(info)
                &&& shows(
                    info,
                    user.first_name@,
                    user.last_name@,
                    user.credentials.username_of(),
                    user.credentials.email_of(),
                )
                &&& a matches RegisterAction::StoreUser { user: full }
                &&& stored_record(full, user, digest@)
            },
            _ => register_fails(t, a),
        },
        RegisterState::AwaitingStore(info) => match e {
            RegisterEvent::UserStored(Ok(())) => t is Finished && a == RegisterAction::Respond(
                Ok(info),
            ),
            _ => register_fails(t, a),
        },
        RegisterState::Finished => register_fails(t, a),
    }
}

/// Starts the registration of a candidate user: validates it, then asks for
/// the users stored under its username.
pub fn register_user(user: User) -> (r: (RegisterState, RegisterAction))
    ensures
        register_start(user, power_score(user.credentials.password_of()), r.0, r.1),
{
    match validate_and_unwrap(user) {
        Err(e) => (RegisterState::Finished, RegisterAction::Respond(Err(e))),
        Ok(user) => {
            let username = String::from_str(user.credentials.username());
            (RegisterState::AwaitingUsers(user), RegisterAction::FindUsers { username })
        },
    }
}

impl RegisterState {
    /// The next state and action, given what came of the last action.
    pub fn step(self, e: RegisterEvent) -> (r: (RegisterState, RegisterAction))
        ensures
            register_next(self, e, r.0, r.1),
    {
        let fail = (RegisterState::Finished, RegisterAction::Respond(Err(ServiceError::Internal)));
        match self {
            RegisterState::AwaitingUsers(user) => match e {
                RegisterEvent::UsersFound(Ok(n)) => {
                    if n == 0 {
                        let username = String::from_str(user.credentials.username());
                        (RegisterState::AwaitingSecret(user), RegisterAction::CreateSecret { username })
                    } else {
                        (
                            RegisterState::Finished,
                            RegisterAction::Respond(
                                Err(ServiceError::Validation(ValidationError::UsernameTaken)),
                            ),
                        )
                    }
                },
                _ => fail,
            },
            RegisterState::AwaitingSecret(user) => match e {
                RegisterEvent::SecretStored(Ok(secret)) => {
                    let password = String::from_str(user.credentials.password());
                    (
                        RegisterState::AwaitingDigest(user),
                        RegisterAction::HashPassword { password, secret },
                    )
                },
                _ => fail,
            },
            RegisterState::AwaitingDigest(user) => match e {
                RegisterEvent::Hashed(Ok(digest)) => {
                    let full = FullUser::create_new_from_user_with_hash(user, digest);
                    let info = full.map_to_info();
                    (RegisterState::AwaitingStore(info), RegisterAction::StoreUser { user: full })
                },
                _ => fail,
            },
            RegisterState::AwaitingStore(info) => match e {
                RegisterEvent::UserStored(Ok(())) => (
                    RegisterState::Finished,
                    RegisterAction::Respond(Ok(info)),
                ),
                _ => fail,
            },
            RegisterState::Finished => fail,
        }
    }
}

/// For a candidate whose fields are all given, a password scoring one less
/// than `MIN_POWER` is refused as too weak, and one scoring `MIN_POWER` is
/// accepted.
pub proof fn lemma_strength_threshold(user: User)
    requires
        user.last_name@.len() > 0,
        user.first_name@.len() > 0,
        user.credentials.username_of().len() > 0,
        user.credentials.email_of().len() > 0,
        user.credentials.password_of().len() > 0,
    ensures
        registration_check(user, (MIN_POWER - 1) as u8) == Err::<(), ServiceError>(
            ServiceError::Validation(ValidationError::WeakPassword),
        ),
        registration_check(user, MIN_POWER) == Ok::<(), ServiceError>(()),
{
}

/// A valid registration whose collaborators all succeed, against a store that
/// holds no user and no secret under its username, leaves exactly one user
/// record and exactly one secret record under that username. The user record
/// holds the password's digest, not the password; the answer shows the
/// names, username and email, with an empty password and no secret.
pub proof fn lemma_registration_stores_one_of_each(
    users: Seq<FullUser>,
    roots: Seq<Roots>,
    user: User,
    score: u8,
    record: Roots,
    secret: String,
    digest: String,
    s0: RegisterState,
    a0: RegisterAction,
    s1: RegisterState,
    a1: RegisterAction,
    s2: RegisterState,
    a2: RegisterAction,
    s3: RegisterState,
    a3: RegisterAction,
    s4: RegisterState,
    a4: RegisterAction,
)
    requires
        registration_check(user, score) is Ok,
        user_count(users, user.credentials.username_of()) == 0,
        secret_count(roots, user.credentials.username_of()) == 0,
        record.username_of() == user.credentials.username_of(),
        record.main_of() == secret@,
        register_start(user, score, s0, a0),
        register_next(
            s0,
            RegisterEvent::UsersFound(Ok(user_count(users, user.credentials.username_of()) as usize)),
            s1,
            a1,
        ),
        register_next(s1, RegisterEvent::SecretStored(Ok(secret)), s2, a2),
        register_next(s2, RegisterEvent::Hashed(Ok(digest)), s3, a3),
        register_next(s3, RegisterEvent::UserStored(Ok(())), s4, a4),
    ensures
        a1 matches RegisterAction::CreateSecret { username } && username@
            == user.credentials.username_of(),
        a2 matches RegisterAction::HashPassword { password, secret: s } && password@
            == user.credentials.password_of() && s == secret,
        a3 matches RegisterAction::StoreUser { user: full } && stored_record(full, user, digest@)
            && user_count(users.push(full), user.credentials.username_of()) == 1,
        secret_count(roots.push(record), user.credentials.username_of()) == 1,
        s4 is Finished,
        a4 matches RegisterAction::Respond(Ok(info)) && shows(
            info,
            user.first_name@,
            user.last_name@,
            user.credentials.username_of(),
            user.credentials.email_of(),
        ),
{
    let u = user.credentials.username_of();
    let full = a3->user;
    assert(users.push(full).drop_last() =~= users);
    assert(roots.push(record).drop_last() =~= roots);
}

} // verus!
