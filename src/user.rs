//! Users: as a client registers them, as stored, and as shown after login.
use vstd::prelude::*;
use crate::auth::AuthData;

verus! {

/// A user as a client sends it at registration, and as it is shown back.
pub struct User {
    pub first_name: String,
    pub last_name: String,
    pub credentials: AuthData,
}

impl Default for User {
    fn default() -> (r: User)
        ensures
            r.first_name@ == Seq::<char>::empty(),
            r.last_name@ == Seq::<char>::empty(),
            r.credentials.email_of() == Seq::<char>::empty(),
            r.credentials.username_of() == Seq::<char>::empty(),
            r.credentials.password_of() == Seq::<char>::empty(),
    {
        User { first_name: String::new(), last_name: String::new(), credentials: AuthData::default() }
    }
}

/// What a client learns of a user who logged in: no hash, no secret.
pub struct LoggedUser {
    pub first_name: String,
    pub last_name: String,
    username: String,
    email: String,
}

impl LoggedUser {
    pub closed spec fn first_name_of(&self) -> Seq<char> {
        self.first_name@
    }

    pub closed spec fn last_name_of(&self) -> Seq<char> {
        self.last_name@
    }

    pub closed spec fn username_of(&self) -> Seq<char> {
        self.username@
    }

    pub closed spec fn email_of(&self) -> Seq<char> {
        self.email@
    }

    pub fn new(first_name: String, last_name: String, username: String, email: String) -> (r:
        LoggedUser)
        ensures
            r.first_name_of() == first_name@,
            r.last_name_of() == last_name@,
            r.username_of() == username@,
            r.email_of() == email@,
    {
        LoggedUser { first_name, last_name, username, email }
    }

    pub fn username(&self) -> (r: &str)
        ensures
            r@ == self.username_of(),
    {
        self.username.as_str()
    }

    pub fn email(&self) -> (r: &str)
        ensures
            r@ == self.email_of(),
    {
        self.email.as_str()
    }
}

/// A user as stored: the password is kept only as its digest.
pub struct FullUser {
    pub first_name: String,
    pub last_name: String,
    hash: String,
    pub emails: Vec<String>,
    pub username: String,
}

impl FullUser {
    pub closed spec fn first_name_of(&self) -> Seq<char> {
        self.first_name@
    }

    pub closed spec fn last_name_of(&self) -> Seq<char> {
        self.last_name@
    }

    pub closed spec fn hash_of(&self) -> Seq<char> {
        self.hash@
    }

    pub closed spec fn emails_of(&self) -> Seq<String> {
        self.emails@
    }

    pub closed spec fn username_of(&self) -> Seq<char> {
        self.username@
    }

    /// A stored user, field by field.
    pub fn new(
        first_name: String,
        last_name: String,
        hash: String,
        emails: Vec<String>,
        username: String,
    ) -> (r: FullUser)
        ensures
            r.first_name_of() == first_name@,
            r.last_name_of() == last_name@,
            r.hash_of() == hash@,
            r.emails_of() == emails@,
            r.username_of() == username@,
    {
        FullUser { first_name, last_name, hash, emails, username }
    }

    /// The record stored for a registration: its names, its email as the only
    /// one, its username, and the digest of its password in place of the
    /// password.
    pub fn create_new_from_user_with_hash(user: User, hash: String) -> (r: FullUser)
        ensures
            r.first_name_of() == user.first_name@,
            r.last_name_of() == user.last_name@,
            r.hash_of() == hash@,
            r.emails_of().len() == 1,
            r.emails_of()[0]@ == user.credentials.email_of(),
            r.username_of() == user.credentials.username_of(),
    {
        let email = String::from_str(user.credentials.email());
        let username = String::from_str(user.credentials.username());
        let mut emails: Vec<String> = Vec::new();
        emails.push(email);
        FullUser { first_name: user.first_name, last_name: user.last_name, hash, emails, username }
    }

    pub fn hash(&self) -> (r: &str)
        ensures
            r@ == self.hash_of(),
    {
        self.hash.as_str()
    }

    pub fn username(&self) -> (r: &str)
        ensures
            r@ == self.username_of(),
    {
        self.username.as_str()
    }

    /// Whether the record holds at least one email.
    pub fn has_email(&self) -> (r: bool)
        ensures
            r == (self.emails_of().len() > 0),
    {
        self.emails.len() > 0
    }

    /// The user as shown back after registration: names, first email and
    /// username, with an empty password.
    pub fn map_to_info(&self) -> (r: User)
        requires
            self.emails_of().len() > 0,
        ensures
            r.first_name@ == self.first_name_of(),
            r.last_name@ == self.last_name_of(),
            r.credentials.email_of() == self.emails_of()[0]@,
            r.credentials.username_of() == self.username_of(),
            r.credentials.password_of() == Seq::<char>::empty(),
    {
        let mut info_cred = AuthData::default();
        info_cred.set_email(self.emails[0].clone());
        info_cred.set_username(self.username.clone());
        User {
            first_name: self.first_name.clone(),
            last_name: self.last_name.clone(),
            credentials: info_cred,
        }
    }

    /// The user as shown after login: names, username and first email.
    pub fn to_logged_user(&self) -> (r: LoggedUser)
        requires
            self.emails_of().len() > 0,
        ensures
            r.first_name_of() == self.first_name_of(),
            r.last_name_of() == self.last_name_of(),
            r.username_of() == self.username_of(),
            r.email_of() == self.emails_of()[0]@,
    {
        LoggedUser::new(
            self.first_name.clone(),
            self.last_name.clone(),
            self.username.clone(),
            self.emails[0].clone(),
        )
    }
}

/// The number of user records stored under `username`.
pub open spec fn user_count(users: Seq<FullUser>, username: Seq<char>) -> nat
    decreases users.len(),
{
    if users.len() == 0 {
        0
    } else {
        user_count(users.drop_last(), username) + if users.last().username_of() == username {
            1nat
        } else {
            0nat
        }
    }
}

} // verus!
