//! Credentials as the client sends them.
use vstd::prelude::*;

verus! {

/// The credential part of a user: email, username and password.
pub struct AuthData {
    email: String,
    username: String,
    password: String,
}

impl Default for AuthData {
    fn default() -> (r: AuthData)
        ensures
            r.email_of() == Seq::<char>::empty(),
            r.username_of() == Seq::<char>::empty(),
            r.password_of() == Seq::<char>::empty(),
    {
        AuthData { email: String::new(), username: String::new(), password: String::new() }
    }
}

impl AuthData {
    pub closed spec fn email_of(&self) -> Seq<char> {
        self.email@
    }

    pub closed spec fn username_of(&self) -> Seq<char> {
        self.username@
    }

    pub closed spec fn password_of(&self) -> Seq<char> {
        self.password@
    }

    pub fn set_password(&mut self, pwd: String)
        ensures
            final(self).password_of() == pwd@,
            final(self).email_of() == old(self).email_of(),
            final(self).username_of() == old(self).username_of(),
    {
        self.password = pwd;
    }

    pub fn password(&self) -> (r: &str)
        ensures
            r@ == self.password_of(),
    {
        self.password.as_str()
    }

    pub fn set_email(&mut self, email: String)
        ensures
            final(self).email_of() == email@,
            final(self).username_of() == old(self).username_of(),
            final(self).password_of() == old(self).password_of(),
    {
        self.email = email;
    }

    pub fn email(&self) -> (r: &str)
        ensures
            r@ == self.email_of(),
    {
        self.email.as_str()
    }

    pub fn set_username(&mut self, username: String)
        ensures
            final(self).username_of() == username@,
            final(self).email_of() == old(self).email_of(),
            final(self).password_of() == old(self).password_of(),
    {
        self.username = username;
    }

    pub fn username(&self) -> (r: &str)
        ensures
            r@ == self.username_of(),
    {
        self.username.as_str()
    }
}

/// What a client sends to log in: a username as target, and a password.
pub struct LoginCredentials {
    target: String,
    password: String,
}

impl LoginCredentials {
    pub closed spec fn target_of(&self) -> Seq<char> {
        self.target@
    }

    pub closed spec fn password_of(&self) -> Seq<char> {
        self.password@
    }

    pub fn new(target: String, password: String) -> (r: LoginCredentials)
        ensures
            r.target_of() == target@,
            r.password_of() == password@,
    {
        LoginCredentials { target, password }
    }

    pub fn target(&self) -> (r: &str)
        ensures
            r@ == self.target_of(),
    {
        self.target.as_str()
    }

    pub fn password(&self) -> (r: &str)
        ensures
            r@ == self.password_of(),
    {
        self.password.as_str()
    }
}

} // verus!
