//! The per-user secret that keys the password hash, and its record.
use vstd::prelude::*;
use crate::error::{SecretError, StoreFault};
use rand::rngs::ThreadRng;

verus! {

/// Number of characters in a generated secret.
pub const SECRET_LENGTH: usize = 45;

/// The characters a secret is drawn from: `A`–`Z`, `a`–`z`, `0`–`9`.
pub open spec fn alphanumeric_ascii(c: char) -> bool {
    let u = c as u32;
    (0x41 <= u <= 0x5a) || (0x61 <= u <= 0x7a) || (0x30 <= u <= 0x39)
}

/// What every generated secret looks like.
pub open spec fn secret_shape(s: Seq<char>) -> bool {
    &&& s.len() == SECRET_LENGTH
    &&& forall|i: int| 0 <= i < s.len() ==> alphanumeric_ascii(#[trigger] s[i])
}

#[verifier::external_type_specification]
#[verifier::external_body]
pub struct ExThreadRng(ThreadRng);

/// Relies on `rand::thread_rng`: a handle on the thread's
/// cryptographically secure generator.
#[verifier::external_body]
fn thread_rng() -> ThreadRng {
    rand::thread_rng()
}

/// Relies on `Rng::sample` with rand's `Alphanumeric` distribution: one
/// character drawn from `A`–`Z`, `a`–`z`, `0`–`9`.
#[verifier::external_body]
fn sample_alphanumeric(rng: &mut ThreadRng) -> (c: char)
    ensures
        alphanumeric_ascii(c),
{
    rand::Rng::sample(rng, rand::distributions::Alphanumeric)
}

/// Relies on `String::push`: the character is appended.
#[verifier::external_body]
fn push_char(s: &mut String, c: char)
    ensures
        final(s)@ == old(s)@.push(c),
{
    s.push(c)
}

/// Relies on chrono's `Utc::now`, written out by its `Display`: the time of
/// the call.
#[verifier::external_body]
fn now_utc() -> String {
    chrono::Utc::now().to_string()
}

/// A fresh random secret of `SECRET_LENGTH` alphanumeric characters.
pub fn generate_key() -> (r: String)
    ensures
        secret_shape(r@),
{
    let mut rng = thread_rng();
    let mut key = String::new();
    let mut i: usize = 0;
    while i < SECRET_LENGTH
        invariant
            i <= SECRET_LENGTH,
            key@.len() == i,
            forall|j: int| 0 <= j < key@.len() ==> alphanumeric_ascii(#[trigger] key@[j]),
        decreases SECRET_LENGTH - i,
    {
        let c = sample_alphanumeric(&mut rng);
        push_char(&mut key, c);
        i = i + 1;
    }
    key
}

/// The record of a user's secret: the secret, its owner, and when it was made.
pub struct Roots {
    /// The secret that keys the user's password hash.
    main: String,
    /// The user owning this secret.
    username: String,
    /// When the secret was made.
    pub created_at: String,
}

impl Roots {
    pub closed spec fn main_of(&self) -> Seq<char> {
        self.main@
    }

    pub closed spec fn username_of(&self) -> Seq<char> {
        self.username@
    }

    /// A record made now.
    pub fn new(main: String, username: String) -> (r: Roots)
        ensures
            r.main_of() == main@,
            r.username_of() == username@,
    {
        let created_at = now_utc();
        Roots { main, username, created_at }
    }

    pub fn main(&self) -> (r: &str)
        ensures
            r@ == self.main_of(),
    {
        self.main.as_str()
    }

    pub fn username(&self) -> (r: &str)
        ensures
            r@ == self.username_of(),
    {
        self.username.as_str()
    }
}

/// The number of secret records owned by `username`.
pub open spec fn secret_count(roots: Seq<Roots>, username: Seq<char>) -> nat
    decreases roots.len(),
{
    if roots.len() == 0 {
        0
    } else {
        secret_count(roots.drop_last(), username) + if roots.last().username_of() == username {
            1nat
        } else {
            0nat
        }
    }
}

/// The record of a new secret for `username`, to be stored.
pub fn create_secret_key(username: String) -> (r: Roots)
    ensures
        r.username_of() == username@,
        secret_shape(r.main_of()),
{
    let secret = generate_key();
    Roots::new(secret, username)
}

/// What reading a user's secret gives, from the secrets stored under the
/// username: a storage fault, none, exactly one, or more than one.
pub open spec fn read_secret_spec(rows: Result<Seq<String>, StoreFault>) -> Result<
    String,
    SecretError,
> {
    match rows {
        Err(_) => Err(SecretError::Storage),
        Ok(rows) => if rows.len() == 0 {
            Err(SecretError::NotFound)
        } else if rows.len() == 1 {
            Ok(rows[0])
        } else {
            Err(SecretError::Ambiguous)
        },
    }
}

pub open spec fn rows_view<T>(rows: Result<Vec<T>, StoreFault>) -> Result<Seq<T>, StoreFault> {
    match rows {
        Ok(v) => Ok(v@),
        Err(e) => Err(e),
    }
}

/// The secret of a user, from the secrets the store holds under the username.
pub fn read_secret_key(rows: Result<Vec<String>, StoreFault>) -> (r: Result<String, SecretError>)
    ensures
        r == read_secret_spec(rows_view(rows)),
{
    match rows {
        Err(_) => Err(SecretError::Storage),
        Ok(mut rows) => {
            if rows.len() == 0 {
                Err(SecretError::NotFound)
            } else if rows.len() == 1 {
                let secret = rows.pop().unwrap();
                Ok(secret)
            } else {
                Err(SecretError::Ambiguous)
            }
        },
    }
}

} // verus!
