//! The server's settings.
use vstd::prelude::*;

verus! {

/// The domain served when the settings name none.
pub fn default_domain() -> (r: String)
    ensures
        r@ == "localhost"@,
{
    String::from_str("localhost")
}

/// The number of workers when the settings name none.
pub fn default_workers() -> (r: usize)
    ensures
        r == 1,
{
    1
}

/// The settings a server starts with.
pub struct Init {
    /// The domain of the server.
    domain: String,
    /// Path to the private key.
    private_key_path: String,
    /// Path to the public certificate.
    public_certificate_path: String,
    /// Address of the document database.
    db_url: String,
    /// Administrator of the document database.
    db_admin: String,
    /// Password of that administrator.
    db_password: String,
    /// How many workers serve requests.
    workers: usize,
    /// dev, test, staging or production.
    mode: String,
}

impl Default for Init {
    fn default() -> (r: Init)
        ensures
            r.domain_of() == Seq::<char>::empty(),
            r.private_key_path_of() == Seq::<char>::empty(),
            r.public_certificate_path_of() == Seq::<char>::empty(),
            r.db_url_of() == Seq::<char>::empty(),
            r.db_admin_of() == Seq::<char>::empty(),
            r.db_password_of() == Seq::<char>::empty(),
            r.workers_of() == 0,
            r.mode_of() == Seq::<char>::empty(),
    {
        Init {
            domain: String::new(),
            private_key_path: String::new(),
            public_certificate_path: String::new(),
            db_url: String::new(),
            db_admin: String::new(),
            db_password: String::new(),
            workers: 0,
            mode: String::new(),
        }
    }
}

impl Init {
    pub closed spec fn domain_of(&self) -> Seq<char> {
        self.domain@
    }

    pub closed spec fn workers_of(&self) -> usize {
        self.workers
    }

    pub closed spec fn private_key_path_of(&self) -> Seq<char> {
        self.private_key_path@
    }

    pub closed spec fn public_certificate_path_of(&self) -> Seq<char> {
        self.public_certificate_path@
    }

    pub closed spec fn db_url_of(&self) -> Seq<char> {
        self.db_url@
    }

    pub closed spec fn db_admin_of(&self) -> Seq<char> {
        self.db_admin@
    }

    pub closed spec fn db_password_of(&self) -> Seq<char> {
        self.db_password@
    }

    pub closed spec fn mode_of(&self) -> Seq<char> {
        self.mode@
    }

    /// Settings, field by field.
    pub fn from_settings(
        domain: String,
        private_key_path: String,
        public_certificate_path: String,
        db_url: String,
        db_admin: String,
        db_password: String,
        workers: usize,
        mode: String,
    ) -> (r: Init)
        ensures
            r.domain_of() == domain@,
            r.private_key_path_of() == private_key_path@,
            r.public_certificate_path_of() == public_certificate_path@,
            r.db_url_of() == db_url@,
            r.db_admin_of() == db_admin@,
            r.db_password_of() == db_password@,
            r.workers_of() == workers,
            r.mode_of() == mode@,
    {
        Init {
            domain,
            private_key_path,
            public_certificate_path,
            db_url,
            db_admin,
            db_password,
            workers,
            mode,
        }
    }

    pub fn workers(&self) -> (r: &usize)
        ensures
            *r == self.workers_of(),
    {
        &self.workers
    }

    pub fn domain(&self) -> (r: &str)
        ensures
            r@ == self.domain_of(),
    {
        self.domain.as_str()
    }

    pub fn private_key_path(&self) -> (r: &str)
        ensures
            r@ == self.private_key_path_of(),
    {
        self.private_key_path.as_str()
    }

    pub fn public_certificate_path(&self) -> (r: &str)
        ensures
            r@ == self.public_certificate_path_of(),
    {
        self.public_certificate_path.as_str()
    }

    pub fn db_url(&self) -> (r: &str)
        ensures
            r@ == self.db_url_of(),
    {
        self.db_url.as_str()
    }

    pub fn db_admin(&self) -> (r: &str)
        ensures
            r@ == self.db_admin_of(),
    {
        self.db_admin.as_str()
    }

    pub fn db_password(&self) -> (r: &str)
        ensures
            r@ == self.db_password_of(),
    {
        self.db_password.as_str()
    }

    pub fn mode(&self) -> (r: &str)
        ensures
            r@ == self.mode_of(),
    {
        self.mode.as_str()
    }
}

} // verus!
