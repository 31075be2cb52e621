//! Startup parameters and the credential holder. Parsing flags and the
//! environment happens outside the library; the parsed values arrive here as
//! plain data.

use vstd::prelude::*;

verus! {

/// The startup parameters: remote address, local path for the working tree,
/// sync period in milliseconds, author identity, remote credentials and the
/// bind address of the readiness probe.
pub struct Args {
    pub repo: String,
    pub path: String,
    pub period: u64,
    pub author_name: String,
    pub author_email: String,
    pub username: String,
    pub password: String,
    pub http_bind: String,
}

impl Args {
    /// Usable parameters: the timer cannot run on a zero period.
    pub open spec fn wf(self) -> bool {
        self.period > 0
    }

    /// Check the parameters before the loop starts.
    pub fn is_valid(&self) -> (r: bool)
        ensures
            r == self.wf(),
    {
        self.period > 0
    }
}

/// The remote username/password pair, immutable for the process lifetime.
/// The password is never rendered: any printable form of the holder goes
/// through [`RemoteCredential::redacted`], which is a fixed string.
pub struct RemoteCredential {
    username: String,
    password: String,
}

impl RemoteCredential {
    pub closed spec fn spec_username(self) -> Seq<char> {
        self.username@
    }

    pub closed spec fn spec_password(self) -> Seq<char> {
        self.password@
    }

    pub fn new(username: String, password: String) -> (c: RemoteCredential)
        ensures
            c.spec_username() == username@,
            c.spec_password() == password@,
    {
        RemoteCredential { username, password }
    }

    /// The username, needed to authenticate.
    pub fn username(&self) -> (r: &String)
        ensures
            r@ == self.spec_username(),
    {
        &self.username
    }

    /// The password, handed only to the transport that authenticates.
    pub fn password(&self) -> (r: &String)
        ensures
            r@ == self.spec_password(),
    {
        &self.password
    }

    /// The only printable form: a fixed string, independent of the secret.
    pub fn redacted(&self) -> (r: String)
        ensures
            r@ == "RemoteCredential(omitted)"@,
    {
        String::from_str("RemoteCredential(omitted)")
    }
}

} // verus!
