//! The plugin's own identity and the orchestrator-issued credentials.

use vstd::prelude::*;

verus! {

/// The immutable identity of this plugin, sent on registration.
#[derive(Debug, PartialEq)]
pub struct Service {
    pub name: String,
    pub title: String,
    pub description: String,
    pub version: String,
    pub host: String,
}

/// The mathematical content of a `Service`.
pub struct ServiceData {
    pub name: Seq<char>,
    pub title: Seq<char>,
    pub description: Seq<char>,
    pub version: Seq<char>,
    pub host: Seq<char>,
}

impl View for Service {
    type V = ServiceData;

    open spec fn view(&self) -> ServiceData {
        ServiceData {
            name: self.name@,
            title: self.title@,
            description: self.description@,
            version: self.version@,
            host: self.host@,
        }
    }
}

/// The name and secret this plugin authenticates with. A single current
/// value: the install callback overwrites it, and every authentication
/// reads the value stored at that moment.
#[derive(Debug, PartialEq)]
pub struct Credentials {
    pub name: String,
    pub password: String,
}

/// The mathematical content of a `Credentials`.
pub struct CredentialsData {
    pub name: Seq<char>,
    pub password: Seq<char>,
}

impl View for Credentials {
    type V = CredentialsData;

    open spec fn view(&self) -> CredentialsData {
        CredentialsData { name: self.name@, password: self.password@ }
    }
}

/// The placeholder pair that stands in until the install callback
/// delivers a real one.
pub open spec fn spec_default_credentials() -> CredentialsData {
    CredentialsData { name: "your-email@example.com"@, password: "admin"@ }
}

impl Credentials {
    pub fn new(name: String, password: String) -> (r: Credentials)
        ensures
            r@.name == name@,
            r@.password == password@,
    {
        Credentials { name, password }
    }
}

impl Default for Credentials {
    /// The documented placeholder value used before any install callback.
    fn default() -> (r: Credentials)
        ensures
            r@ == spec_default_credentials(),
    {
        Credentials {
            name: String::from_str("your-email@example.com"),
            password: String::from_str("admin"),
        }
    }
}

/// The credentials to use given what the store held: the stored pair if
/// one was there, else the documented placeholder.
pub fn credentials_or_default(loaded: Option<Credentials>) -> (r: Credentials)
    ensures
        match loaded {
            Some(c) => r@ == c@,
            None => r@ == spec_default_credentials(),
        },
{
    match loaded {
        Some(c) => c,
        None => Credentials::default(),
    }
}

} // verus!
