use vstd::prelude::*;
use vstd::string::*;

verus! {

/// Every way a run of the updater can fail.
///
/// Failures of the collaborators (file system, environment, TOML, HTTP)
/// are carried as their messages.
#[derive(Debug, Clone, PartialEq, Eq)]
pub enum Error {
    /// No configuration file existed; a template was written at this path.
    NoConfig(String),
    /// The ping reply held no address.
    NoIp,
    /// The record query did not succeed.
    NoRecords,
    /// Deleting the stale record did not succeed.
    Delete,
    /// Creating the new record did not succeed.
    Create,
    /// A file could not be read or written.
    Io(String),
    /// A required environment variable, named here, is not set.
    Var(String),
    /// The configuration file could not be parsed.
    Parse(String),
    /// The configuration could not be serialized.
    Serialize(String),
    /// An HTTP request failed or its reply could not be decoded.
    Network(String),
}

/// The human-readable message of an error.
pub open spec fn message_of(e: Error) -> Seq<char> {
    match e {
        Error::NoConfig(path) => "Generated config file at: "@ + path@ + "."@,
        Error::NoIp => "Couldn't retrieve IP address."@,
        Error::NoRecords => "Couldn't retrieve records."@,
        Error::Delete => "Couldn't delete record."@,
        Error::Create => "Couldn't create record."@,
        Error::Io(m) => m@,
        Error::Var(name) => "environment variable not found: "@ + name@,
        Error::Parse(m) => m@,
        Error::Serialize(m) => m@,
        Error::Network(m) => m@,
    }
}

impl Error {
    /// The message shown to the user for this error.
    pub fn message(&self) -> (r: String)
        ensures
            r@ == message_of(*self),
    {
        match self {
            Error::NoConfig(path) => {
                let mut r = String::from_str("Generated config file at: ");
                r.append(path.as_str());
                r.append(".");
                r
            },
            Error::NoIp => String::from_str("Couldn't retrieve IP address."),
            Error::NoRecords => String::from_str("Couldn't retrieve records."),
            Error::Delete => String::from_str("Couldn't delete record."),
            Error::Create => String::from_str("Couldn't create record."),
            Error::Io(m) => m.clone(),
            Error::Var(name) => {
                let mut r = String::from_str("environment variable not found: ");
                r.append(name.as_str());
                r
            },
            Error::Parse(m) => m.clone(),
            Error::Serialize(m) => m.clone(),
            Error::Network(m) => m.clone(),
        }
    }
}

} // verus!
