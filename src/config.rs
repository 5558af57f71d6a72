use vstd::prelude::*;
use vstd::string::*;

use crate::error::Error;

verus! {

/// Name of the environment variable that supplies the secret API key.
pub const SECRET_API_KEY_VAR: &'static str = "PORKBUN_SECRET_API_KEY";

/// Name of the environment variable that supplies the API key.
pub const API_KEY_VAR: &'static str = "PORKBUN_API_KEY";

/// Name of the configuration file, looked up in the working directory.
pub const CONFIG_FILE: &'static str = "config.toml";

/// The updater's settings, loaded once at startup.
#[derive(Debug, Clone, PartialEq, Eq)]
pub struct Config {
    pub keys: Option<Keys>,
    pub domain: Domain,
    pub ip: Ip,
}

/// The credential pair sent with every API request.
#[derive(Debug, Clone, PartialEq, Eq)]
pub struct Keys {
    pub secretapikey: String,
    pub apikey: String,
}

/// The record's name: `subdomain.base`, or `base` when the subdomain is empty.
#[derive(Debug, Clone, PartialEq, Eq)]
pub struct Domain {
    pub subdomain: String,
    pub base: String,
}

/// Address selection: a fixed address, or empty to ask the API, and the
/// address family.
#[derive(Debug, Clone, PartialEq, Eq)]
pub struct Ip {
    pub address: String,
    pub ipv6: bool,
}

impl Default for Keys {
    fn default() -> (r: Keys)
        ensures
            r.secretapikey@.len() == 0,
            r.apikey@.len() == 0,
    {
        Keys { secretapikey: String::new(), apikey: String::new() }
    }
}

impl Default for Domain {
    fn default() -> (r: Domain)
        ensures
            r.subdomain@.len() == 0,
            r.base@.len() == 0,
    {
        Domain { subdomain: String::new(), base: String::new() }
    }
}

impl Default for Ip {
    fn default() -> (r: Ip)
        ensures
            r.address@.len() == 0,
            !r.ipv6,
    {
        Ip { address: String::new(), ipv6: false }
    }
}

impl Default for Config {
    /// The template written on a first run: no keys, every text empty, IPv4.
    fn default() -> (r: Config)
        ensures
            r.keys is None,
            r.domain.subdomain@.len() == 0,
            r.domain.base@.len() == 0,
            r.ip.address@.len() == 0,
            !r.ip.ipv6,
    {
        Config { keys: None, domain: Domain::default(), ip: Ip::default() }
    }
}

impl Config {
    /// Fills in the credentials from the values of the two environment
    /// variables. Fails, naming the first one that is missing, and leaves
    /// the configuration as it was, unless both are present.
    pub fn env_keys(&mut self, secretapikey: Option<String>, apikey: Option<String>) -> (r: Result<
        (),
        Error,
    >)
        ensures
            r is Ok <==> (secretapikey is Some && apikey is Some),
            r is Ok ==> final(self).keys == Some(
                Keys { secretapikey: secretapikey.unwrap(), apikey: apikey.unwrap() },
            ),
            r is Ok ==> final(self).domain == old(self).domain && final(self).ip == old(self).ip,
            r is Err ==> *final(self) == *old(self),
            secretapikey is None ==> (r matches Err(Error::Var(name)) && name@
                == SECRET_API_KEY_VAR@),
            secretapikey is Some && apikey is None ==> (r matches Err(Error::Var(name)) && name@
                == API_KEY_VAR@),
    {
        match (secretapikey, apikey) {
            (Some(secretapikey), Some(apikey)) => {
                self.keys = Some(Keys { secretapikey, apikey });
                Ok(())
            },
            (None, _) => Err(Error::Var(String::from_str(SECRET_API_KEY_VAR))),
            (Some(_), None) => Err(Error::Var(String::from_str(API_KEY_VAR))),
        }
    }

    /// The credentials, once they are known to be present.
    pub fn try_keys(&self) -> (r: &Keys)
        requires
            self.keys is Some,
        ensures
            Some(*r) == self.keys,
    {
        match &self.keys {
            Some(keys) => keys,
            None => {
                proof {
                    assert(false);
                }
                &self.keys.as_ref().unwrap()
            },
        }
    }
}

} // verus!
