use vstd::prelude::*;
use vstd::string::*;

use crate::config::{Domain, Ip, Keys};
use crate::error::Error;

verus! {

/// API root on the host that answers over IPv4 and IPv6.
pub const ENDPOINT: &'static str = "https://api.porkbun.com/api/json/v3";

/// API root on the host that answers over IPv4 only.
pub const ENDPOINT_IPV4: &'static str = "https://api-ipv4.porkbun.com/api/json/v3";

/// The `status` value of a reply that reports success.
pub const SUCCESS: &'static str = "SUCCESS";

pub open spec fn endpoint_of(ipv6: bool) -> Seq<char> {
    if ipv6 {
        ENDPOINT@
    } else {
        ENDPOINT_IPV4@
    }
}

pub open spec fn record_type_of(ipv6: bool) -> Seq<char> {
    if ipv6 {
        "AAAA"@
    } else {
        "A"@
    }
}

pub open spec fn full_domain_of(d: Domain) -> Seq<char> {
    if d.subdomain@.len() == 0 {
        d.base@
    } else {
        d.subdomain@ + "."@ + d.base@
    }
}

pub open spec fn ping_url_of(ipv6: bool) -> Seq<char> {
    endpoint_of(ipv6) + "/ping"@
}

pub open spec fn records_url_of(d: Domain, ipv6: bool) -> Seq<char> {
    endpoint_of(ipv6) + "/dns/retrieveByNameType/"@ + d.base@ + "/"@ + record_type_of(ipv6) + "/"@
        + d.subdomain@
}

pub open spec fn delete_url_of(d: Domain, ipv6: bool, id: Seq<char>) -> Seq<char> {
    endpoint_of(ipv6) + "/dns/delete/"@ + d.base@ + "/"@ + id
}

pub open spec fn create_url_of(d: Domain, ipv6: bool) -> Seq<char> {
    endpoint_of(ipv6) + "/dns/create/"@ + d.base@
}

/// A reply's status reports success.
pub open spec fn succeeded(status: Option<String>) -> bool {
    status matches Some(s) && s@ == SUCCESS@
}

/// The API root selected by the address family.
pub fn endpoint(ipv6: bool) -> (r: &'static str)
    ensures
        r@ == endpoint_of(ipv6),
{
    if ipv6 {
        ENDPOINT
    } else {
        ENDPOINT_IPV4
    }
}

/// The DNS record type selected by the address family.
pub fn record_type(ipv6: bool) -> (r: &'static str)
    ensures
        r@ == record_type_of(ipv6),
{
    if ipv6 {
        "AAAA"
    } else {
        "A"
    }
}

/// The record's full name.
pub fn full_domain(d: &Domain) -> (r: String)
    ensures
        r@ == full_domain_of(*d),
{
    if d.subdomain.as_str().is_empty() {
        d.base.clone()
    } else {
        let mut r = d.subdomain.clone();
        r.append(".");
        r.append(d.base.as_str());
        r
    }
}

/// The URL of the ping endpoint, which reports the caller's address.
pub fn ping_url(ipv6: bool) -> (r: String)
    ensures
        r@ == ping_url_of(ipv6),
{
    let mut r = String::from_str(endpoint(ipv6));
    r.append("/ping");
    r
}

/// The URL that queries the records of the domain's name and type.
pub fn records_url(d: &Domain, ipv6: bool) -> (r: String)
    ensures
        r@ == records_url_of(*d, ipv6),
{
    let mut r = String::from_str(endpoint(ipv6));
    r.append("/dns/retrieveByNameType/");
    r.append(d.base.as_str());
    r.append("/");
    r.append(record_type(ipv6));
    r.append("/");
    r.append(d.subdomain.as_str());
    r
}

/// The URL that deletes the record with this id.
pub fn delete_url(d: &Domain, ipv6: bool, id: &str) -> (r: String)
    ensures
        r@ == delete_url_of(*d, ipv6, id@),
{
    let mut r = String::from_str(endpoint(ipv6));
    r.append("/dns/delete/");
    r.append(d.base.as_str());
    r.append("/");
    r.append(id);
    r
}

/// The URL that creates a record under the base domain.
pub fn create_url(d: &Domain, ipv6: bool) -> (r: String)
    ensures
        r@ == create_url_of(*d, ipv6),
{
    let mut r = String::from_str(endpoint(ipv6));
    r.append("/dns/create/");
    r.append(d.base.as_str());
    r
}

/// Whether a reply's status reports success.
pub fn is_success(status: &Option<String>) -> (r: bool)
    ensures
        r == succeeded(*status),
{
    match status {
        Some(s) => {
            let expected = String::from_str(SUCCESS);
            *s == expected
        },
        None => false,
    }
}

/// A DNS record as the API reports it.
#[derive(Debug, Clone, PartialEq, Eq)]
pub struct Record {
    pub id: String,
    /// The record type (`A` or `AAAA`); sent as `type`.
    pub record_type: String,
    pub content: String,
    pub ttl: Option<String>,
    pub prio: Option<String>,
    pub notes: Option<String>,
}

/// The reply to a query for records by name and type.
#[derive(Debug, Clone, PartialEq, Eq)]
pub struct RecordsResponse {
    pub status: String,
    pub records: Vec<Record>,
}

/// The body of a request that creates a record.
#[derive(Debug, Clone, PartialEq, Eq)]
pub struct CreateRecord {
    pub secretapikey: String,
    pub apikey: String,
    pub name: String,
    /// The record type (`A` or `AAAA`); sent as `type`.
    pub record_type: String,
    pub content: String,
    pub ttl: Option<String>,
    pub prio: Option<String>,
    pub notes: Option<String>,
}

/// What a request does at the API.
#[derive(Debug, Clone, Copy, PartialEq, Eq)]
pub enum RequestKind {
    /// Ask for the caller's public address.
    Ping,
    /// Query the records of one name and type.
    Retrieve,
    /// Delete one record.
    Delete,
    /// Create one record.
    Create,
}

/// The JSON body of a request.
#[derive(Debug, Clone, PartialEq, Eq)]
pub enum Body {
    /// The credentials alone.
    Keys(Keys),
    /// A new record, with the credentials.
    Create(CreateRecord),
}

/// A POST request to the API.
#[derive(Debug, Clone, PartialEq, Eq)]
pub struct Request {
    pub kind: RequestKind,
    pub url: String,
    pub body: Body,
}

} // verus!
