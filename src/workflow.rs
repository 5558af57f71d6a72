use vstd::prelude::*;

use crate::api::{
    create_url,
    create_url_of,
    delete_url,
    delete_url_of,
    full_domain,
    full_domain_of,
    is_success,
    ping_url,
    ping_url_of,
    record_type,
    record_type_of,
    records_url,
    records_url_of,
    succeeded,
    Body,
    CreateRecord,
    Record,
    RecordsResponse,
    Request,
    RequestKind,
    SUCCESS,
};
use crate::config::{Domain, Ip, Keys};
use crate::error::Error;

verus! {

/// Where a run of the update stands.
#[derive(Debug, Clone, PartialEq, Eq)]
pub enum Phase {
    /// Nothing has been sent yet.
    Start,
    /// The ping request is out.
    Resolving,
    /// The record query is out; `ip` is the address to publish.
    Querying { ip: String },
    /// The delete request for `record` is out.
    Deleting { ip: String, record: Record },
    /// The create request is out.
    Creating { ip: String },
    /// The run has ended.
    Finished,
}

/// How a successful run ended.
#[derive(Debug, Clone, PartialEq, Eq)]
pub enum Outcome {
    /// The existing record already holds the address: nothing was changed.
    Unchanged { record_type: String, ip: String },
    /// A record for `full_domain` now holds the address.
    Created { full_domain: String, ip: String },
}

/// What the caller is to do next.
#[derive(Debug, Clone, PartialEq, Eq)]
pub enum Action {
    /// Send this request and hand its reply back.
    Send(Request),
    /// The run succeeded.
    Done(Outcome),
    /// The run failed.
    Fail(Error),
}

/// One run of the updater: it compares the current address with the
/// existing record and replaces the record if it is stale.
///
/// The caller calls `start`, then, for each `Action::Send`, performs the
/// request and hands the reply to the method for that request's kind,
/// until an `Action::Done` or `Action::Fail` comes back.
#[derive(Debug)]
pub struct Update {
    pub keys: Keys,
    pub domain: Domain,
    pub ip: Ip,
    pub phase: Phase,
}

/// The address that the run is to publish, in the phases that know it.
pub open spec fn ip_of(p: Phase) -> String {
    match p {
        Phase::Querying { ip } => ip,
        Phase::Deleting { ip, .. } => ip,
        Phase::Creating { ip } => ip,
        _ => arbitrary(),
    }
}

/// `req` sends the credentials alone to `url`.
pub open spec fn keys_request(req: Request, kind: RequestKind, url: Seq<char>, keys: Keys) -> bool {
    &&& req.kind == kind
    &&& req.url@ == url
    &&& req.body == Body::Keys(keys)
}

/// `req` creates the record of `u` with address `ip` and the given
/// time-to-live, priority and notes.
pub open spec fn create_request(
    req: Request,
    u: Update,
    ip: String,
    ttl: Option<String>,
    prio: Option<String>,
    notes: Option<String>,
) -> bool {
    &&& req.kind == RequestKind::Create
    &&& req.url@ == create_url_of(u.domain, u.ip.ipv6)
    &&& req.body matches Body::Create(c) && {
        &&& c.secretapikey == u.keys.secretapikey
        &&& c.apikey == u.keys.apikey
        &&& c.name == u.domain.subdomain
        &&& c.record_type@ == record_type_of(u.ip.ipv6)
        &&& c.content == ip
        &&& c.ttl == ttl
        &&& c.prio == prio
        &&& c.notes == notes
    }
}

/// The settings of a run never change.
pub open spec fn same_settings(a: Update, b: Update) -> bool {
    a.keys == b.keys && a.domain == b.domain && a.ip == b.ip
}

/// The step taken on a record-query reply, from `u` to `v` with action `a`.
/// Only the first record counts: none leads to a create with no
/// time-to-live, priority or notes; one that holds the address ends the run
/// unchanged; any other is deleted, by its id, before the create.
pub open spec fn records_step(u: Update, reply: RecordsResponse, v: Update, a: Action) -> bool {
    let ip = ip_of(u.phase);
    let records = reply.records@;
    &&& same_settings(v, u)
    &&& reply.status@ != SUCCESS@ ==> v.phase == Phase::Finished && a == Action::Fail(
        Error::NoRecords,
    )
    &&& reply.status@ == SUCCESS@ && records.len() == 0 ==> {
        &&& v.phase == Phase::Creating { ip }
        &&& a matches Action::Send(req) && create_request(req, u, ip, None, None, None)
    }
    &&& reply.status@ == SUCCESS@ && records.len() > 0 && records[0].content@ == ip@ ==> {
        &&& v.phase == Phase::Finished
        &&& a matches Action::Done(Outcome::Unchanged { record_type: t, ip: i })
        &&& t@ == record_type_of(u.ip.ipv6)
        &&& i == ip
    }
    &&& reply.status@ == SUCCESS@ && records.len() > 0 && records[0].content@ != ip@ ==> {
        &&& v.phase == Phase::Deleting { ip, record: records[0] }
        &&& a matches Action::Send(req) && keys_request(
            req,
            RequestKind::Delete,
            delete_url_of(u.domain, u.ip.ipv6, records[0].id@),
            u.keys,
        )
    }
}

/// The step taken on the status of a delete reply, from `u` to `v` with
/// action `a`: on success the replacement carries the deleted record's
/// time-to-live, priority and notes.
pub open spec fn deleted_step(u: Update, status: Option<String>, v: Update, a: Action) -> bool {
    let record = u.phase->record;
    &&& same_settings(v, u)
    &&& !succeeded(status) ==> v.phase == Phase::Finished && a == Action::Fail(Error::Delete)
    &&& succeeded(status) ==> {
        &&& v.phase == Phase::Creating { ip: ip_of(u.phase) }
        &&& a matches Action::Send(req) && create_request(
            req,
            u,
            ip_of(u.phase),
            record.ttl,
            record.prio,
            record.notes,
        )
    }
}

/// A stale record is replaced in two requests, in this order: the query
/// reply leads to exactly one delete, keyed by the first record's id, and a
/// successful delete reply to exactly one create, which publishes the
/// address with the deleted record's time-to-live, priority and notes.
pub proof fn stale_record_is_replaced(
    u0: Update,
    reply: RecordsResponse,
    u1: Update,
    a1: Action,
    status: Option<String>,
    u2: Update,
    a2: Action,
)
    requires
        u0.phase is Querying,
        reply.status@ == SUCCESS@,
        reply.records@.len() > 0,
        reply.records@[0].content@ != ip_of(u0.phase)@,
        records_step(u0, reply, u1, a1),
        succeeded(status),
        deleted_step(u1, status, u2, a2),
    ensures
        (a1 matches Action::Send(d) && keys_request(
            d,
            RequestKind::Delete,
            delete_url_of(u0.domain, u0.ip.ipv6, reply.records@[0].id@),
            u0.keys,
        )),
        (a2 matches Action::Send(c) && create_request(
            c,
            u0,
            ip_of(u0.phase),
            reply.records@[0].ttl,
            reply.records@[0].prio,
            reply.records@[0].notes,
        )),
        (u2.phase == Phase::Creating { ip: ip_of(u0.phase) }),
{
}

/// An exact copy of an optional text.
fn copy_text(t: &Option<String>) -> (r: Option<String>)
    ensures
        r == *t,
{
    match t {
        Some(s) => Some(s.clone()),
        None => None,
    }
}

impl Update {
    /// A run for these settings that has not started.
    pub fn new(keys: Keys, domain: Domain, ip: Ip) -> (r: Update)
        ensures
            r.keys == keys,
            r.domain == domain,
            r.ip == ip,
            r.phase == Phase::Start,
    {
        Update { keys, domain, ip, phase: Phase::Start }
    }

    fn keys_body(&self) -> (r: Body)
        ensures
            r == Body::Keys(self.keys),
    {
        Body::Keys(Keys { secretapikey: self.keys.secretapikey.clone(), apikey: self.keys.apikey.clone() })
    }

    fn retrieve_request(&self) -> (r: Request)
        ensures
            keys_request(r, RequestKind::Retrieve, records_url_of(self.domain, self.ip.ipv6), self.keys),
    {
        Request { kind: RequestKind::Retrieve, url: records_url(&self.domain, self.ip.ipv6), body: self.keys_body() }
    }

    fn create(
        &self,
        ip: &String,
        ttl: Option<String>,
        prio: Option<String>,
        notes: Option<String>,
    ) -> (r: Request)
        ensures
            create_request(r, *self, *ip, ttl, prio, notes),
    {
        let record = CreateRecord {
            secretapikey: self.keys.secretapikey.clone(),
            apikey: self.keys.apikey.clone(),
            name: self.domain.subdomain.clone(),
            record_type: String::from_str(record_type(self.ip.ipv6)),
            content: ip.clone(),
            ttl,
            prio,
            notes,
        };
        Request { kind: RequestKind::Create, url: create_url(&self.domain, self.ip.ipv6), body: Body::Create(record) }
    }

    /// Starts the run. A fixed address in the settings is used as it is,
    /// and the record query goes out at once; otherwise the address is
    /// asked of the ping endpoint.
    pub fn start(&mut self) -> (a: Action)
        requires
            old(self).phase == Phase::Start,
        ensures
            same_settings(*final(self), *old(self)),
            old(self).ip.address@.len() > 0 ==> {
                &&& final(self).phase == Phase::Querying { ip: old(self).ip.address }
                &&& a matches Action::Send(req) && keys_request(
                    req,
                    RequestKind::Retrieve,
                    records_url_of(old(self).domain, old(self).ip.ipv6),
                    old(self).keys,
                )
            },
            old(self).ip.address@.len() == 0 ==> {
                &&& final(self).phase == Phase::Resolving
                &&& a matches Action::Send(req) && keys_request(
                    req,
                    RequestKind::Ping,
                    ping_url_of(old(self).ip.ipv6),
                    old(self).keys,
                )
            },
    {
        if self.ip.address.as_str().is_empty() {
            self.phase = Phase::Resolving;
            Action::Send(Request { kind: RequestKind::Ping, url: ping_url(self.ip.ipv6), body: self.keys_body() })
        } else {
            let req = self.retrieve_request();
            self.phase = Phase::Querying { ip: self.ip.address.clone() };
            Action::Send(req)
        }
    }

    /// Takes the address that the ping reply reported (its `yourIp`, when
    /// that is a string) and sends the record query.
    pub fn on_ping(&mut self, your_ip: Option<String>) -> (a: Action)
        requires
            old(self).phase == Phase::Resolving,
        ensures
            same_settings(*final(self), *old(self)),
            your_ip is None ==> final(self).phase == Phase::Finished && a == Action::Fail(Error::NoIp),
            your_ip matches Some(ip) ==> {
                &&& final(self).phase == Phase::Querying { ip }
                &&& a matches Action::Send(req) && keys_request(
                    req,
                    RequestKind::Retrieve,
                    records_url_of(old(self).domain, old(self).ip.ipv6),
                    old(self).keys,
                )
            },
    {
        match your_ip {
            Some(ip) => {
                let req = self.retrieve_request();
                self.phase = Phase::Querying { ip };
                Action::Send(req)
            },
            None => {
                self.phase = Phase::Finished;
                Action::Fail(Error::NoIp)
            },
        }
    }

    /// Takes the reply of the record query. Only its first record is
    /// considered: none leads to a create, one that holds the address ends
    /// the run unchanged, and any other is deleted first.
    pub fn on_records(&mut self, reply: RecordsResponse) -> (a: Action)
        requires
            old(self).phase is Querying,
        ensures
            records_step(*old(self), reply, *final(self), a),

    {
        let ip = match &self.phase {
            Phase::Querying { ip } => ip.clone(),
            _ => {
                proof {
                    assert(false);
                }
                String::new()
            },
        };
        let expected = String::from_str(SUCCESS);
        if !(reply.status == expected) {
            self.phase = Phase::Finished;
            return Action::Fail(Error::NoRecords);
        }
        let mut records = reply.records;
        if records.len() == 0 {
            let req = self.create(&ip, None, None, None);
            self.phase = Phase::Creating { ip };
            return Action::Send(req);
        }
        let first = records.remove(0);
        if first.content == ip {
            self.phase = Phase::Finished;
            return Action::Done(
                Outcome::Unchanged { record_type: String::from_str(record_type(self.ip.ipv6)), ip },
            );
        }
        let req = Request {
            kind: RequestKind::Delete,
            url: delete_url(&self.domain, self.ip.ipv6, first.id.as_str()),
            body: self.keys_body(),
        };
        self.phase = Phase::Deleting { ip, record: first };
        Action::Send(req)
    }

    /// Takes the status of the delete reply. On success the replacement is
    /// created with the deleted record's time-to-live, priority and notes.
    pub fn on_deleted(&mut self, status: Option<String>) -> (a: Action)
        requires
            old(self).phase is Deleting,
        ensures
            deleted_step(*old(self), status, *final(self), a),

    {
        let (ip, ttl, prio, notes) = match &self.phase {
            Phase::Deleting { ip, record } => (
                ip.clone(),
                copy_text(&record.ttl),
                copy_text(&record.prio),
                copy_text(&record.notes),
            ),
            _ => {
                proof {
                    assert(false);
                }
                (String::new(), None, None, None)
            },
        };
        if !is_success(&status) {
            self.phase = Phase::Finished;
            return Action::Fail(Error::Delete);
        }
        let req = self.create(&ip, ttl, prio, notes);
        self.phase = Phase::Creating { ip };
        Action::Send(req)
    }

    /// Takes the status of the create reply, which ends the run.
    pub fn on_created(&mut self, status: Option<String>) -> (a: Action)
        requires
            old(self).phase is Creating,
        ensures
            same_settings(*final(self), *old(self)),
            final(self).phase == Phase::Finished,
            !succeeded(status) ==> a == Action::Fail(Error::Create),
            succeeded(status) ==> {
                &&& a matches Action::Done(Outcome::Created { full_domain: d, ip })
                &&& d@ == full_domain_of(old(self).domain)
                &&& ip == ip_of(old(self).phase)
            },
    {
        let ip = match &self.phase {
            Phase::Creating { ip } => ip.clone(),
            _ => {
                proof {
                    assert(false);
                }
                String::new()
            },
        };
        self.phase = Phase::Finished;
        if is_success(&status) {
            Action::Done(Outcome::Created { full_domain: full_domain(&self.domain), ip })
        } else {
            Action::Fail(Error::Create)
        }
    }
}

} // verus!
