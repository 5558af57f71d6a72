use porkbun_ddns::api::{
    create_url, delete_url, endpoint, full_domain, is_success, ping_url, record_type, records_url,
    Body, CreateRecord, Record, RecordsResponse, Request, RequestKind,
};
use porkbun_ddns::config::{Domain, Ip, Keys};
use porkbun_ddns::error::Error;
use porkbun_ddns::workflow::{Action, Outcome, Phase, Update};

fn keys() -> Keys {
    Keys { secretapikey: "sk1".to_string(), apikey: "pk1".to_string() }
}

fn domain() -> Domain {
    Domain { subdomain: "home".to_string(), base: "example.com".to_string() }
}

fn update(address: &str, ipv6: bool) -> Update {
    Update::new(keys(), domain(), Ip { address: address.to_string(), ipv6 })
}

fn record(id: &str, content: &str) -> Record {
    Record {
        id: id.to_string(),
        record_type: "A".to_string(),
        content: content.to_string(),
        ttl: Some("600".to_string()),
        prio: Some("0".to_string()),
        notes: Some("home router".to_string()),
    }
}

fn success() -> Option<String> {
    Some("SUCCESS".to_string())
}

fn querying(ip: &str) -> Update {
    let mut u = update(ip, false);
    u.start();
    u
}

const RETRIEVE_URL: &str =
    "https://api-ipv4.porkbun.com/api/json/v3/dns/retrieveByNameType/example.com/A/home";

#[test]
fn fixed_address_skips_ping() {
    let mut u = update("203.0.113.7", false);
    let a = u.start();
    assert_eq!(
        a,
        Action::Send(Request {
            kind: RequestKind::Retrieve,
            url: RETRIEVE_URL.to_string(),
            body: Body::Keys(keys()),
        })
    );
    assert_eq!(u.phase, Phase::Querying { ip: "203.0.113.7".to_string() });
}

#[test]
fn empty_address_pings_ipv4_host() {
    let mut u = update("", false);
    let a = u.start();
    assert_eq!(
        a,
        Action::Send(Request {
            kind: RequestKind::Ping,
            url: "https://api-ipv4.porkbun.com/api/json/v3/ping".to_string(),
            body: Body::Keys(keys()),
        })
    );
    assert_eq!(u.phase, Phase::Resolving);
}

#[test]
fn empty_address_pings_dual_stack_host_for_ipv6() {
    let mut u = update("", true);
    match u.start() {
        Action::Send(req) => {
            assert_eq!(req.kind, RequestKind::Ping);
            assert_eq!(req.url, "https://api.porkbun.com/api/json/v3/ping");
        }
        other => panic!("unexpected action {:?}", other),
    }
}

#[test]
fn ping_without_address_fails() {
    let mut u = update("", false);
    u.start();
    assert_eq!(u.on_ping(None), Action::Fail(Error::NoIp));
    assert_eq!(u.phase, Phase::Finished);
}

#[test]
fn ping_address_is_queried() {
    let mut u = update("", false);
    u.start();
    let a = u.on_ping(Some("198.51.100.4".to_string()));
    match a {
        Action::Send(req) => {
            assert_eq!(req.kind, RequestKind::Retrieve);
            assert_eq!(req.url, RETRIEVE_URL);
        }
        other => panic!("unexpected action {:?}", other),
    }
    assert_eq!(u.phase, Phase::Querying { ip: "198.51.100.4".to_string() });
}

#[test]
fn failed_query_is_no_records() {
    let mut u = querying("203.0.113.7");
    let reply = RecordsResponse {
        status: "ERROR".to_string(),
        records: vec![record("1", "192.0.2.1")],
    };
    assert_eq!(u.on_records(reply), Action::Fail(Error::NoRecords));
    assert_eq!(u.phase, Phase::Finished);
}

#[test]
fn matching_record_is_left_alone() {
    let mut u = querying("203.0.113.7");
    let reply = RecordsResponse {
        status: "SUCCESS".to_string(),
        records: vec![record("1", "203.0.113.7"), record("2", "192.0.2.9")],
    };
    assert_eq!(
        u.on_records(reply),
        Action::Done(Outcome::Unchanged {
            record_type: "A".to_string(),
            ip: "203.0.113.7".to_string(),
        })
    );
    assert_eq!(u.phase, Phase::Finished);
}

#[test]
fn stale_record_is_deleted_then_recreated() {
    let mut u = querying("203.0.113.7");
    let reply = RecordsResponse {
        status: "SUCCESS".to_string(),
        records: vec![record("4711", "192.0.2.1")],
    };
    assert_eq!(
        u.on_records(reply),
        Action::Send(Request {
            kind: RequestKind::Delete,
            url: "https://api-ipv4.porkbun.com/api/json/v3/dns/delete/example.com/4711"
                .to_string(),
            body: Body::Keys(keys()),
        })
    );
    assert_eq!(
        u.on_deleted(success()),
        Action::Send(Request {
            kind: RequestKind::Create,
            url: "https://api-ipv4.porkbun.com/api/json/v3/dns/create/example.com".to_string(),
            body: Body::Create(CreateRecord {
                secretapikey: "sk1".to_string(),
                apikey: "pk1".to_string(),
                name: "home".to_string(),
                record_type: "A".to_string(),
                content: "203.0.113.7".to_string(),
                ttl: Some("600".to_string()),
                prio: Some("0".to_string()),
                notes: Some("home router".to_string()),
            }),
        })
    );
    assert_eq!(
        u.on_created(success()),
        Action::Done(Outcome::Created {
            full_domain: "home.example.com".to_string(),
            ip: "203.0.113.7".to_string(),
        })
    );
    assert_eq!(u.phase, Phase::Finished);
}

#[test]
fn no_record_creates_with_empty_extras() {
    let mut u = querying("203.0.113.7");
    let reply = RecordsResponse { status: "SUCCESS".to_string(), records: vec![] };
    match u.on_records(reply) {
        Action::Send(Request { kind, url, body: Body::Create(c) }) => {
            assert_eq!(kind, RequestKind::Create);
            assert_eq!(url, "https://api-ipv4.porkbun.com/api/json/v3/dns/create/example.com");
            assert_eq!(c.content, "203.0.113.7");
            assert_eq!(c.ttl, None);
            assert_eq!(c.prio, None);
            assert_eq!(c.notes, None);
        }
        other => panic!("unexpected action {:?}", other),
    }
    assert_eq!(u.phase, Phase::Creating { ip: "203.0.113.7".to_string() });
}

#[test]
fn failed_delete_stops_the_run() {
    let mut u = querying("203.0.113.7");
    let reply = RecordsResponse {
        status: "SUCCESS".to_string(),
        records: vec![record("4711", "192.0.2.1")],
    };
    u.on_records(reply);
    assert_eq!(u.on_deleted(Some("ERROR".to_string())), Action::Fail(Error::Delete));
    assert_eq!(u.phase, Phase::Finished);
}

#[test]
fn missing_delete_status_stops_the_run() {
    let mut u = querying("203.0.113.7");
    let reply = RecordsResponse {
        status: "SUCCESS".to_string(),
        records: vec![record("4711", "192.0.2.1")],
    };
    u.on_records(reply);
    assert_eq!(u.on_deleted(None), Action::Fail(Error::Delete));
}

#[test]
fn failed_create_is_reported() {
    let mut u = querying("203.0.113.7");
    let reply = RecordsResponse { status: "SUCCESS".to_string(), records: vec![] };
    u.on_records(reply);
    assert_eq!(u.on_created(Some("ERROR".to_string())), Action::Fail(Error::Create));
    assert_eq!(u.phase, Phase::Finished);
}

#[test]
fn ipv6_queries_aaaa_records() {
    let mut u = update("2001:db8::1", true);
    match u.start() {
        Action::Send(req) => assert_eq!(
            req.url,
            "https://api.porkbun.com/api/json/v3/dns/retrieveByNameType/example.com/AAAA/home"
        ),
        other => panic!("unexpected action {:?}", other),
    }
    let reply = RecordsResponse {
        status: "SUCCESS".to_string(),
        records: vec![record("5", "2001:db8::1")],
    };
    assert_eq!(
        u.on_records(reply),
        Action::Done(Outcome::Unchanged {
            record_type: "AAAA".to_string(),
            ip: "2001:db8::1".to_string(),
        })
    );
}

#[test]
fn urls_and_names() {
    assert_eq!(endpoint(true), "https://api.porkbun.com/api/json/v3");
    assert_eq!(endpoint(false), "https://api-ipv4.porkbun.com/api/json/v3");
    assert_eq!(record_type(true), "AAAA");
    assert_eq!(record_type(false), "A");
    assert_eq!(ping_url(true), "https://api.porkbun.com/api/json/v3/ping");
    let bare = Domain { subdomain: String::new(), base: "example.org".to_string() };
    assert_eq!(full_domain(&bare), "example.org");
    assert_eq!(full_domain(&domain()), "home.example.com");
    assert_eq!(
        records_url(&bare, true),
        "https://api.porkbun.com/api/json/v3/dns/retrieveByNameType/example.org/AAAA/"
    );
    assert_eq!(
        delete_url(&bare, true, "9"),
        "https://api.porkbun.com/api/json/v3/dns/delete/example.org/9"
    );
    assert_eq!(create_url(&bare, true), "https://api.porkbun.com/api/json/v3/dns/create/example.org");
}

#[test]
fn success_status() {
    assert!(is_success(&Some("SUCCESS".to_string())));
    assert!(!is_success(&Some("success".to_string())));
    assert!(!is_success(&Some("ERROR".to_string())));
    assert!(!is_success(&None));
}
