use damp::dns::message::{Answer, QueryType, RData, Response};
use damp::dns::query::{Action, DnsQuery, Query};
use damp::dns::record::{build_record, build_records};

fn query() -> DnsQuery {
    DnsQuery::new(vec![], &vec![])
}

fn answer(record_type: &str, ttl: u32, data: RData, asn: Option<i32>) -> Answer {
    Answer {
        record_type: record_type.to_string(),
        ttl,
        data,
        asn,
    }
}

#[test]
fn address_of_each_kind_of_data() {
    let q = query();
    assert_eq!(
        q.parse_address(&RData::A([192, 0, 2, 1])).as_deref(),
        Some("192.0.2.1")
    );
    assert_eq!(
        q.parse_address(&RData::AAAA([0x2001, 0xdb8, 0x0, 0x0, 0x0, 0x0, 0x0, 0x1])).as_deref(),
        Some("2001:db8::1")
    );
    assert_eq!(
        q.parse_address(&RData::CNAME("target.example.com".to_string())).as_deref(),
        Some("target.example.com")
    );
    assert_eq!(
        q.parse_address(&RData::NS("ns1.example.net".to_string())).as_deref(),
        Some("ns1.example.net")
    );
    assert_eq!(q.parse_address(&RData::Other), None);
}

#[test]
fn record_keeps_every_field() {
    let a = answer("A", 3600, RData::A([192, 0, 2, 1]), Some(64496));
    let r = build_record(&a, 9, true, None, 0, 1_700_000_000);
    assert_eq!(r.domain, 9);
    assert!(r.is_www);
    assert_eq!(r.parent, None);
    assert_eq!(r.response_code, 0);
    assert_eq!(r.record_type.as_deref(), Some("A"));
    assert_eq!(r.ttl, Some(3600));
    assert_eq!(r.address.as_deref(), Some("192.0.2.1"));
    assert_eq!(r.asn, Some(64496));
    assert_eq!(r.query_time, 1_700_000_000);
}

#[test]
fn host_name_gets_no_asn() {
    let cname = answer(
        "CNAME",
        60,
        RData::CNAME("edge.example.net".to_string()),
        Some(64496),
    );
    let r = build_record(&cname, 1, false, None, 0, 5);
    assert_eq!(r.address.as_deref(), Some("edge.example.net"));
    assert_eq!(r.asn, None);

    let ns = answer("NS", 60, RData::NS("ns1.example.net".to_string()), Some(1));
    assert_eq!(build_record(&ns, 1, false, None, 0, 5).asn, None);

    let other = answer("MX", 60, RData::Other, Some(1));
    let r = build_record(&other, 1, false, Some(3), 0, 5);
    assert_eq!(r.address, None);
    assert_eq!(r.asn, None);
    assert_eq!(r.parent, Some(3));
}

#[test]
fn lookup_miss_leaves_asn_absent() {
    let a = answer("AAAA", 60, RData::AAAA([0x2001, 0xdb8, 0x0, 0x0, 0x0, 0x0, 0x0, 0x1]), None);
    assert_eq!(build_record(&a, 1, false, None, 0, 5).asn, None);
}

#[test]
fn response_code_is_shared_by_all_answers() {
    let response = Response {
        response_code: 3,
        answers: vec![
            answer("A", 1, RData::A([192, 0, 2, 1]), None),
            answer("A", 2, RData::A([192, 0, 2, 2]), None),
            answer("CNAME", 3, RData::CNAME("x.example".to_string()), None),
        ],
    };
    let records = build_records(&response, 4, false, Some(12), 77);
    assert_eq!(records.len(), 3);
    for (i, r) in records.iter().enumerate() {
        assert_eq!(r.response_code, 3);
        assert_eq!(r.query_time, 77);
        assert_eq!(r.parent, Some(12));
        assert_eq!(r.ttl, Some(i as i32 + 1));
    }
    assert_eq!(records[2].address.as_deref(), Some("x.example"));
}

#[test]
fn empty_response_gives_no_records() {
    let response = Response {
        response_code: 0,
        answers: vec![],
    };
    assert!(build_records(&response, 4, false, None, 77).is_empty());
}

#[test]
fn ttl_wraps_like_a_signed_cast() {
    let a = answer("A", u32::MAX, RData::A([192, 0, 2, 1]), None);
    assert_eq!(build_record(&a, 1, false, None, 0, 5).ttl, Some(-1));
}

fn ns_domain() -> damp::model::domain::Domain {
    damp::model::domain::Domain {
        rowid: 3,
        rank: 3,
        fqdn: "example.net".to_string(),
        sub: None,
        root: Some("example".to_string()),
        suffix: Some("net".to_string()),
    }
}

#[test]
fn apex_query_types_in_order() {
    let q = Query::new();
    assert_eq!(q.types(), &vec![QueryType::A, QueryType::AAAA, QueryType::NS]);
}

#[test]
fn apex_records_of_all_responses() {
    let q = Query::new();
    let responses = vec![
        Response {
            response_code: 0,
            answers: vec![answer("A", 10, RData::A([192, 0, 2, 7]), Some(64500))],
        },
        Response {
            response_code: 0,
            answers: vec![],
        },
        Response {
            response_code: 2,
            answers: vec![
                answer("NS", 20, RData::NS("a.example.org".to_string()), None),
                answer("NS", 30, RData::NS("b.example.org".to_string()), None),
            ],
        },
    ];
    let records = q.query_all(&ns_domain(), &responses, 99).unwrap();
    assert_eq!(records.len(), 3);
    assert_eq!(records[0].asn, Some(64500));
    assert_eq!(records[0].response_code, 0);
    assert_eq!(records[1].address.as_deref(), Some("a.example.org"));
    assert_eq!(records[1].response_code, 2);
    assert_eq!(records[2].ttl, Some(30));
    for r in &records {
        assert_eq!(r.domain, 3);
        assert_eq!(r.parent, None);
        assert!(!r.is_www);
        assert_eq!(r.query_time, 99);
    }
}

#[test]
fn apex_without_answers_gives_nothing() {
    let q = Query::new();
    let empty = Response {
        response_code: 3,
        answers: vec![],
    };
    assert!(q.query_all(&ns_domain(), &vec![empty], 1).is_none());
    assert!(q.query_all(&ns_domain(), &vec![], 1).is_none());
}

#[test]
fn www_query_name() {
    let q = query();
    match q.query_domain(&ns_domain(), QueryType::AAAA, true) {
        Action::Query { name, query_type } => {
            assert_eq!(name, "www.example.net");
            assert_eq!(query_type, QueryType::AAAA);
        }
        _ => panic!("expected a query"),
    }
    match q.query_domain(&ns_domain(), QueryType::NS, false) {
        Action::Query { name, query_type } => {
            assert_eq!(name, "example.net");
            assert_eq!(query_type, QueryType::NS);
        }
        _ => panic!("expected a query"),
    }
}
