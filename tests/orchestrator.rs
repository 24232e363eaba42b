use damp::dns::message::{Answer, QueryType, RData, Response};
use damp::dns::query::{Action, DnsQuery, Stored};
use damp::model::domain::Domain;
use damp::model::record::NewRecord;

fn domain(rowid: i64, fqdn: &str) -> Domain {
    Domain {
        rowid,
        rank: rowid as i32,
        fqdn: fqdn.to_string(),
        sub: None,
        root: None,
        suffix: None,
    }
}

fn answer(record_type: &str, data: RData, asn: Option<i32>) -> Answer {
    Answer {
        record_type: record_type.to_string(),
        ttl: 300,
        data,
        asn,
    }
}

fn response(answers: Vec<Answer>) -> Response {
    Response {
        response_code: 0,
        answers,
    }
}

/// A resolver for `example.com` with one name server, `ns1.example.net`.
fn example_resolver(name: &str, query_type: QueryType) -> Response {
    match (name, query_type) {
        ("example.com", QueryType::A) => response(vec![answer(
            "A",
            RData::A([93, 184, 216, 34]),
            Some(15133),
        )]),
        ("www.example.com", QueryType::A) => response(vec![answer(
            "A",
            RData::A([93, 184, 216, 34]),
            Some(15133),
        )]),
        ("example.com", QueryType::AAAA) => response(vec![answer(
            "AAAA",
            RData::AAAA([0x2606, 0x2800, 0x220, 0x1, 0x248, 0x1893, 0x25c8, 0x1946]),
            Some(15133),
        )]),
        ("www.example.com", QueryType::AAAA) => response(vec![answer(
            "AAAA",
            RData::AAAA([0x2606, 0x2800, 0x220, 0x1, 0x248, 0x1893, 0x25c8, 0x1946]),
            Some(15133),
        )]),
        ("example.com", QueryType::NS) => response(vec![answer(
            "NS",
            RData::NS("ns1.example.net".to_string()),
            None,
        )]),
        ("ns1.example.net", QueryType::A) => response(vec![answer(
            "A",
            RData::A([192, 0, 2, 53]),
            Some(64500),
        )]),
        ("ns1.example.net", QueryType::AAAA) => response(vec![answer(
            "AAAA",
            RData::AAAA([0x2001, 0xdb8, 0x0, 0x0, 0x0, 0x0, 0x0, 0x53]),
            None,
        )]),
        _ => response(vec![]),
    }
}

struct Run {
    queries: Vec<(String, QueryType)>,
    rows: Vec<(i64, NewRecord)>,
    id_requests: usize,
}

/// Drives a run against `resolve` and an in-memory store whose ids count up
/// from 1. Inserts whose position (from 0) is in `failing` fail.
fn drive(
    query: &mut DnsQuery,
    resolve: &dyn Fn(&str, QueryType) -> Response,
    failing: &[usize],
) -> Run {
    let mut run = Run {
        queries: Vec::new(),
        rows: Vec::new(),
        id_requests: 0,
    };
    let mut inserts: usize = 0;
    let mut time: i64 = 1_000;
    let mut action = query.process_all();
    loop {
        action = match action {
            Action::Query { name, query_type } => {
                time += 1;
                let answered = resolve(&name, query_type);
                run.queries.push((name, query_type));
                query.on_response(answered, time)
            }
            Action::Insert { record, want_id } => {
                let attempt = inserts;
                inserts += 1;
                if failing.contains(&attempt) {
                    query.on_stored(Stored::Failed)
                } else {
                    let id = run.rows.len() as i64 + 1;
                    run.rows.push((id, record));
                    if want_id {
                        run.id_requests += 1;
                        query.on_stored(Stored::WrittenAs(id))
                    } else {
                        query.on_stored(Stored::Written)
                    }
                }
            }
            Action::Done => break,
        };
    }
    run
}

#[test]
fn example_domain_full_plan() {
    let mut query = DnsQuery::new(vec![domain(1, "example.com")], &vec![]);
    assert_eq!(query.total_domains(), 1);
    let run = drive(&mut query, &example_resolver, &[]);

    let expected_queries = vec![
        ("example.com", QueryType::A),
        ("www.example.com", QueryType::A),
        ("example.com", QueryType::AAAA),
        ("www.example.com", QueryType::AAAA),
        ("example.com", QueryType::NS),
        ("ns1.example.net", QueryType::A),
        ("ns1.example.net", QueryType::AAAA),
    ];
    assert_eq!(run.queries.len(), expected_queries.len());
    for (got, want) in run.queries.iter().zip(expected_queries.iter()) {
        assert_eq!(got.0, want.0);
        assert_eq!(got.1, want.1);
    }

    assert_eq!(run.rows.len(), 7);
    let kinds: Vec<(&str, bool)> = run
        .rows
        .iter()
        .map(|(_, r)| (r.record_type.as_deref().unwrap(), r.is_www))
        .collect();
    assert_eq!(
        kinds,
        vec![
            ("A", false),
            ("A", true),
            ("AAAA", false),
            ("AAAA", true),
            ("NS", false),
            ("A", false),
            ("AAAA", false),
        ]
    );
    let ns_id = run.rows[4].0;
    assert_eq!(ns_id, 5);
    for (_, r) in &run.rows[..5] {
        assert_eq!(r.parent, None);
    }
    assert_eq!(run.rows[5].1.parent, Some(ns_id));
    assert_eq!(run.rows[6].1.parent, Some(ns_id));
    assert_eq!(run.rows[5].1.address.as_deref(), Some("192.0.2.53"));
    assert_eq!(run.rows[6].1.address.as_deref(), Some("2001:db8::53"));
    assert_eq!(run.rows[4].1.address.as_deref(), Some("ns1.example.net"));
    for (_, r) in &run.rows {
        assert_eq!(r.domain, 1);
        assert_eq!(r.response_code, 0);
        assert_eq!(r.ttl, Some(300));
    }
    assert_eq!(run.id_requests, 1);
}

fn two_server_resolver(name: &str, query_type: QueryType) -> Response {
    match (name, query_type) {
        ("example.org", QueryType::NS) => response(vec![
            answer("NS", RData::NS("a.iana-servers.net".to_string()), None),
            answer("NS", RData::NS("b.iana-servers.net".to_string()), None),
        ]),
        ("a.iana-servers.net", QueryType::A) => response(vec![answer(
            "A",
            RData::A([199, 43, 135, 53]),
            Some(396566),
        )]),
        ("a.iana-servers.net", QueryType::AAAA) => response(vec![answer(
            "AAAA",
            RData::AAAA([0x2001, 0x500, 0x8f, 0x0, 0x0, 0x0, 0x0, 0x53]),
            Some(396566),
        )]),
        ("b.iana-servers.net", QueryType::A) => response(vec![answer(
            "A",
            RData::A([199, 43, 133, 53]),
            Some(396566),
        )]),
        ("b.iana-servers.net", QueryType::AAAA) => response(vec![answer(
            "AAAA",
            RData::AAAA([0x2001, 0x500, 0x8d, 0x0, 0x0, 0x0, 0x0, 0x53]),
            Some(396566),
        )]),
        _ => response(vec![]),
    }
}

#[test]
fn ns_answers_give_one_a_and_one_aaaa_follow_up_each() {
    let mut query = DnsQuery::new(vec![domain(7, "example.org")], &vec![]);
    let run = drive(&mut query, &two_server_resolver, &[]);
    // Two NS rows, then A and AAAA for each of the two hosts.
    assert_eq!(run.rows.len(), 6);
    let anchor = run.rows[0].0;
    assert_eq!(run.rows[0].1.record_type.as_deref(), Some("NS"));
    assert_eq!(run.rows[1].1.record_type.as_deref(), Some("NS"));
    assert_eq!(run.rows[0].1.parent, None);
    assert_eq!(run.rows[1].1.parent, None);
    let follow_ups: Vec<&NewRecord> = run.rows[2..].iter().map(|(_, r)| r).collect();
    let a_count = follow_ups
        .iter()
        .filter(|r| r.record_type.as_deref() == Some("A"))
        .count();
    let aaaa_count = follow_ups
        .iter()
        .filter(|r| r.record_type.as_deref() == Some("AAAA"))
        .count();
    assert_eq!(a_count, 2);
    assert_eq!(aaaa_count, 2);
    for r in follow_ups {
        assert_eq!(r.parent, Some(anchor));
    }
    assert_eq!(
        run.queries[5..]
            .iter()
            .map(|(n, t)| (n.as_str(), *t))
            .collect::<Vec<_>>(),
        vec![
            ("a.iana-servers.net", QueryType::A),
            ("a.iana-servers.net", QueryType::AAAA),
            ("b.iana-servers.net", QueryType::A),
            ("b.iana-servers.net", QueryType::AAAA),
        ]
    );
}

#[test]
fn anchor_is_first_stored_ns_row_after_a_failed_insert() {
    let mut query = DnsQuery::new(vec![domain(7, "example.org")], &vec![]);
    // The first NS record fails to be stored; the second becomes the anchor.
    let run = drive(&mut query, &two_server_resolver, &[0]);
    assert_eq!(run.rows.len(), 5);
    assert_eq!(run.rows[0].1.record_type.as_deref(), Some("NS"));
    assert_eq!(run.rows[0].1.address.as_deref(), Some("b.iana-servers.net"));
    let anchor = run.rows[0].0;
    for (_, r) in &run.rows[1..] {
        assert_eq!(r.parent, Some(anchor));
    }
}

#[test]
fn no_anchor_means_no_follow_ups() {
    let mut query = DnsQuery::new(vec![domain(7, "example.org")], &vec![]);
    let run = drive(&mut query, &two_server_resolver, &[0, 1]);
    assert_eq!(run.rows.len(), 0);
    assert_eq!(run.queries.len(), 5);
}

#[test]
fn www_records_never_have_a_parent() {
    let resolver = |name: &str, query_type: QueryType| -> Response {
        if name.starts_with("www.") {
            response(vec![
                answer("CNAME", RData::CNAME("example.com".to_string()), None),
                answer("A", RData::A([93, 184, 216, 34]), Some(15133)),
            ])
        } else if query_type == QueryType::NS {
            response(vec![answer(
                "NS",
                RData::NS("ns1.example.net".to_string()),
                None,
            )])
        } else {
            response(vec![answer(
                "A",
                RData::A([93, 184, 216, 34]),
                None,
            )])
        }
    };
    let mut query = DnsQuery::new(vec![domain(1, "example.com")], &vec![]);
    let run = drive(&mut query, &resolver, &[]);
    let www: Vec<&NewRecord> = run.rows.iter().map(|(_, r)| r).filter(|r| r.is_www).collect();
    assert_eq!(www.len(), 4);
    for r in www {
        assert_eq!(r.parent, None);
    }
    assert!(run.rows.iter().any(|(_, r)| r.parent.is_some()));
}

#[test]
fn populated_store_issues_no_queries() {
    let domains = vec![domain(1, "example.com"), domain(2, "example.org")];
    let mut query = DnsQuery::new(domains, &vec![2, 1]);
    assert_eq!(query.total_domains(), 0);
    let run = drive(&mut query, &example_resolver, &[]);
    assert!(run.queries.is_empty());
    assert!(run.rows.is_empty());
}

#[test]
fn only_new_domains_are_resolved() {
    let domains = vec![domain(1, "example.org"), domain(2, "example.com")];
    let mut query = DnsQuery::new(domains, &vec![1]);
    assert_eq!(query.total_domains(), 1);
    let run = drive(&mut query, &example_resolver, &[]);
    assert_eq!(run.rows.len(), 7);
    assert!(run.rows.iter().all(|(_, r)| r.domain == 2));
}

#[test]
fn empty_run_is_done_at_once() {
    let mut query = DnsQuery::new(vec![], &vec![]);
    assert!(matches!(query.process_all(), Action::Done));
}

#[test]
fn query_times_never_go_back() {
    let mut query = DnsQuery::new(vec![domain(1, "example.com")], &vec![]);
    let mut action = query.process_all();
    let mut times = vec![50_i64, 40, 60, 10, 70, 65, 80];
    let mut stored: Vec<NewRecord> = Vec::new();
    loop {
        action = match action {
            Action::Query { name, query_type } => {
                let t = times.remove(0);
                query.on_response(example_resolver(&name, query_type), t)
            }
            Action::Insert { record, .. } => {
                stored.push(record);
                query.on_stored(Stored::WrittenAs(stored.len() as i64))
            }
            Action::Done => break,
        };
    }
    let seen: Vec<i64> = stored.iter().map(|r| r.query_time).collect();
    assert_eq!(seen, vec![50, 50, 60, 60, 70, 70, 80]);
}

#[test]
fn two_domains_in_sequence() {
    let resolver = |name: &str, query_type: QueryType| -> Response {
        if name.ends_with("example.com") || name.starts_with("ns1.") {
            example_resolver(name, query_type)
        } else {
            two_server_resolver(name, query_type)
        }
    };
    let domains = vec![domain(1, "example.com"), domain(2, "example.org")];
    let mut query = DnsQuery::new(domains, &vec![]);
    let run = drive(&mut query, &resolver, &[]);
    assert_eq!(run.rows.len(), 13);
    assert!(run.rows[..7].iter().all(|(_, r)| r.domain == 1));
    assert!(run.rows[7..].iter().all(|(_, r)| r.domain == 2));
    let second_anchor = run.rows[7].0;
    assert!(run.rows[9..]
        .iter()
        .all(|(_, r)| r.parent == Some(second_anchor)));
}

#[test]
fn current_domain_follows_the_run() {
    let domains = vec![domain(4, "example.com"), domain(9, "example.org")];
    let mut query = DnsQuery::new(domains, &vec![]);
    assert_eq!(query.current_domain(), Some(4));
    let mut action = query.process_all();
    let mut seen = vec![query.current_domain()];
    loop {
        action = match action {
            Action::Query { name, query_type } => {
                query.on_response(example_resolver(&name, query_type), 1)
            }
            Action::Insert { .. } => query.on_stored(Stored::WrittenAs(1)),
            Action::Done => break,
        };
        let now = query.current_domain();
        if seen.last() != Some(&now) {
            seen.push(now);
        }
    }
    assert_eq!(seen, vec![Some(4), Some(9), None]);
}
