//! The record builder: one stored record for each answer of a response.

use crate::dns::address::{
    ipv4_address_text, ipv6_address_text, is_ip_literal, lemma_ipv4_text_is_literal,
    lemma_ipv6_text_is_literal,
};
use crate::dns::message::{answer_asn, rdata_address, Answer, RData, Response};
use crate::dns::opt_string_view;
use crate::model::record::NewRecord;
use vstd::prelude::*;

verus! {

/// `r` is the record built from answer `a` of a response with
/// `response_code`, for the given domain, `www` flag, parent and query time.
pub open spec fn is_record_of(
    r: NewRecord,
    a: Answer,
    domain: i64,
    is_www: bool,
    parent: Option<i64>,
    response_code: i32,
    query_time: i64,
) -> bool {
    &&& r.domain == domain
    &&& r.is_www == is_www
    &&& r.parent == parent
    &&& r.response_code == response_code
    &&& opt_string_view(r.record_type) == Some(a.record_type@)
    &&& r.ttl == Some(a.ttl as i32)
    &&& opt_string_view(r.address) == rdata_address(a.data)
    &&& r.asn == answer_asn(a)
    &&& r.query_time == query_time
}

/// `records` are, in order, the records built from every answer of
/// `response`.
pub open spec fn are_records_of(
    records: Seq<NewRecord>,
    response: Response,
    domain: i64,
    is_www: bool,
    parent: Option<i64>,
    query_time: i64,
) -> bool {
    &&& records.len() == response.answers@.len()
    &&& forall|i: int|
        0 <= i < records.len() ==> is_record_of(
            #[trigger] records[i],
            response.answers@[i],
            domain,
            is_www,
            parent,
            response.response_code,
            query_time,
        )
}

/// The address that a record keeps of an answer's data.
pub fn address_of(data: &RData) -> (r: Option<String>)
    ensures
        opt_string_view(r) == rdata_address(*data),
{
    match data {
        RData::A(octets) => Some(ipv4_address_text(octets)),
        RData::AAAA(groups) => Some(ipv6_address_text(groups)),
        RData::CNAME(name) => Some(name.clone()),
        RData::NS(name) => Some(name.clone()),
        RData::Other => None,
    }
}

/// Builds the record of one answer.
pub fn build_record(
    answer: &Answer,
    domain: i64,
    is_www: bool,
    parent: Option<i64>,
    response_code: i32,
    query_time: i64,
) -> (r: NewRecord)
    ensures
        is_record_of(r, *answer, domain, is_www, parent, response_code, query_time),
{
    let asn = match answer.data {
        RData::A(_) | RData::AAAA(_) => answer.asn,
        _ => None,
    };
    #[verifier::truncate]
    let ttl = answer.ttl as i32;
    NewRecord {
        domain,
        parent,
        is_www,
        response_code,
        record_type: Some(answer.record_type.clone()),
        ttl: Some(ttl),
        address: address_of(&answer.data),
        asn,
        query_time,
    }
}

/// Builds the records of every answer of a response, in order.
pub fn build_records(
    response: &Response,
    domain: i64,
    is_www: bool,
    parent: Option<i64>,
    query_time: i64,
) -> (r: Vec<NewRecord>)
    ensures
        are_records_of(r@, *response, domain, is_www, parent, query_time),
{
    let mut records: Vec<NewRecord> = Vec::new();
    let mut i: usize = 0;
    while i < response.answers.len()
        invariant
            i <= response.answers@.len(),
            records@.len() == i,
            forall|k: int|
                0 <= k < i ==> is_record_of(
                    #[trigger] records@[k],
                    response.answers@[k],
                    domain,
                    is_www,
                    parent,
                    response.response_code,
                    query_time,
                ),
        decreases response.answers@.len() - i,
    {
        let record = build_record(
            &response.answers[i],
            domain,
            is_www,
            parent,
            response.response_code,
            query_time,
        );
        records.push(record);
        i = i + 1;
    }
    records
}

/// A record whose address is absent, or is not the text of an IP address,
/// has no AS number: an AS number is kept only beside an IP literal.
pub proof fn lemma_asn_only_for_ip(
    r: NewRecord,
    a: Answer,
    domain: i64,
    is_www: bool,
    parent: Option<i64>,
    response_code: i32,
    query_time: i64,
)
    requires
        is_record_of(r, a, domain, is_www, parent, response_code, query_time),
        r.address is None || !is_ip_literal(r.address->0@),
    ensures
        r.asn is None,
{
    match a.data {
        RData::A(o) => lemma_ipv4_text_is_literal(o@),
        RData::AAAA(g) => lemma_ipv6_text_is_literal(g@),
        _ => {},
    }
}

} // verus!
