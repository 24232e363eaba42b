//! What the resolver hands back, in the library's own terms.

use crate::dns::address::{ipv4_text, ipv6_text};
use vstd::prelude::*;

verus! {

/// The record types that the orchestrator asks for.
#[allow(non_camel_case_types)]
#[derive(Clone, Copy, Debug, PartialEq, Eq, Structural)]
pub enum QueryType {
    A,
    AAAA,
    NS,
}

/// The data of one answer, as far as the records keep it.
pub enum RData {
    /// An IPv4 address, by its four octets.
    A([u8; 4]),
    /// An IPv6 address, by its eight 16-bit groups.
    AAAA([u16; 8]),
    /// The target host name of an alias.
    CNAME(String),
    /// The host name of a name server.
    NS(String),
    /// Data of any other type, which yields no address.
    Other,
}

/// One answer of a response.
pub struct Answer {
    /// The name of the answer's record type (`"A"`, `"NS"`, ...).
    pub record_type: String,
    pub ttl: u32,
    pub data: RData,
    /// What the AS database gave for the answer's address, when it was looked
    /// up; consulted only for address data.
    pub asn: Option<i32>,
}

/// A response of the resolver: its response code, shared by all its answers.
pub struct Response {
    pub response_code: i32,
    pub answers: Vec<Answer>,
}

/// The data carries an IP address.
pub open spec fn carries_ip(d: RData) -> bool {
    d is A || d is AAAA
}

/// The address that a record keeps of the data: the text of the IP address of
/// `A` and `AAAA` data, the host name of `CNAME` and `NS` data, nothing otherwise.
pub open spec fn rdata_address(d: RData) -> Option<Seq<char>> {
    match d {
        RData::A(o) => Some(ipv4_text(o@)),
        RData::AAAA(g) => Some(ipv6_text(g@)),
        RData::CNAME(s) => Some(s@),
        RData::NS(s) => Some(s@),
        RData::Other => None,
    }
}

/// The AS number that a record keeps for an answer: the looked-up one for an
/// IP address, none for anything else.
pub open spec fn answer_asn(a: Answer) -> Option<i32> {
    if carries_ip(a.data) {
        a.asn
    } else {
        None
    }
}

/// The host names of the name servers that the answers of a response name,
/// in order; answers without a host name give none.
pub open spec fn ns_hosts(answers: Seq<Answer>) -> Seq<Seq<char>>
    decreases answers.len(),
{
    if answers.len() == 0 {
        Seq::empty()
    } else {
        let rest = ns_hosts(answers.drop_last());
        match rdata_address(answers.last().data) {
            Some(h) => rest.push(h),
            None => rest,
        }
    }
}

} // verus!
