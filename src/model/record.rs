use vstd::prelude::*;

verus! {

/// An answer record as stored.
#[derive(Clone, Debug)]
pub struct Record {
    pub rowid: i64,
    pub domain: i64,
    pub is_www: bool,
    pub parent: Option<i64>,
    pub response_code: i32,
    pub record_type: Option<String>,
    pub ttl: Option<i32>,
    pub address: Option<String>,
    pub asn: Option<i32>,
    pub query_time: i64,
}

/// An answer record ready to be inserted; the store assigns its id.
#[derive(Clone, Debug)]
pub struct NewRecord {
    pub domain: i64,
    pub parent: Option<i64>,
    pub is_www: bool,
    pub response_code: i32,
    pub record_type: Option<String>,
    pub ttl: Option<i32>,
    pub address: Option<String>,
    pub asn: Option<i32>,
    pub query_time: i64,
}

} // verus!
