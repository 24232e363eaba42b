use crate::dns::{
    full_name, name_of, opt_str_view, opt_string_view, registrable_of, root_domain_of, root_part,
    sub_domain_of, sub_part, suffix_of,
};
use publicsuffix::Domain as ParsedName;
use vstd::prelude::*;

verus! {

/// A domain as stored, with its decomposition.
#[derive(Clone, Debug)]
pub struct Domain {
    pub rowid: i64,
    pub rank: i32,
    pub fqdn: String,
    pub sub: Option<String>,
    pub root: Option<String>,
    pub suffix: Option<String>,
}

/// A domain ready to be inserted; the store assigns its id.
#[derive(Clone, Debug)]
pub struct NewDomain {
    pub rank: i32,
    pub fqdn: String,
    pub sub: Option<String>,
    pub root: Option<String>,
    pub suffix: Option<String>,
}

/// A decimal digit.
pub open spec fn is_digit(c: char) -> bool {
    '0' <= c <= '9'
}

/// The value of a string of decimal digits.
pub open spec fn digits_value(s: Seq<char>) -> int
    decreases s.len(),
{
    if s.len() == 0 {
        0
    } else {
        digits_value(s.drop_last()) * 10 + ((s.last() as u32) as int - 48)
    }
}

/// The integer that `s` writes: an optional `+` or `-` sign followed by one
/// or more decimal digits, and nothing else.
pub open spec fn decimal_integer(s: Seq<char>) -> Option<int> {
    let signed = s.len() > 0 && (s[0] == '-' || s[0] == '+');
    let digits = if signed {
        s.drop_first()
    } else {
        s
    };
    if digits.len() > 0 && forall|i: int| 0 <= i < digits.len() ==> is_digit(#[trigger] digits[i]) {
        Some(
            if signed && s[0] == '-' {
                -digits_value(digits)
            } else {
                digits_value(digits)
            },
        )
    } else {
        None
    }
}

/// The `i32` that `s` writes, when it writes one in range.
pub open spec fn parsed_i32(s: Seq<char>) -> Option<i32> {
    match decimal_integer(s) {
        Some(v) => if i32::MIN <= v <= i32::MAX {
            Some(v as i32)
        } else {
            None
        },
        None => None,
    }
}

/// Relies on `<i32 as FromStr>::from_str`: an optional sign followed by
/// decimal digits, whose value fits an `i32`; anything else is an error.
#[verifier::external_body]
fn parse_i32(s: &str) -> (r: Option<i32>)
    ensures
        r == parsed_i32(s@),
{
    s.parse::<i32>().ok()
}

/// The rank written in a field of the ranked list, or `default` when the
/// field does not hold one.
pub fn rank_or(field: &str, default: i32) -> (r: i32)
    ensures
        r == match parsed_i32(field@) {
            Some(v) => v,
            None => default,
        },
{
    match parse_i32(field) {
        Some(v) => v,
        None => default,
    }
}

impl NewDomain {
    /// The row of `fqdn` at `rank`, given the registrable name and the suffix
    /// that the suffix list found for it.
    pub fn from_parts(rank: i32, fqdn: &str, registrable: Option<&str>, suffix: Option<&str>) -> (r:
        NewDomain)
        ensures
            r.rank == rank,
            r.fqdn@ == fqdn@,
            opt_string_view(r.sub) == sub_part(fqdn@, opt_str_view(registrable)),
            opt_string_view(r.root) == root_part(opt_str_view(registrable), opt_str_view(suffix)),
            opt_string_view(r.suffix) == opt_str_view(suffix),
    {
        let root = root_domain_of(registrable, suffix);
        let suffix = match suffix {
            Some(s) => Some(s.to_string()),
            None => None,
        };
        NewDomain { rank, fqdn: fqdn.to_string(), sub: sub_domain_of(fqdn, registrable), root, suffix }
    }

    /// The row of a name that the suffix list parsed, at `rank`. Its parts are
    /// cut from its own name: the sub-domain before the registrable name, the
    /// root before the suffix.
    pub fn from_parsed(rank: i32, domain: &ParsedName) -> (r: NewDomain)
        ensures
            r.rank == rank,
            r.fqdn@ == name_of(*domain),
            opt_string_view(r.sub) == sub_part(name_of(*domain), registrable_of(*domain)),
            opt_string_view(r.root) == root_part(registrable_of(*domain), suffix_of(*domain)),
            opt_string_view(r.suffix) == suffix_of(*domain),
    {
        let fqdn = full_name(domain);
        NewDomain::from_parts(rank, fqdn.as_str(), domain.root(), domain.suffix())
    }
}

} // verus!
