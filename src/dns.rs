//! Splitting a fully qualified domain name into sub-domain, root and suffix.
//!
//! The public suffix list tells, for a name such as `foo.example.co.uk`, its
//! suffix (`co.uk`) and its registrable name (`example.co.uk`). The sub-domain
//! (`foo`) and the root (`example`) are what is left once these are cut off.

pub mod address;
pub mod message;
pub mod query;
pub mod record;

use publicsuffix::Domain as ParsedName;
use vstd::prelude::*;

verus! {

broadcast use vstd::string::group_string_axioms;

#[verifier::external_type_specification]
#[verifier::external_body]
pub struct ExParsedName(ParsedName);

/// The name of a parsed domain, as its `Display` writes it.
pub uninterp spec fn name_of(d: ParsedName) -> Seq<char>;

/// The registrable name that the suffix list found for a parsed domain.
pub uninterp spec fn registrable_of(d: ParsedName) -> Option<Seq<char>>;

/// The public suffix that the suffix list found for a parsed domain.
pub uninterp spec fn suffix_of(d: ParsedName) -> Option<Seq<char>>;

/// Relies on `publicsuffix::Domain::root`: the registrable name (the suffix and
/// one more label) when the name has one; it reads a field of the value.
pub assume_specification[ ParsedName::root ](d: &ParsedName) -> (r: Option<&str>)
    ensures
        opt_str_view(r) == registrable_of(*d),
;

/// Relies on `publicsuffix::Domain::suffix`: the public suffix, when the list
/// knows one for the name; it reads a field of the value.
pub assume_specification[ ParsedName::suffix ](d: &ParsedName) -> (r: Option<&str>)
    ensures
        opt_str_view(r) == suffix_of(*d),
;

/// Relies on publicsuffix's `Display` for `Domain`: the full name without
/// trailing dots, in lower case, computed from the value alone.
#[verifier::external_body]
pub(crate) fn full_name(d: &ParsedName) -> (r: String)
    ensures
        r@ == name_of(*d),
{
    d.to_string()
}

/// The view of an optional string slice.
pub open spec fn opt_str_view(s: Option<&str>) -> Option<Seq<char>> {
    match s {
        Some(t) => Some(t@),
        None => None,
    }
}

/// The view of an optional string.
pub open spec fn opt_string_view(s: Option<String>) -> Option<Seq<char>> {
    match s {
        Some(t) => Some(t@),
        None => None,
    }
}

/// The sub-domain of `fqdn` given its registrable name: what precedes the
/// registrable name and the dot before it. Absent when there is no such label.
pub open spec fn sub_part(fqdn: Seq<char>, registrable: Option<Seq<char>>) -> Option<Seq<char>> {
    match registrable {
        Some(reg) => if fqdn.len() > reg.len() + 1 {
            Some(fqdn.take(fqdn.len() - reg.len() - 1))
        } else {
            None
        },
        None => None,
    }
}

/// The root of a registrable name: what precedes its suffix and the dot before
/// it. Absent when there is no registrable name or nothing precedes the suffix.
pub open spec fn root_part(registrable: Option<Seq<char>>, suffix: Option<Seq<char>>) -> Option<
    Seq<char>,
> {
    let suffix_len: int = match suffix {
        Some(s) => s.len() as int,
        None => 0,
    };
    match registrable {
        Some(reg) => if reg.len() > suffix_len + 1 {
            Some(reg.take(reg.len() - suffix_len - 1))
        } else {
            None
        },
        None => None,
    }
}

/// `name` ends with a dot followed by `tail`.
pub open spec fn ends_with_label(name: Seq<char>, tail: Seq<char>) -> bool {
    &&& name.len() > tail.len() + 1
    &&& name.subrange(name.len() - tail.len() - 1, name.len() as int) == seq!['.'] + tail
}

/// Copies the first `n` characters of `s`.
fn prefix_of(s: &str, n: usize) -> (r: String)
    requires
        n <= s@.len(),
    ensures
        r@ == s@.take(n as int),
{
    let part = s.substring_char(0, n);
    part.to_string()
}

/// The sub-domain of `fqdn`, given the registrable name that the suffix list
/// found for it.
pub fn sub_domain_of(fqdn: &str, registrable: Option<&str>) -> (r: Option<String>)
    ensures
        opt_string_view(r) == sub_part(fqdn@, opt_str_view(registrable)),
{
    match registrable {
        Some(reg) => {
            let full_len = fqdn.unicode_len();
            let reg_len = reg.unicode_len();
            if full_len > reg_len && full_len - reg_len > 1 {
                Some(prefix_of(fqdn, full_len - reg_len - 1))
            } else {
                None
            }
        },
        None => None,
    }
}

/// The root of a registrable name (`example` of `example.co.uk`), given its
/// suffix.
pub fn root_domain_of(registrable: Option<&str>, suffix: Option<&str>) -> (r: Option<String>)
    ensures
        opt_string_view(r) == root_part(opt_str_view(registrable), opt_str_view(suffix)),
{
    let suffix_len: usize = match suffix {
        Some(s) => s.unicode_len(),
        None => 0,
    };
    match registrable {
        Some(reg) => {
            let reg_len = reg.unicode_len();
            if reg_len > suffix_len && reg_len - suffix_len > 1 {
                Some(prefix_of(reg, reg_len - suffix_len - 1))
            } else {
                None
            }
        },
        None => None,
    }
}

/// The sub-domain of a parsed name: `foo` of `foo.example.co.uk`.
pub fn get_sub_domain(domain: &ParsedName) -> (r: Option<String>)
    ensures
        opt_string_view(r) == sub_part(name_of(*domain), registrable_of(*domain)),
{
    let fqdn = full_name(domain);
    sub_domain_of(fqdn.as_str(), domain.root())
}

/// The root of a parsed name, without its suffix: `example` of
/// `foo.example.co.uk`.
pub fn get_root_domain(domain: &ParsedName) -> (r: Option<String>)
    ensures
        opt_string_view(r) == root_part(registrable_of(*domain), suffix_of(*domain)),
{
    root_domain_of(domain.root(), domain.suffix())
}

/// A name with a sub-domain and a known suffix is rebuilt from its parts:
/// `sub + "." + root + "." + suffix` is the name itself.
pub proof fn lemma_parts_rebuild_name(fqdn: Seq<char>, registrable: Seq<char>, suffix: Seq<char>)
    requires
        ends_with_label(fqdn, registrable),
        ends_with_label(registrable, suffix),
    ensures
        sub_part(fqdn, Some(registrable)) is Some,
        root_part(Some(registrable), Some(suffix)) is Some,
        sub_part(fqdn, Some(registrable))->0 + seq!['.'] + root_part(
            Some(registrable),
            Some(suffix),
        )->0 + seq!['.'] + suffix == fqdn,
{
    let sub = fqdn.take(fqdn.len() - registrable.len() - 1);
    let root = registrable.take(registrable.len() - suffix.len() - 1);
    assert(registrable =~= root + seq!['.'] + suffix) by {
        assert(registrable =~= registrable.take(registrable.len() - suffix.len() - 1)
            + registrable.subrange(registrable.len() - suffix.len() - 1, registrable.len() as int));
    }
    assert(fqdn =~= sub + seq!['.'] + registrable) by {
        assert(fqdn =~= fqdn.take(fqdn.len() - registrable.len() - 1) + fqdn.subrange(
            fqdn.len() - registrable.len() - 1,
            fqdn.len() as int,
        ));
    }
    assert(sub + seq!['.'] + root + seq!['.'] + suffix =~= fqdn);
}

/// A name that is its own registrable name has no sub-domain, and is rebuilt as
/// `root + "." + suffix`.
pub proof fn lemma_apex_has_no_sub(fqdn: Seq<char>, suffix: Seq<char>)
    requires
        ends_with_label(fqdn, suffix),
    ensures
        sub_part(fqdn, Some(fqdn)) is None,
        root_part(Some(fqdn), Some(suffix)) is Some,
        root_part(Some(fqdn), Some(suffix))->0 + seq!['.'] + suffix == fqdn,
{
    let root = fqdn.take(fqdn.len() - suffix.len() - 1);
    assert(fqdn =~= root + fqdn.subrange(fqdn.len() - suffix.len() - 1, fqdn.len() as int));
    assert(root + seq!['.'] + suffix =~= fqdn);
}

/// For a parsed name with a sub-domain, whose name ends with its registrable
/// name and whose registrable name ends with its suffix, the parts that
/// [`get_sub_domain`] and [`get_root_domain`] give rebuild the name:
/// `sub + "." + root + "." + suffix`.
pub proof fn lemma_parsed_parts_rebuild_name(d: ParsedName)
    requires
        registrable_of(d) is Some,
        suffix_of(d) is Some,
        ends_with_label(name_of(d), registrable_of(d)->0),
        ends_with_label(registrable_of(d)->0, suffix_of(d)->0),
    ensures
        sub_part(name_of(d), registrable_of(d)) is Some,
        root_part(registrable_of(d), suffix_of(d)) is Some,
        sub_part(name_of(d), registrable_of(d))->0 + seq!['.'] + root_part(
            registrable_of(d),
            suffix_of(d),
        )->0 + seq!['.'] + suffix_of(d)->0 == name_of(d),
{
    lemma_parts_rebuild_name(name_of(d), registrable_of(d)->0, suffix_of(d)->0);
}

/// A parsed name that is its own registrable name has no sub-domain, and the
/// root that [`get_root_domain`] gives rebuilds it as `root + "." + suffix`.
pub proof fn lemma_parsed_apex_has_no_sub(d: ParsedName)
    requires
        registrable_of(d) == Some(name_of(d)),
        suffix_of(d) is Some,
        ends_with_label(name_of(d), suffix_of(d)->0),
    ensures
        sub_part(name_of(d), registrable_of(d)) is None,
        root_part(registrable_of(d), suffix_of(d)) is Some,
        root_part(registrable_of(d), suffix_of(d))->0 + seq!['.'] + suffix_of(d)->0 == name_of(d),
{
    lemma_apex_has_no_sub(name_of(d), suffix_of(d)->0);
}

} // verus!
