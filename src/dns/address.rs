//! The textual form of IP addresses.
//!
//! An IPv4 address is written as four decimal octets separated by dots. An
//! IPv6 address is written as eight groups of lower-case hexadecimal digits
//! separated by colons, without leading zeros; the first longest run of two or
//! more zero groups is written `::`, and an IPv4-mapped address is written
//! `::ffff:` followed by its IPv4 form.

use crate::progress::{decimal, decimal_text};
use vstd::prelude::*;

verus! {

broadcast use vstd::string::group_string_axioms;

/// The lower-case hexadecimal digit character of `d`.
pub open spec fn hex_digit_char(d: nat) -> char {
    if d < 10 {
        ((d + 48) as u32) as char
    } else {
        ((d + 87) as u32) as char
    }
}

/// `n` written in lower-case hexadecimal, without leading zeros.
pub open spec fn hex(n: nat) -> Seq<char>
    decreases n,
{
    if n < 16 {
        seq![hex_digit_char(n)]
    } else {
        hex(n / 16).push(hex_digit_char(n % 16))
    }
}

/// The text of the IPv4 address with octets `o`.
pub open spec fn ipv4_text(o: Seq<u8>) -> Seq<char> {
    decimal(o[0] as nat) + "."@ + decimal(o[1] as nat) + "."@ + decimal(o[2] as nat) + "."@
        + decimal(o[3] as nat)
}

/// Groups written in hexadecimal and separated by colons.
pub open spec fn join_groups(g: Seq<u16>) -> Seq<char>
    decreases g.len(),
{
    if g.len() == 0 {
        Seq::empty()
    } else if g.len() == 1 {
        hex(g[0] as nat)
    } else {
        join_groups(g.drop_last()) + ":"@ + hex(g.last() as nat)
    }
}

/// The number of zero groups from position `i` on, up to the first non-zero
/// one.
pub open spec fn zero_run(g: Seq<u16>, i: int) -> nat
    decreases g.len() - i,
{
    if 0 <= i < g.len() && g[i] == 0 {
        1 + zero_run(g, i + 1)
    } else {
        0
    }
}

/// The start and length of the first longest run of zero groups from position
/// `i` on; length zero when there is none.
pub open spec fn longest_zero_run(g: Seq<u16>, i: int) -> (int, nat)
    decreases g.len() - i,
{
    if i < 0 || i >= g.len() {
        (g.len() as int, 0)
    } else {
        let later = longest_zero_run(g, i + 1);
        if zero_run(g, i) > 0 && zero_run(g, i) >= later.1 {
            (i, zero_run(g, i))
        } else {
            later
        }
    }
}

/// The groups are those of an IPv4-mapped address.
pub open spec fn is_ipv4_mapped(g: Seq<u16>) -> bool {
    &&& g[0] == 0 && g[1] == 0 && g[2] == 0 && g[3] == 0 && g[4] == 0
    &&& g[5] == 0xffff
}

/// The text of the IPv6 address with groups `g`.
pub open spec fn ipv6_text(g: Seq<u16>) -> Seq<char> {
    if is_ipv4_mapped(g) {
        "::ffff:"@ + ipv4_text(
            seq![(g[6] / 256) as u8, (g[6] % 256) as u8, (g[7] / 256) as u8, (g[7] % 256) as u8],
        )
    } else {
        let run = longest_zero_run(g, 0);
        if run.1 >= 2 {
            join_groups(g.subrange(0, run.0)) + "::"@ + join_groups(
                g.subrange(run.0 + run.1, g.len() as int),
            )
        } else {
            join_groups(g)
        }
    }
}

/// `t` is the text of an IPv4 or an IPv6 address.
pub open spec fn is_ip_literal(t: Seq<char>) -> bool {
    ||| exists|o: Seq<u8>| o.len() == 4 && t == #[trigger] ipv4_text(o)
    ||| exists|g: Seq<u16>| g.len() == 8 && t == #[trigger] ipv6_text(g)
}

/// The one-character string of the hexadecimal digit `d`.
fn hex_digit_text(d: u16) -> (r: &'static str)
    requires
        d < 16,
    ensures
        r@ == seq![hex_digit_char(d as nat)],
{
    proof {
        reveal_strlit("0");
        reveal_strlit("1");
        reveal_strlit("2");
        reveal_strlit("3");
        reveal_strlit("4");
        reveal_strlit("5");
        reveal_strlit("6");
        reveal_strlit("7");
        reveal_strlit("8");
        reveal_strlit("9");
        reveal_strlit("a");
        reveal_strlit("b");
        reveal_strlit("c");
        reveal_strlit("d");
        reveal_strlit("e");
        reveal_strlit("f");
    }
    let r = if d == 0 {
        "0"
    } else if d == 1 {
        "1"
    } else if d == 2 {
        "2"
    } else if d == 3 {
        "3"
    } else if d == 4 {
        "4"
    } else if d == 5 {
        "5"
    } else if d == 6 {
        "6"
    } else if d == 7 {
        "7"
    } else if d == 8 {
        "8"
    } else if d == 9 {
        "9"
    } else if d == 10 {
        "a"
    } else if d == 11 {
        "b"
    } else if d == 12 {
        "c"
    } else if d == 13 {
        "d"
    } else if d == 14 {
        "e"
    } else {
        "f"
    };
    assert(r@ =~= seq![hex_digit_char(d as nat)]);
    r
}

/// `n` written in lower-case hexadecimal.
pub fn hex_text(n: u16) -> (r: String)
    ensures
        r@ == hex(n as nat),
    decreases n,
{
    if n < 16 {
        hex_digit_text(n).to_string()
    } else {
        let mut r = hex_text(n / 16);
        r.append(hex_digit_text(n % 16));
        assert(r@ =~= hex(n as nat));
        r
    }
}

/// The text of an IPv4 address.
pub fn ipv4_address_text(o: &[u8; 4]) -> (r: String)
    ensures
        r@ == ipv4_text(o@),
{
    let mut r = decimal_text(o[0] as u64);
    r.append(".");
    let part = decimal_text(o[1] as u64);
    r.append(part.as_str());
    r.append(".");
    let part = decimal_text(o[2] as u64);
    r.append(part.as_str());
    r.append(".");
    let part = decimal_text(o[3] as u64);
    r.append(part.as_str());
    assert(r@ =~= ipv4_text(o@));
    r
}

/// The groups from `from` up to `to`, written in hexadecimal and separated by
/// colons.
fn groups_text(g: &[u16; 8], from: usize, to: usize) -> (r: String)
    requires
        from <= to <= 8,
    ensures
        r@ == join_groups(g@.subrange(from as int, to as int)),
{
    let mut r = String::new();
    let mut i: usize = from;
    while i < to
        invariant
            from <= i <= to <= 8,
            g@.len() == 8,
            r@ == join_groups(g@.subrange(from as int, i as int)),
        decreases to - i,
    {
        let part = hex_text(g[i]);
        assert(g@.subrange(from as int, i + 1).drop_last() =~= g@.subrange(from as int, i as int));
        if i == from {
            r = part;
        } else {
            r.append(":");
            r.append(part.as_str());
        }
        i = i + 1;
    }
    r
}

/// The number of zero groups from position `i` on.
fn zero_run_at(g: &[u16; 8], i: usize) -> (r: usize)
    requires
        i <= 8,
    ensures
        r == zero_run(g@, i as int),
        i + r <= 8,
{
    let mut j: usize = i;
    while j < 8 && g[j] == 0
        invariant
            i <= j <= 8,
            g@.len() == 8,
            zero_run(g@, i as int) == (j - i) + zero_run(g@, j as int),
        decreases 8 - j,
    {
        j = j + 1;
    }
    j - i
}

/// The start and length of the first longest run of zero groups.
fn longest_zero_run_of(g: &[u16; 8]) -> (r: (usize, usize))
    ensures
        r.0 as int == longest_zero_run(g@, 0).0,
        r.1 as nat == longest_zero_run(g@, 0).1,
        r.0 + r.1 <= 8,
{
    let mut start: usize = 8;
    let mut len: usize = 0;
    let mut i: usize = 8;
    while i > 0
        invariant
            i <= 8,
            g@.len() == 8,
            start as int == longest_zero_run(g@, i as int).0,
            len as nat == longest_zero_run(g@, i as int).1,
            start + len <= 8,
        decreases i,
    {
        i = i - 1;
        let run = zero_run_at(g, i);
        if run > 0 && run >= len {
            start = i;
            len = run;
        }
    }
    (start, len)
}

/// The text of an IPv6 address.
pub fn ipv6_address_text(g: &[u16; 8]) -> (r: String)
    ensures
        r@ == ipv6_text(g@),
{
    if g[0] == 0 && g[1] == 0 && g[2] == 0 && g[3] == 0 && g[4] == 0 && g[5] == 0xffff {
        let octets: [u8; 4] = [
            (g[6] / 256) as u8,
            (g[6] % 256) as u8,
            (g[7] / 256) as u8,
            (g[7] % 256) as u8,
        ];
        assert(octets@ =~= seq![
            (g@[6] / 256) as u8,
            (g@[6] % 256) as u8,
            (g@[7] / 256) as u8,
            (g@[7] % 256) as u8,
        ]);
        assert(is_ipv4_mapped(g@));
        let mut r = String::from_str("::ffff:");
        let tail = ipv4_address_text(&octets);
        r.append(tail.as_str());
        assert(r@ == "::ffff:"@ + ipv4_text(octets@));
        r
    } else {
        let (start, len) = longest_zero_run_of(g);
        if len >= 2 {
            let mut r = groups_text(g, 0, start);
            r.append("::");
            let tail = groups_text(g, start + len, 8);
            r.append(tail.as_str());
            assert(!is_ipv4_mapped(g@));
            r
        } else {
            assert(!is_ipv4_mapped(g@));
            assert(g@.subrange(0, 8) =~= g@);
            groups_text(g, 0, 8)
        }
    }
}

/// The text of an IPv4 address is an IP literal.
pub proof fn lemma_ipv4_text_is_literal(o: Seq<u8>)
    requires
        o.len() == 4,
    ensures
        is_ip_literal(ipv4_text(o)),
{
}

/// The text of an IPv6 address is an IP literal.
pub proof fn lemma_ipv6_text_is_literal(g: Seq<u16>)
    requires
        g.len() == 8,
    ensures
        is_ip_literal(ipv6_text(g)),
{
}

} // verus!
