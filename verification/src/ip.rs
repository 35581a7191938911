//! The IP addresses the client propagates, as plain values.
//!
//! An address is held as its octets or groups, so that equality, family
//! and textual rendering are all defined inside the library. Rendering
//! and parsing carry exact contracts: an IPv4 address has one canonical
//! text (decimal octets without leading zeros), and the parser accepts
//! exactly that; an IPv6 address is rendered in the canonical compressed
//! form (first longest run of two or more zero groups elided, lower-case
//! hexadecimal, the IPv4-mapped prefix with an embedded dotted quad),
//! and the parser accepts the full, compressed and embedded-IPv4 forms.

use vstd::prelude::*;

use crate::text::{
    dec_str, digits_val, is_dec_digit, hex_str, find_seq, find_sub, match_at,
    lemma_find_seq_props, lemma_find_seq_first, lemma_dec_str_props, lemma_digit_str_unique,
    lemma_digits_val_bounds, u64_to_string, u16_to_hex,
};

verus! {

/// An IP address: four octets, or eight sixteen-bit groups.
#[derive(Clone, Copy, Debug, PartialEq, Eq, Structural, Hash)]
pub enum IpAddress {
    V4(u8, u8, u8, u8),
    V6(u16, u16, u16, u16, u16, u16, u16, u16),
}

impl IpAddress {
    /// Whether the address is an IPv4 address.
    pub open spec fn spec_is_ipv4(self) -> bool {
        self is V4
    }

    /// Whether the address is an IPv4 address.
    pub fn is_ipv4(&self) -> (r: bool)
        ensures
            r == self.spec_is_ipv4(),
    {
        match self {
            IpAddress::V4(..) => true,
            IpAddress::V6(..) => false,
        }
    }

    /// The textual rendering of the address: dotted decimal for IPv4;
    /// for IPv6 the canonical compressed form, with the IPv4-mapped
    /// prefix rendered as `::ffff:` and an embedded dotted quad, and
    /// otherwise the first longest run of two or more zero groups
    /// elided by `::`.
    pub open spec fn ip_chars(self) -> Seq<char> {
        match self {
            IpAddress::V4(a, b, c, d) => dec_str(a as nat) + seq!['.'] + dec_str(b as nat)
                + seq!['.'] + dec_str(c as nat) + seq!['.'] + dec_str(d as nat),
            IpAddress::V6(g0, g1, g2, g3, g4, g5, g6, g7) => {
                let gs = seq![g0, g1, g2, g3, g4, g5, g6, g7];
                if g0 == 0 && g1 == 0 && g2 == 0 && g3 == 0 && g4 == 0 && g5 == 0xffff {
                    "::ffff:"@ + quad_chars(g6, g7)
                } else {
                    let run = best_zero_run(gs);
                    if run.1 > 1 {
                        join_hex(gs.take(run.0)) + "::"@ + join_hex(gs.skip(run.0 + run.1))
                    } else {
                        join_hex(gs)
                    }
                }
            },
        }
    }

    /// Render the address as text.
    pub fn to_text(&self) -> (r: String)
        ensures
            r@ == self.ip_chars(),
    {
        proof {
            reveal_strlit(".");
            reveal_strlit(":");
            reveal_strlit("::");
        }
        match self {
            IpAddress::V4(a, b, c, d) => {
                let mut s = u64_to_string(*a as u64);
                s.append(".");
                let sb = u64_to_string(*b as u64);
                s.append(sb.as_str());
                s.append(".");
                let sc = u64_to_string(*c as u64);
                s.append(sc.as_str());
                s.append(".");
                let sd = u64_to_string(*d as u64);
                s.append(sd.as_str());
                proof {
                    assert("."@ =~= seq!['.']);
                    assert(s@ =~= self.ip_chars());
                }
                s
            },
            IpAddress::V6(g0, g1, g2, g3, g4, g5, g6, g7) => {
                let mut gv: Vec<u16> = Vec::new();
                gv.push(*g0);
                gv.push(*g1);
                gv.push(*g2);
                gv.push(*g3);
                gv.push(*g4);
                gv.push(*g5);
                gv.push(*g6);
                gv.push(*g7);
                proof {
                    assert(gv@ =~= seq![*g0, *g1, *g2, *g3, *g4, *g5, *g6, *g7]);
                }
                if *g0 == 0 && *g1 == 0 && *g2 == 0 && *g3 == 0 && *g4 == 0 && *g5 == 0xffff {
                    let mut s = String::from_str("::ffff:");
                    let qa = u64_to_string((*g6 / 256) as u64);
                    s.append(qa.as_str());
                    s.append(".");
                    let qb = u64_to_string((*g6 % 256) as u64);
                    s.append(qb.as_str());
                    s.append(".");
                    let qc = u64_to_string((*g7 / 256) as u64);
                    s.append(qc.as_str());
                    s.append(".");
                    let qd = u64_to_string((*g7 % 256) as u64);
                    s.append(qd.as_str());
                    proof {
                        assert("."@ =~= seq!['.']);
                        assert(s@ =~= self.ip_chars());
                    }
                    s
                } else {
                    let run = best_run(&gv);
                    let bs = run.0;
                    let bl = run.1;
                    if bl > 1 {
                        let mut s = hex_join(&gv, 0, bs);
                        s.append("::");
                        let tail = hex_join(&gv, bs + bl, 8);
                        s.append(tail.as_str());
                        proof {
                            let gs = seq![*g0, *g1, *g2, *g3, *g4, *g5, *g6, *g7];
                            assert(gv@ == gs);
                            assert(gs.take(bs as int) =~= gv@.subrange(0, bs as int));
                            assert(gs.skip(bs as int + bl as int) =~= gv@.subrange(
                                (bs + bl) as int,
                                8,
                            ));
                            assert("::"@ =~= seq![':', ':']);
                            assert(best_zero_run(gs).0 == bs as int);
                            assert(best_zero_run(gs).1 == bl as int);
                            assert(s@ =~= self.ip_chars());
                        }
                        s
                    } else {
                        let s = hex_join(&gv, 0, 8);
                        proof {
                            let gs = seq![*g0, *g1, *g2, *g3, *g4, *g5, *g6, *g7];
                            assert(gv@ == gs);
                            assert(gv@.subrange(0, 8) =~= gs);
                            assert(best_zero_run(gs).1 == bl as int);
                            assert(s@ =~= self.ip_chars());
                        }
                        s
                    }
                }
            },
        }
    }
}

/// The dotted quad the two low groups of an IPv4-mapped address denote.
pub open spec fn quad_chars(hi: u16, lo: u16) -> Seq<char> {
    dec_str((hi / 256) as nat) + seq!['.'] + dec_str((hi % 256) as nat) + seq!['.'] + dec_str(
        (lo / 256) as nat,
    ) + seq!['.'] + dec_str((lo % 256) as nat)
}

/// Hexadecimal groups joined by colons.
pub open spec fn join_hex(gs: Seq<u16>) -> Seq<char>
    decreases gs.len(),
{
    if gs.len() == 0 {
        Seq::<char>::empty()
    } else if gs.len() == 1 {
        hex_str(gs[0] as nat)
    } else {
        hex_str(gs[0] as nat) + seq![':'] + join_hex(gs.drop_first())
    }
}

/// The longest-zero-run scan over the groups, one position at a time:
/// a run extends the current span, and the best span is replaced only
/// by a strictly longer one, so the first of equally long runs is kept.
pub open spec fn scan_zeros(gs: Seq<u16>, i: int, cs: int, cl: int, bs: int, bl: int) -> (
    int,
    int,
)
    decreases gs.len() - i,
{
    if i < 0 || i >= gs.len() {
        (bs, bl)
    } else if gs[i] == 0 {
        let ncs = if cl == 0 {
            i
        } else {
            cs
        };
        let ncl = cl + 1;
        if ncl > bl {
            scan_zeros(gs, i + 1, ncs, ncl, ncs, ncl)
        } else {
            scan_zeros(gs, i + 1, ncs, ncl, bs, bl)
        }
    } else {
        scan_zeros(gs, i + 1, 0, 0, bs, bl)
    }
}

/// The start and length of the first longest run of zero groups.
pub open spec fn best_zero_run(gs: Seq<u16>) -> (int, int) {
    scan_zeros(gs, 0, 0, 0, 0, 0)
}

/// Find the first longest run of zero groups in one pass.
fn best_run(v: &Vec<u16>) -> (r: (usize, usize))
    ensures
        r.0 as int == best_zero_run(v@).0,
        r.1 as int == best_zero_run(v@).1,
        r.0 + r.1 <= v@.len(),
{
    let len = v.len();
    let mut i: usize = 0;
    let mut cs: usize = 0;
    let mut cl: usize = 0;
    let mut bs: usize = 0;
    let mut bl: usize = 0;
    while i < len
        invariant
            len == v@.len(),
            i <= len,
            cs + cl <= i,
            bs + bl <= i,
            best_zero_run(v@) == scan_zeros(v@, i as int, cs as int, cl as int, bs as int, bl as int),
        decreases len - i,
    {
        if v[i] == 0 {
            if cl == 0 {
                cs = i;
            }
            cl = cl + 1;
            if cl > bl {
                bs = cs;
                bl = cl;
            }
        } else {
            cs = 0;
            cl = 0;
        }
        i = i + 1;
    }
    (bs, bl)
}

/// Render the groups `from..to` joined by colons.
fn hex_join(v: &Vec<u16>, from: usize, to: usize) -> (r: String)
    requires
        from <= to <= v@.len(),
    ensures
        r@ == join_hex(v@.subrange(from as int, to as int)),
    decreases to - from,
{
    if from == to {
        let r = String::new();
        proof {
            assert(v@.subrange(from as int, to as int).len() == 0);
        }
        r
    } else if to - from == 1 {
        let r = u16_to_hex(v[from]);
        proof {
            assert(v@.subrange(from as int, to as int).len() == 1);
            assert(v@.subrange(from as int, to as int)[0] == v@[from as int]);
        }
        r
    } else {
        let mut s = u16_to_hex(v[from]);
        s.append(":");
        let rest = hex_join(v, from + 1, to);
        s.append(rest.as_str());
        proof {
            reveal_strlit(":");
            assert(":"@ =~= seq![':']);
            let sub = v@.subrange(from as int, to as int);
            assert(sub.drop_first() =~= v@.subrange(from + 1, to as int));
            assert(sub[0] == v@[from as int]);
            assert(s@ =~= join_hex(sub));
        }
        s
    }
}

/// The value of a decimal octet in canonical text form (no leading zero,
/// at most three digits, at most 255), if `seg` has that form.
pub open spec fn spec_parse_octet(seg: Seq<char>) -> Option<u8> {
    if 1 <= seg.len() <= 3 && (forall|i: int| 0 <= i < seg.len() ==> is_dec_digit(#[trigger] seg[i]))
        && (seg.len() > 1 ==> seg[0] != '0') && digits_val(seg) <= 255 {
        Some(digits_val(seg) as u8)
    } else {
        None
    }
}

/// Parse one decimal octet in canonical form.
fn parse_octet(seg: &str) -> (r: Option<u8>)
    ensures
        r == spec_parse_octet(seg@),
{
    let len = seg.unicode_len();
    if len < 1 || len > 3 {
        return None;
    }
    let mut val: u32 = 0;
    let mut i: usize = 0;
    while i < len
        invariant
            len == seg@.len(),
            1 <= len <= 3,
            i <= len,
            forall|j: int| 0 <= j < i ==> is_dec_digit(#[trigger] seg@[j]),
            val == digits_val(seg@.take(i as int)),
            i == 0 ==> val == 0,
            i == 1 ==> val <= 9,
            i == 2 ==> val <= 99,
            i == 3 ==> val <= 999,
        decreases len - i,
    {
        let c = seg.get_char(i);
        let u = c as u32;
        if u < 0x30 || u > 0x39 {
            assert(!is_dec_digit(seg@[i as int]));
            return None;
        }
        proof {
            assert(seg@.take(i + 1).drop_last() =~= seg@.take(i as int));
            assert(seg@.take(i + 1).last() == seg@[i as int]);
        }
        val = val * 10 + (u - 0x30);
        i = i + 1;
    }
    proof {
        assert(seg@.take(len as int) =~= seg@);
    }
    if len > 1 && seg.get_char(0) == '0' {
        return None;
    }
    if val > 255 {
        return None;
    }
    Some(val as u8)
}

/// The IPv4 address denoted by `s`, if `s` consists of exactly four
/// canonical decimal octets separated by dots.
pub open spec fn spec_parse_ipv4(s: Seq<char>) -> Option<IpAddress> {
    let dot = seq!['.'];
    match find_seq(s, dot) {
        None => None,
        Some(p1) => {
            let seg1 = s.take(p1);
            let rest1 = s.skip(p1 + 1);
            match find_seq(rest1, dot) {
                None => None,
                Some(p2) => {
                    let seg2 = rest1.take(p2);
                    let rest2 = rest1.skip(p2 + 1);
                    match find_seq(rest2, dot) {
                        None => None,
                        Some(p3) => {
                            let seg3 = rest2.take(p3);
                            let seg4 = rest2.skip(p3 + 1);
                            if find_seq(seg4, dot) is Some {
                                None
                            } else {
                                match (spec_parse_octet(seg1), spec_parse_octet(seg2),
                                spec_parse_octet(seg3), spec_parse_octet(seg4)) {
                                    (Some(a), Some(b), Some(c), Some(d)) => Some(
                                        IpAddress::V4(a, b, c, d),
                                    ),
                                    _ => None,
                                }
                            }
                        },
                    }
                },
            }
        },
    }
}

/// Parse a dotted-decimal IPv4 address.
pub fn parse_ipv4(s: &str) -> (r: Option<IpAddress>)
    ensures
        r == spec_parse_ipv4(s@),
{
    let dot = ".";
    proof {
        reveal_strlit(".");
        assert(dot@ =~= seq!['.']);
    }
    let len = s.unicode_len();
    let p1 = match find_sub(s, dot) {
        Some(p) => p,
        None => {
            return None;
        },
    };
    proof {
        lemma_find_seq_props(s@, seq!['.']);
    }
    let seg1 = s.substring_char(0, p1);
    let rest1 = s.substring_char(p1 + 1, len);
    proof {
        assert(seg1@ =~= s@.take(p1 as int));
        assert(rest1@ =~= s@.skip(p1 + 1));
    }
    let len1 = rest1.unicode_len();
    let p2 = match find_sub(rest1, dot) {
        Some(p) => p,
        None => {
            return None;
        },
    };
    proof {
        lemma_find_seq_props(rest1@, seq!['.']);
    }
    let seg2 = rest1.substring_char(0, p2);
    let rest2 = rest1.substring_char(p2 + 1, len1);
    proof {
        assert(seg2@ =~= rest1@.take(p2 as int));
        assert(rest2@ =~= rest1@.skip(p2 + 1));
    }
    let len2 = rest2.unicode_len();
    let p3 = match find_sub(rest2, dot) {
        Some(p) => p,
        None => {
            return None;
        },
    };
    proof {
        lemma_find_seq_props(rest2@, seq!['.']);
    }
    let seg3 = rest2.substring_char(0, p3);
    let seg4 = rest2.substring_char(p3 + 1, len2);
    proof {
        assert(seg3@ =~= rest2@.take(p3 as int));
        assert(seg4@ =~= rest2@.skip(p3 + 1));
    }
    if find_sub(seg4, dot).is_some() {
        return None;
    }
    let o1 = parse_octet(seg1);
    let o2 = parse_octet(seg2);
    let o3 = parse_octet(seg3);
    let o4 = parse_octet(seg4);
    match (o1, o2, o3, o4) {
        (Some(a), Some(b), Some(c), Some(d)) => Some(IpAddress::V4(a, b, c, d)),
        _ => None,
    }
}

proof fn lemma_octet_canonical(seg: Seq<char>)
    requires
        spec_parse_octet(seg) is Some,
    ensures
        dec_str(spec_parse_octet(seg)->0 as nat) =~= seg,
{
    let v = digits_val(seg);
    lemma_digits_val_bounds(seg);
    lemma_dec_str_props(v as nat);
    lemma_digit_str_unique(dec_str(v as nat), seg);
}

proof fn lemma_octet_of_dec_str(v: u8)
    ensures
        spec_parse_octet(dec_str(v as nat)) == Some(v),
{
    lemma_dec_str_props(v as nat);
}

proof fn lemma_split_at_dot(x: Seq<char>, y: Seq<char>)
    requires
        forall|i: int| 0 <= i < x.len() ==> is_dec_digit(#[trigger] x[i]),
    ensures
        find_seq(x + seq!['.'] + y, seq!['.']) == Some(x.len() as int),
        (x + seq!['.'] + y).take(x.len() as int) =~= x,
        (x + seq!['.'] + y).skip(x.len() as int + 1) =~= y,
{
    let s = x + seq!['.'] + y;
    assert(s[x.len() as int] == '.');
    assert(match_at(s, seq!['.'], x.len() as int));
    assert forall|m: int| 0 <= m < x.len() implies !match_at(s, seq!['.'], m) by {
        assert(s[m] == x[m]);
        if s[m] == '.' {
            assert(is_dec_digit('.'));
            assert(false);
        }
        if match_at(s, seq!['.'], m) {
            assert(s[m + 0] == seq!['.'][0]);
            assert(false);
        }
    }
    lemma_find_seq_first(s, seq!['.'], x.len() as int);
    assert(s.take(x.len() as int) =~= x);
    assert(s.skip(x.len() as int + 1) =~= y);
}

proof fn lemma_no_dot_in_digits(x: Seq<char>)
    requires
        forall|i: int| 0 <= i < x.len() ==> is_dec_digit(#[trigger] x[i]),
    ensures
        find_seq(x, seq!['.']) is None,
{
    lemma_find_seq_props(x, seq!['.']);
    if find_seq(x, seq!['.']) is Some {
        let j = find_seq(x, seq!['.'])->0;
        assert(match_at(x, seq!['.'], j));
        assert(x[j + 0] == seq!['.'][0]);
        assert(is_dec_digit('.'));
        assert(false);
    }
}

/// Rendering an IPv4 address and parsing the result gives the address
/// back: the parser accepts exactly the canonical renderings.
pub proof fn lemma_ipv4_round_trip(a: u8, b: u8, c: u8, d: u8)
    ensures
        spec_parse_ipv4(IpAddress::V4(a, b, c, d).ip_chars()) == Some(IpAddress::V4(a, b, c, d)),
{
    let d1 = dec_str(a as nat);
    let d2 = dec_str(b as nat);
    let d3 = dec_str(c as nat);
    let d4 = dec_str(d as nat);
    lemma_dec_str_props(a as nat);
    lemma_dec_str_props(b as nat);
    lemma_dec_str_props(c as nat);
    lemma_dec_str_props(d as nat);
    let s = IpAddress::V4(a, b, c, d).ip_chars();
    let y1 = d2 + seq!['.'] + d3 + seq!['.'] + d4;
    let y2 = d3 + seq!['.'] + d4;
    assert(s =~= d1 + seq!['.'] + y1);
    assert(y1 =~= d2 + seq!['.'] + y2);
    lemma_split_at_dot(d1, y1);
    lemma_split_at_dot(d2, y2);
    lemma_split_at_dot(d3, d4);
    lemma_no_dot_in_digits(d4);
    lemma_octet_of_dec_str(a);
    lemma_octet_of_dec_str(b);
    lemma_octet_of_dec_str(c);
    lemma_octet_of_dec_str(d);
}

/// Whether `c` is a hexadecimal digit, either case.
pub open spec fn is_hex_digit(c: char) -> bool {
    let u = c as u32;
    (0x30 <= u <= 0x39) || (0x61 <= u <= 0x66) || (0x41 <= u <= 0x46)
}

/// The numeric value of a hexadecimal digit character.
pub open spec fn hex_digit_val(c: char) -> int {
    let u = c as u32;
    if 0x30 <= u <= 0x39 {
        u - 0x30
    } else if 0x61 <= u <= 0x66 {
        u - 0x61 + 10
    } else {
        u - 0x41 + 10
    }
}

/// The number denoted by a string of hexadecimal digits.
pub open spec fn hexits_val(s: Seq<char>) -> int
    decreases s.len(),
{
    if s.len() == 0 {
        0
    } else {
        hexits_val(s.drop_last()) * 16 + hex_digit_val(s.last())
    }
}

/// The value of one IPv6 group: one to four hexadecimal digits.
pub open spec fn spec_parse_group(seg: Seq<char>) -> Option<u16> {
    if 1 <= seg.len() <= 4 && (forall|i: int|
        0 <= i < seg.len() ==> is_hex_digit(#[trigger] seg[i])) {
        Some(hexits_val(seg) as u16)
    } else {
        None
    }
}

/// Parse one IPv6 group.
fn parse_group(seg: &str) -> (r: Option<u16>)
    ensures
        r == spec_parse_group(seg@),
{
    let len = seg.unicode_len();
    if len < 1 || len > 4 {
        return None;
    }
    let mut val: u32 = 0;
    let mut i: usize = 0;
    while i < len
        invariant
            len == seg@.len(),
            1 <= len <= 4,
            i <= len,
            forall|j: int| 0 <= j < i ==> is_hex_digit(#[trigger] seg@[j]),
            val == hexits_val(seg@.take(i as int)),
            i == 0 ==> val == 0,
            i == 1 ==> val <= 0xF,
            i == 2 ==> val <= 0xFF,
            i == 3 ==> val <= 0xFFF,
            i == 4 ==> val <= 0xFFFF,
        decreases len - i,
    {
        let c = seg.get_char(i);
        let u = c as u32;
        let d: u32 = if 0x30 <= u && u <= 0x39 {
            u - 0x30
        } else if 0x61 <= u && u <= 0x66 {
            u - 0x61 + 10
        } else if 0x41 <= u && u <= 0x46 {
            u - 0x41 + 10
        } else {
            assert(!is_hex_digit(seg@[i as int]));
            return None;
        };
        proof {
            assert(seg@.take(i + 1).drop_last() =~= seg@.take(i as int));
            assert(seg@.take(i + 1).last() == seg@[i as int]);
        }
        val = val * 16 + d;
        i = i + 1;
    }
    proof {
        assert(seg@.take(len as int) =~= seg@);
    }
    Some(val as u16)
}

/// The two sixteen-bit groups an embedded dotted quad stands for.
pub open spec fn v4_groups(a: u8, b: u8, c: u8, d: u8) -> Seq<u16> {
    seq![(a * 256 + b) as u16, (c * 256 + d) as u16]
}

/// The groups denoted by a colon-separated list: each element one to
/// four hexadecimal digits, except that the last may be an embedded
/// dotted-quad IPv4 address (standing for two groups) when `allow_v4`
/// holds.
pub open spec fn spec_parse_groups(s: Seq<char>, allow_v4: bool) -> Option<Seq<u16>>
    decreases s.len(),
{
    match find_seq(s, seq![':']) {
        None => match spec_parse_group(s) {
            Some(g) => Some(seq![g]),
            None => if allow_v4 {
                match spec_parse_ipv4(s) {
                    Some(ip) => match ip {
                        IpAddress::V4(a, b, c, d) => Some(v4_groups(a, b, c, d)),
                        _ => None,
                    },
                    None => None,
                }
            } else {
                None
            },
        },
        Some(p) => {
            if 0 <= p && p + 1 <= s.len() {
                match spec_parse_group(s.take(p)) {
                    None => None,
                    Some(g) => match spec_parse_groups(s.skip(p + 1), allow_v4) {
                        None => None,
                        Some(gs) => Some(seq![g] + gs),
                    },
                }
            } else {
                None
            }
        },
    }
}

/// Eight groups assembled into an address.
pub open spec fn v6_of(gs: Seq<u16>) -> IpAddress {
    IpAddress::V6(gs[0], gs[1], gs[2], gs[3], gs[4], gs[5], gs[6], gs[7])
}

/// The groups of a compressed address: the left groups, the elided
/// zeros, the right groups, eight in all.
pub open spec fn pad_groups(l: Seq<u16>, r: Seq<u16>) -> Seq<u16> {
    l + Seq::new((8 - l.len() - r.len()) as nat, |i: int| 0u16) + r
}

/// The IPv6 address denoted by `s`: eight colon-separated hexadecimal
/// groups, or two shorter group lists joined by one `::` eliding at
/// least one zero group; the final group position may hold an embedded
/// dotted-quad IPv4 address standing for two groups.
pub open spec fn spec_parse_ipv6(s: Seq<char>) -> Option<IpAddress> {
    let cc = seq![':', ':'];
    match find_seq(s, cc) {
        None => match spec_parse_groups(s, true) {
            Some(gs) => if gs.len() == 8 {
                Some(v6_of(gs))
            } else {
                None
            },
            None => None,
        },
        Some(p) => {
            if 0 <= p && p + 2 <= s.len() {
                let left = s.take(p);
                let right = s.skip(p + 2);
                if find_seq(right, cc) is Some {
                    None
                } else {
                    let lg = if left.len() == 0 {
                        Some(Seq::<u16>::empty())
                    } else {
                        spec_parse_groups(left, false)
                    };
                    let rg = if right.len() == 0 {
                        Some(Seq::<u16>::empty())
                    } else {
                        spec_parse_groups(right, true)
                    };
                    if lg is Some && rg is Some && lg->0.len() + rg->0.len() <= 7 {
                        Some(v6_of(pad_groups(lg->0, rg->0)))
                    } else {
                        None
                    }
                }
            } else {
                None
            }
        },
    }
}

/// Parse a colon-separated group list.
fn parse_groups(s: &str, allow_v4: bool) -> (r: Option<Vec<u16>>)
    ensures
        match r {
            Some(v) => spec_parse_groups(s@, allow_v4) == Some(v@),
            None => spec_parse_groups(s@, allow_v4) is None,
        },
    decreases s@.len(),
{
    let colon = ":";
    proof {
        reveal_strlit(":");
        assert(colon@ =~= seq![':']);
    }
    let len = s.unicode_len();
    match find_sub(s, colon) {
        None => match parse_group(s) {
            Some(g) => {
                let v = vec![g];
                proof {
                    assert(v@ =~= seq![g]);
                }
                Some(v)
            },
            None => {
                if allow_v4 {
                    match parse_ipv4(s) {
                        Some(ip) => match ip {
                            IpAddress::V4(a, b, c, d) => {
                                let hi = (a as u16) * 256 + (b as u16);
                                let lo = (c as u16) * 256 + (d as u16);
                                let v = vec![hi, lo];
                                proof {
                                    assert(v@ =~= v4_groups(a, b, c, d));
                                }
                                Some(v)
                            },
                            IpAddress::V6(..) => {
                                proof {
                                    lemma_ipv4_parse_sound(s@, ip);
                                }
                                None
                            },
                        },
                        None => None,
                    }
                } else {
                    None
                }
            },
        },
        Some(p) => {
            proof {
                lemma_find_seq_props(s@, seq![':']);
            }
            let head = s.substring_char(0, p);
            let tail = s.substring_char(p + 1, len);
            proof {
                assert(head@ =~= s@.take(p as int));
                assert(tail@ =~= s@.skip(p + 1));
            }
            match parse_group(head) {
                None => None,
                Some(g) => match parse_groups(tail, allow_v4) {
                    None => None,
                    Some(gs) => {
                        let ghost gsv = gs@;
                        let mut v = vec![g];
                        let mut rest = gs;
                        v.append(&mut rest);
                        proof {
                            assert(v@ =~= seq![g] + gsv);
                        }
                        Some(v)
                    },
                },
            }
        },
    }
}

/// Parse an IPv6 address, compressed and embedded-IPv4 forms included.
pub fn parse_ipv6(s: &str) -> (r: Option<IpAddress>)
    ensures
        r == spec_parse_ipv6(s@),
{
    let cc = "::";
    proof {
        reveal_strlit("::");
        assert(cc@ =~= seq![':', ':']);
    }
    let len = s.unicode_len();
    match find_sub(s, cc) {
        None => match parse_groups(s, true) {
            Some(v) => {
                if v.len() == 8 {
                    Some(IpAddress::V6(v[0], v[1], v[2], v[3], v[4], v[5], v[6], v[7]))
                } else {
                    None
                }
            },
            None => None,
        },
        Some(p) => {
            proof {
                lemma_find_seq_props(s@, seq![':', ':']);
            }
            let left = s.substring_char(0, p);
            let right = s.substring_char(p + 2, len);
            proof {
                assert(left@ =~= s@.take(p as int));
                assert(right@ =~= s@.skip(p + 2));
            }
            if find_sub(right, cc).is_some() {
                return None;
            }
            let lg: Option<Vec<u16>> = if left.unicode_len() == 0 {
                proof {
                    assert(left@.len() == 0);
                }
                Some(Vec::new())
            } else {
                parse_groups(left, false)
            };
            let rg: Option<Vec<u16>> = if right.unicode_len() == 0 {
                proof {
                    assert(right@.len() == 0);
                }
                Some(Vec::new())
            } else {
                parse_groups(right, true)
            };
            match (lg, rg) {
                (Some(l), Some(rr)) => {
                    if l.len() <= 7 && rr.len() <= 7 - l.len() {
                        let z = 8 - l.len() - rr.len();
                        let ghost lv = l@;
                        let ghost rv = rr@;
                        let mut gs = l;
                        let mut i: usize = 0;
                        while i < z
                            invariant
                                i <= z,
                                gs@ =~= lv + Seq::new(i as nat, |k: int| 0u16),
                            decreases z - i,
                        {
                            gs.push(0);
                            proof {
                                assert(gs@ =~= lv + Seq::new((i + 1) as nat, |k: int| 0u16));
                            }
                            i = i + 1;
                        }
                        let mut tail = rr;
                        gs.append(&mut tail);
                        proof {
                            assert(gs@ =~= pad_groups(lv, rv));
                        }
                        Some(IpAddress::V6(gs[0], gs[1], gs[2], gs[3], gs[4], gs[5], gs[6], gs[7]))
                    } else {
                        None
                    }
                },
                _ => None,
            }
        },
    }
}

/// Parse an IP address of either family./// Parse an IP address of either family.
pub open spec fn spec_parse_ip(s: Seq<char>) -> Option<IpAddress> {
    if spec_parse_ipv4(s) is Some {
        spec_parse_ipv4(s)
    } else {
        spec_parse_ipv6(s)
    }
}

/// Parse an IP address of either family.
pub fn parse_ip(s: &str) -> (r: Option<IpAddress>)
    ensures
        r == spec_parse_ip(s@),
{
    match parse_ipv4(s) {
        Some(ip) => Some(ip),
        None => parse_ipv6(s),
    }
}

proof fn lemma_dot_split(t: Seq<char>)
    requires
        find_seq(t, seq!['.']) is Some,
    ensures
        t =~= t.take(find_seq(t, seq!['.'])->0) + seq!['.'] + t.skip(
            find_seq(t, seq!['.'])->0 + 1,
        ),
{
    lemma_find_seq_props(t, seq!['.']);
    let p = find_seq(t, seq!['.'])->0;
    assert(match_at(t, seq!['.'], p));
    assert(t[p + 0] == seq!['.'][0]);
    assert(t =~= t.take(p) + seq!['.'] + t.skip(p + 1));
}

/// A string the parser accepts is the canonical rendering of the parsed
/// address: parsing is sound with respect to `ip_chars`.
#[verifier::rlimit(60)]
pub proof fn lemma_ipv4_parse_sound(s: Seq<char>, ip: IpAddress)
    requires
        spec_parse_ipv4(s) == Some(ip),
    ensures
        ip is V4,
        s =~= ip.ip_chars(),
{
    let dot = seq!['.'];
    let p1 = find_seq(s, dot)->0;
    let seg1 = s.take(p1);
    let rest1 = s.skip(p1 + 1);
    let p2 = find_seq(rest1, dot)->0;
    let seg2 = rest1.take(p2);
    let rest2 = rest1.skip(p2 + 1);
    let p3 = find_seq(rest2, dot)->0;
    let seg3 = rest2.take(p3);
    let seg4 = rest2.skip(p3 + 1);
    lemma_dot_split(s);
    lemma_dot_split(rest1);
    lemma_dot_split(rest2);
    lemma_octet_canonical(seg1);
    lemma_octet_canonical(seg2);
    lemma_octet_canonical(seg3);
    lemma_octet_canonical(seg4);
    let a = spec_parse_octet(seg1)->0;
    let b = spec_parse_octet(seg2)->0;
    let c = spec_parse_octet(seg3)->0;
    let d = spec_parse_octet(seg4)->0;
    assert(ip == IpAddress::V4(a, b, c, d));
    assert(s == seg1 + dot + (seg2 + dot + (seg3 + dot + seg4)));
    assert(ip.ip_chars() =~= seg1 + dot + (seg2 + dot + (seg3 + dot + seg4)));
}

} // verus!
