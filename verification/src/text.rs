//! Verified utilities on strings: equality, substring search, trimming,
//! prefix extraction and decimal/hexadecimal rendering of integers.
//!
//! Provider response bodies are matched byte-for-byte against vendor
//! success markers, so these operations carry exact contracts over the
//! `Seq<char>` views of the strings involved.

use vstd::prelude::*;

verus! {

/// The needle `n` occurs in `h` starting at position `i`.
pub open spec fn match_at(h: Seq<char>, n: Seq<char>, i: int) -> bool {
    &&& 0 <= i
    &&& i + n.len() <= h.len()
    &&& forall|k: int| 0 <= k < n.len() ==> h[i + k] == n[k]
}

/// The needle `n` occurs somewhere in `h`.
pub open spec fn contains_seq(h: Seq<char>, n: Seq<char>) -> bool {
    exists|i: int| match_at(h, n, i)
}

/// Index of the first occurrence of `n` in `h` at or after `i`, if any.
pub open spec fn find_from(h: Seq<char>, n: Seq<char>, i: int) -> Option<int>
    decreases h.len() - i,
{
    if i < 0 || i + n.len() > h.len() {
        None
    } else if match_at(h, n, i) {
        Some(i)
    } else {
        find_from(h, n, i + 1)
    }
}

/// Index of the first occurrence of `n` in `h`, if any.
pub open spec fn find_seq(h: Seq<char>, n: Seq<char>) -> Option<int> {
    find_from(h, n, 0)
}

proof fn lemma_find_from_props(h: Seq<char>, n: Seq<char>, i: int)
    requires
        0 <= i,
    ensures
        find_from(h, n, i) matches Some(j) ==> i <= j && match_at(h, n, j) && (forall|m: int|
            i <= m < j ==> !match_at(h, n, m)),
        find_from(h, n, i) is None ==> forall|m: int| m >= i ==> !match_at(h, n, m),
    decreases h.len() - i,
{
    if i + n.len() > h.len() {
        assert forall|m: int| m >= i implies !match_at(h, n, m) by {
            assert(m + n.len() > h.len());
        }
    } else if match_at(h, n, i) {
    } else {
        lemma_find_from_props(h, n, i + 1);
    }
}

/// `find_seq` finds the first match: a `Some` result is a match with none
/// earlier, and a `None` result means no match at all.
pub proof fn lemma_find_seq_props(h: Seq<char>, n: Seq<char>)
    ensures
        find_seq(h, n) matches Some(j) ==> match_at(h, n, j) && (forall|m: int|
            0 <= m < j ==> !match_at(h, n, m)),
        find_seq(h, n) is None ==> !contains_seq(h, n),
{
    lemma_find_from_props(h, n, 0);
    if find_seq(h, n) is None {
        assert forall|m: int| !(#[trigger] match_at(h, n, m)) by {
            if m >= 0 {
                assert(!match_at(h, n, m));
            }
        }
    }
}

proof fn lemma_find_from_step(h: Seq<char>, n: Seq<char>, i: int)
    requires
        0 <= i,
        i + n.len() <= h.len(),
        !match_at(h, n, i),
    ensures
        find_from(h, n, i) == find_from(h, n, i + 1),
{
}

/// Character-by-character string equality, proved against the views.
pub fn str_eq(a: &str, b: &str) -> (r: bool)
    ensures
        r == (a@ == b@),
{
    let alen = a.unicode_len();
    let blen = b.unicode_len();
    if alen != blen {
        assert(a@.len() != b@.len());
        return false;
    }
    let mut i: usize = 0;
    while i < alen
        invariant
            alen == a@.len(),
            alen == b@.len(),
            i <= alen,
            forall|j: int| 0 <= j < i ==> a@[j] == b@[j],
        decreases alen - i,
    {
        if a.get_char(i) != b.get_char(i) {
            assert(a@[i as int] != b@[i as int]);
            return false;
        }
        i = i + 1;
    }
    proof {
        assert(a@ =~= b@);
    }
    true
}

/// Index of the first occurrence of `needle` in `hay`, if any.
pub fn find_sub(hay: &str, needle: &str) -> (r: Option<usize>)
    ensures
        match r {
            Some(j) => find_seq(hay@, needle@) == Some(j as int),
            None => find_seq(hay@, needle@) is None,
        },
{
    let hlen = hay.unicode_len();
    let nlen = needle.unicode_len();
    if nlen > hlen {
        proof {
            assert forall|m: int| 0 <= m implies !match_at(hay@, needle@, m) by {
                assert(m + needle@.len() > hay@.len());
            }
        }
        return None;
    }
    let mut i: usize = 0;
    loop
        invariant
            hlen == hay@.len(),
            nlen == needle@.len(),
            nlen <= hlen,
            i <= hlen - nlen + 1,
            find_from(hay@, needle@, 0) == find_from(hay@, needle@, i as int),
        decreases hlen - nlen + 1 - i,
    {
        if i > hlen - nlen {
            assert(i as int + needle@.len() > hay@.len());
            return None;
        }
        let mut j: usize = 0;
        let mut matched = true;
        while j < nlen
            invariant
                hlen == hay@.len(),
                nlen == needle@.len(),
                i + nlen <= hlen,
                j <= nlen,
                matched ==> forall|k: int| 0 <= k < j ==> hay@[i + k] == needle@[k],
                !matched ==> !match_at(hay@, needle@, i as int),
            decreases nlen - j,
        {
            if hay.get_char(i + j) != needle.get_char(j) {
                assert(hay@[i as int + j as int] != needle@[j as int]);
                matched = false;
                j = nlen;
            } else {
                j = j + 1;
            }
        }
        if matched {
            assert(match_at(hay@, needle@, i as int));
            return Some(i);
        }
        proof {
            lemma_find_from_step(hay@, needle@, i as int);
        }
        i = i + 1;
    }
}

/// Whether `needle` occurs anywhere in `hay`.
pub fn contains_sub(hay: &str, needle: &str) -> (r: bool)
    ensures
        r == contains_seq(hay@, needle@),
{
    let found = find_sub(hay, needle);
    proof {
        lemma_find_seq_props(hay@, needle@);
    }
    found.is_some()
}

/// A character with the Unicode white-space property, the set that
/// `str::trim` removes.
pub open spec fn is_ws(c: char) -> bool {
    let u = c as u32;
    ||| u == 0x20
    ||| u == 0x09
    ||| u == 0x0A
    ||| u == 0x0B
    ||| u == 0x0C
    ||| u == 0x0D
    ||| u == 0x85
    ||| u == 0xA0
    ||| u == 0x1680
    ||| (0x2000 <= u && u <= 0x200A)
    ||| u == 0x2028
    ||| u == 0x2029
    ||| u == 0x202F
    ||| u == 0x205F
    ||| u == 0x3000
}

/// Whether `c` is Unicode white space.
pub fn is_ws_char(c: char) -> (r: bool)
    ensures
        r == is_ws(c),
{
    let u = c as u32;
    u == 0x20 || u == 0x09 || u == 0x0A || u == 0x0B || u == 0x0C || u == 0x0D || u == 0x85 || u
        == 0xA0 || u == 0x1680 || (0x2000 <= u && u <= 0x200A) || u == 0x2028 || u == 0x2029 || u
        == 0x202F || u == 0x205F || u == 0x3000
}

/// `s` with leading and trailing white space removed.
pub open spec fn trim_spec(s: Seq<char>) -> Seq<char>
    decreases s.len(),
{
    if s.len() == 0 {
        s
    } else if is_ws(s[0]) {
        trim_spec(s.drop_first())
    } else if is_ws(s[s.len() - 1]) {
        trim_spec(s.drop_last())
    } else {
        s
    }
}

proof fn lemma_trim_range(s: Seq<char>, a: int, b: int)
    requires
        0 <= a <= b <= s.len(),
        forall|i: int| 0 <= i < a ==> is_ws(s[i]),
        forall|i: int| b <= i < s.len() ==> is_ws(s[i]),
        a < b ==> !is_ws(s[a]) && !is_ws(s[b - 1]),
    ensures
        trim_spec(s) =~= s.subrange(a, b),
    decreases s.len(),
{
    if s.len() == 0 {
    } else if is_ws(s[0]) {
        let t = s.drop_first();
        if a == 0 {
            assert(a == b);
            assert(forall|i: int| 0 <= i < t.len() ==> is_ws(#[trigger] t[i]));
            lemma_trim_range(t, 0, 0);
        } else {
            lemma_trim_range(t, a - 1, b - 1);
            assert(t.subrange(a - 1, b - 1) =~= s.subrange(a, b));
        }
    } else if is_ws(s[s.len() - 1]) {
        let t = s.drop_last();
        if b == s.len() {
            if a < b {
                assert(false);
            } else {
                assert(is_ws(s[0]));
                assert(false);
            }
        }
        lemma_trim_range(t, a, b);
        assert(t.subrange(a, b) =~= s.subrange(a, b));
    } else {
        if a > 0 {
            assert(is_ws(s[0]));
            assert(false);
        }
        if b < s.len() {
            assert(is_ws(s[s.len() - 1]));
            assert(false);
        }
        assert(s.subrange(0, s.len() as int) =~= s);
    }
}

/// `s` with leading and trailing white space removed.
pub fn trim_str(s: &str) -> (r: &str)
    ensures
        r@ == trim_spec(s@),
{
    let len = s.unicode_len();
    let mut a: usize = 0;
    loop
        invariant
            len == s@.len(),
            a <= len,
            forall|i: int| 0 <= i < a ==> is_ws(s@[i]),
        ensures
            a <= len,
            forall|i: int| 0 <= i < a ==> is_ws(s@[i]),
            a < len ==> !is_ws(s@[a as int]),
        decreases len - a,
    {
        if a >= len {
            break ;
        }
        if !is_ws_char(s.get_char(a)) {
            break ;
        }
        a = a + 1;
    }
    let mut b: usize = len;
    loop
        invariant
            len == s@.len(),
            a <= b <= len,
            forall|i: int| b <= i < len ==> is_ws(s@[i]),
            a < len ==> !is_ws(s@[a as int]),
        ensures
            a <= b <= len,
            forall|i: int| b <= i < len ==> is_ws(s@[i]),
            b > a ==> !is_ws(s@[b - 1]),
        decreases b,
    {
        if b == a {
            break ;
        }
        if !is_ws_char(s.get_char(b - 1)) {
            break ;
        }
        b = b - 1;
    }
    proof {
        lemma_trim_range(s@, a as int, b as int);
    }
    s.substring_char(a, b)
}

/// The prefix of `h` before the first occurrence of `c`; all of `h` when
/// `c` does not occur.
pub open spec fn seg_before(h: Seq<char>, c: char) -> Seq<char> {
    match find_seq(h, seq![c]) {
        Some(i) => h.take(i),
        None => h,
    }
}

/// The prefix of `s` before the first occurrence of `c`.
pub fn prefix_before_char(s: &str, c: char) -> (r: &str)
    ensures
        r@ == seg_before(s@, c),
{
    let len = s.unicode_len();
    let ghost n: Seq<char> = seq![c];
    let mut i: usize = 0;
    loop
        invariant
            len == s@.len(),
            i <= len,
            n == seq![c],
            find_from(s@, n, 0) == find_from(s@, n, i as int),
        ensures
            i <= len,
            n == seq![c],
            find_from(s@, n, 0) == find_from(s@, n, i as int),
            i < len ==> s@[i as int] == c && find_from(s@, n, i as int) == Some(i as int),
            i == len ==> find_from(s@, n, i as int) is None,
        decreases len - i,
    {
        if i >= len {
            assert(i as int + n.len() > s@.len());
            break ;
        }
        if s.get_char(i) == c {
            assert(match_at(s@, n, i as int));
            break ;
        }
        proof {
            assert(!match_at(s@, n, i as int)) by {
                assert(s@[i as int + 0] != n[0]);
            }
            lemma_find_from_step(s@, n, i as int);
        }
        i = i + 1;
    }
    let r = s.substring_char(0, i);
    proof {
        if i < len {
            assert(r@ =~= s@.take(i as int));
        } else {
            assert(r@ =~= s@);
        }
    }
    r
}

/// Whether `s` begins with the character `c`.
pub fn starts_with_char(s: &str, c: char) -> (r: bool)
    ensures
        r == (s@.len() > 0 && s@[0] == c),
{
    if s.unicode_len() == 0 {
        false
    } else {
        s.get_char(0) == c
    }
}

/// Where the payload after an opening tag stops: at the first following
/// close tag, or at the next open tag if that comes first, or at the end.
pub open spec fn stop_idx(rest: Seq<char>, open: Seq<char>, close: Seq<char>) -> int {
    let c = match find_seq(rest, close) {
        Some(j) => j,
        None => rest.len() as int,
    };
    let o = match find_seq(rest, open) {
        Some(j) => j,
        None => rest.len() as int,
    };
    if c <= o {
        c
    } else {
        o
    }
}

/// The text between the first `open` tag and the matching stop point, if
/// `open` occurs at all.
pub open spec fn tag_payload(t: Seq<char>, open: Seq<char>, close: Seq<char>) -> Option<
    Seq<char>,
> {
    match find_seq(t, open) {
        None => None,
        Some(i) => {
            let rest = t.skip(i + open.len());
            Some(rest.take(stop_idx(rest, open, close)))
        },
    }
}

/// The text between the first `open` tag and the matching stop point.
pub fn extract_tag_payload(t: &str, open: &str, close: &str) -> (r: Option<String>)
    ensures
        match r {
            Some(s) => tag_payload(t@, open@, close@) == Some(s@),
            None => tag_payload(t@, open@, close@) is None,
        },
{
    match find_sub(t, open) {
        None => None,
        Some(i) => {
            let tlen = t.unicode_len();
            let olen = open.unicode_len();
            proof {
                lemma_find_seq_props(t@, open@);
            }
            let rest = t.substring_char(i + olen, tlen);
            proof {
                assert(rest@ =~= t@.skip(i + olen));
            }
            let rlen = rest.unicode_len();
            let c = match find_sub(rest, close) {
                Some(j) => {
                    proof {
                        lemma_find_seq_props(rest@, close@);
                    }
                    j
                },
                None => rlen,
            };
            let o = match find_sub(rest, open) {
                Some(j) => {
                    proof {
                        lemma_find_seq_props(rest@, open@);
                    }
                    j
                },
                None => rlen,
            };
            let stop = if c <= o {
                c
            } else {
                o
            };
            let payload = rest.substring_char(0, stop);
            proof {
                assert(payload@ =~= rest@.take(stop as int));
            }
            Some(String::from_str(payload))
        },
    }
}

/// The decimal digit `d` as a character.
pub open spec fn dec_digit_char(d: int) -> char {
    if d == 0 {
        '0'
    } else if d == 1 {
        '1'
    } else if d == 2 {
        '2'
    } else if d == 3 {
        '3'
    } else if d == 4 {
        '4'
    } else if d == 5 {
        '5'
    } else if d == 6 {
        '6'
    } else if d == 7 {
        '7'
    } else if d == 8 {
        '8'
    } else {
        '9'
    }
}

/// The decimal rendering of `n`, without leading zeros.
pub open spec fn dec_str(n: nat) -> Seq<char>
    decreases n,
{
    if n < 10 {
        seq![dec_digit_char(n as int)]
    } else {
        dec_str(n / 10).push(dec_digit_char((n % 10) as int))
    }
}

fn dec_digit_str(d: u64) -> (r: &'static str)
    requires
        d < 10,
    ensures
        r@ =~= seq![dec_digit_char(d as int)],
{
    if d == 0 {
        proof {
            reveal_strlit("0");
        }
        "0"
    } else if d == 1 {
        proof {
            reveal_strlit("1");
        }
        "1"
    } else if d == 2 {
        proof {
            reveal_strlit("2");
        }
        "2"
    } else if d == 3 {
        proof {
            reveal_strlit("3");
        }
        "3"
    } else if d == 4 {
        proof {
            reveal_strlit("4");
        }
        "4"
    } else if d == 5 {
        proof {
            reveal_strlit("5");
        }
        "5"
    } else if d == 6 {
        proof {
            reveal_strlit("6");
        }
        "6"
    } else if d == 7 {
        proof {
            reveal_strlit("7");
        }
        "7"
    } else if d == 8 {
        proof {
            reveal_strlit("8");
        }
        "8"
    } else {
        proof {
            reveal_strlit("9");
        }
        "9"
    }
}

/// Render `n` in decimal.
pub fn u64_to_string(n: u64) -> (r: String)
    ensures
        r@ == dec_str(n as nat),
    decreases n,
{
    if n < 10 {
        String::from_str(dec_digit_str(n))
    } else {
        let mut s = u64_to_string(n / 10);
        s.append(dec_digit_str(n % 10));
        proof {
            assert(s@ =~= dec_str(n as nat));
        }
        s
    }
}

/// The hexadecimal digit `d` as a lower-case character.
pub open spec fn hex_digit_char(d: int) -> char {
    if d < 10 {
        dec_digit_char(d)
    } else if d == 10 {
        'a'
    } else if d == 11 {
        'b'
    } else if d == 12 {
        'c'
    } else if d == 13 {
        'd'
    } else if d == 14 {
        'e'
    } else {
        'f'
    }
}

/// The lower-case hexadecimal rendering of `n`, without leading zeros.
pub open spec fn hex_str(n: nat) -> Seq<char>
    decreases n,
{
    if n < 16 {
        seq![hex_digit_char(n as int)]
    } else {
        hex_str(n / 16).push(hex_digit_char((n % 16) as int))
    }
}

fn hex_digit_str(d: u16) -> (r: &'static str)
    requires
        d < 16,
    ensures
        r@ =~= seq![hex_digit_char(d as int)],
{
    if d < 10 {
        dec_digit_str(d as u64)
    } else if d == 10 {
        proof {
            reveal_strlit("a");
        }
        "a"
    } else if d == 11 {
        proof {
            reveal_strlit("b");
        }
        "b"
    } else if d == 12 {
        proof {
            reveal_strlit("c");
        }
        "c"
    } else if d == 13 {
        proof {
            reveal_strlit("d");
        }
        "d"
    } else if d == 14 {
        proof {
            reveal_strlit("e");
        }
        "e"
    } else {
        proof {
            reveal_strlit("f");
        }
        "f"
    }
}

/// Finding a match at `j`, with none earlier, is what `find_seq` returns.
pub proof fn lemma_find_seq_first(h: Seq<char>, n: Seq<char>, j: int)
    requires
        match_at(h, n, j),
        forall|m: int| 0 <= m < j ==> !match_at(h, n, m),
    ensures
        find_seq(h, n) == Some(j),
{
    lemma_find_from_first(h, n, 0, j);
}

proof fn lemma_find_from_first(h: Seq<char>, n: Seq<char>, i: int, j: int)
    requires
        0 <= i <= j,
        match_at(h, n, j),
        forall|m: int| i <= m < j ==> !match_at(h, n, m),
    ensures
        find_from(h, n, i) == Some(j),
    decreases j - i,
{
    if i < j {
        lemma_find_from_first(h, n, i + 1, j);
    }
}

/// Whether `c` is a decimal digit.
pub open spec fn is_dec_digit(c: char) -> bool {
    0x30 <= c as u32 <= 0x39
}

/// The numeric value of a decimal digit character.
pub open spec fn dec_digit_val(c: char) -> int {
    c as u32 - 0x30
}

/// The number denoted by a string of decimal digits.
pub open spec fn digits_val(s: Seq<char>) -> int
    decreases s.len(),
{
    if s.len() == 0 {
        0
    } else {
        digits_val(s.drop_last()) * 10 + dec_digit_val(s.last())
    }
}

/// `dec_str(n)` is a digit string without a leading zero that denotes `n`,
/// and its length follows the magnitude of `n`.
pub proof fn lemma_dec_str_props(n: nat)
    ensures
        dec_str(n).len() >= 1,
        forall|i: int| 0 <= i < dec_str(n).len() ==> is_dec_digit(#[trigger] dec_str(n)[i]),
        digits_val(dec_str(n)) == n,
        n < 10 ==> dec_str(n).len() == 1,
        10 <= n < 100 ==> dec_str(n).len() == 2,
        100 <= n < 1000 ==> dec_str(n).len() == 3,
        n > 0 ==> dec_str(n)[0] != '0',
        n == 0 ==> dec_str(n) =~= seq!['0'],
    decreases n,
{
    if n < 10 {
        assert(dec_str(n) =~= seq![dec_digit_char(n as int)]);
        assert(dec_str(n).drop_last() =~= Seq::<char>::empty());
        assert(digits_val(Seq::<char>::empty()) == 0);
        assert(dec_str(n).last() == dec_digit_char(n as int));
        assert(dec_digit_val(dec_digit_char(n as int)) == n as int);
    } else {
        lemma_dec_str_props(n / 10);
        let s = dec_str(n);
        assert(s =~= dec_str(n / 10).push(dec_digit_char((n % 10) as int)));
        assert(s.drop_last() =~= dec_str(n / 10));
        assert(digits_val(s) == (n / 10) * 10 + n % 10);
        assert((n / 10) * 10 + n % 10 == n) by (nonlinear_arith);
        assert(s[0] == dec_str(n / 10)[0]);
    }
}

/// A digit string denotes a non-negative number; without a leading zero
/// its magnitude matches its length.
pub proof fn lemma_digits_val_bounds(s: Seq<char>)
    requires
        s.len() >= 1,
        forall|i: int| 0 <= i < s.len() ==> is_dec_digit(#[trigger] s[i]),
    ensures
        digits_val(s) >= 0,
        s[0] != '0' ==> digits_val(s) >= 1,
        s.len() == 1 ==> digits_val(s) < 10,
        s.len() >= 2 && s[0] != '0' ==> digits_val(s) >= 10,
    decreases s.len(),
{
    let p = s.drop_last();
    if s.len() == 1 {
        assert(digits_val(p) == 0);
        if s[0] != '0' {
            assert(s.last() == s[0]);
            assert(s[0] as u32 != 0x30) by {
                if s[0] as u32 == 0x30 {
                    vstd::utf8::char_u32_cast(s[0], 0x30);
                    assert(s[0] == '0');
                }
            }
        }
    } else {
        lemma_digits_val_bounds(p);
        assert(p[0] == s[0]);
        assert(dec_digit_val(s.last()) >= 0);
        if s[0] != '0' {
            assert(digits_val(p) >= 1);
            assert(digits_val(p) * 10 >= 10) by (nonlinear_arith)
                requires
                    digits_val(p) >= 1,
            ;
        } else {
            assert(digits_val(p) * 10 >= 0) by (nonlinear_arith)
                requires
                    digits_val(p) >= 0,
            ;
        }
    }
}

/// Two digit strings without leading zeros that denote the same number are
/// the same string.
pub proof fn lemma_digit_str_unique(x: Seq<char>, y: Seq<char>)
    requires
        x.len() >= 1,
        y.len() >= 1,
        forall|i: int| 0 <= i < x.len() ==> is_dec_digit(#[trigger] x[i]),
        forall|i: int| 0 <= i < y.len() ==> is_dec_digit(#[trigger] y[i]),
        x.len() > 1 ==> x[0] != '0',
        y.len() > 1 ==> y[0] != '0',
        digits_val(x) == digits_val(y),
    ensures
        x =~= y,
    decreases x.len(),
{
    lemma_digits_val_bounds(x);
    lemma_digits_val_bounds(y);
    if x.len() == 1 && y.len() == 1 {
        assert(dec_digit_val(x[0]) == dec_digit_val(y[0]));
        assert(x[0] as u32 == y[0] as u32);
        assert(x[0] == y[0]) by {
            vstd::utf8::char_u32_cast(x[0], x[0] as u32);
            vstd::utf8::char_u32_cast(y[0], y[0] as u32);
        }
    } else if x.len() == 1 {
        assert(digits_val(y) >= 10);
        assert(false);
    } else if y.len() == 1 {
        assert(digits_val(x) >= 10);
        assert(false);
    } else {
        let xp = x.drop_last();
        let yp = y.drop_last();
        let v = digits_val(x);
        assert(0 <= dec_digit_val(x.last()) < 10);
        assert(0 <= dec_digit_val(y.last()) < 10);
        lemma_digits_val_bounds(xp);
        lemma_digits_val_bounds(yp);
        assert(digits_val(xp) == v / 10 && dec_digit_val(x.last()) == v % 10) by (nonlinear_arith)
            requires
                v == digits_val(xp) * 10 + dec_digit_val(x.last()),
                0 <= dec_digit_val(x.last()) < 10,
        ;
        assert(digits_val(yp) == v / 10 && dec_digit_val(y.last()) == v % 10) by (nonlinear_arith)
            requires
                v == digits_val(yp) * 10 + dec_digit_val(y.last()),
                0 <= dec_digit_val(y.last()) < 10,
        ;
        assert(x.last() as u32 == y.last() as u32);
        assert(x.last() == y.last()) by {
            vstd::utf8::char_u32_cast(x.last(), x.last() as u32);
            vstd::utf8::char_u32_cast(y.last(), y.last() as u32);
        }
        assert(xp[0] == x[0] && yp[0] == y[0]);
        lemma_digit_str_unique(xp, yp);
        assert(x =~= xp.push(x.last()));
        assert(y =~= yp.push(y.last()));
    }
}

/// Render `n` in lower-case hexadecimal.
pub fn u16_to_hex(n: u16) -> (r: String)
    ensures
        r@ == hex_str(n as nat),
    decreases n,
{
    if n < 16 {
        String::from_str(hex_digit_str(n))
    } else {
        let mut s = u16_to_hex(n / 16);
        s.append(hex_digit_str(n % 16));
        proof {
            assert(s@ =~= hex_str(n as nat));
        }
        s
    }
}

} // verus!
