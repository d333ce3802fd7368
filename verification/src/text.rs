//! Character-level helpers: string equality, splitting on a separator
//! character, joining segments back, and decimal numerals for `u32`.
//!
//! The splitting/joining pair and the numeral pair each come with the
//! round-trip lemmas that the coordinate text format is proved with.

use vstd::prelude::*;

verus! {

/// Character-by-character string equality, stated over the views.
pub fn str_eq(a: &str, b: &str) -> (r: bool)
    ensures
        r == (a@ == b@),
{
    let alen = a.unicode_len();
    let blen = b.unicode_len();
    if alen != blen {
        return false;
    }
    let mut i: usize = 0;
    while i < alen
        invariant
            alen == a@.len(),
            alen == b@.len(),
            i <= alen,
            forall|k: int| 0 <= k < i ==> a@[k] == b@[k],
        decreases alen - i,
    {
        if a.get_char(i) != b.get_char(i) {
            return false;
        }
        i = i + 1;
    }
    proof {
        assert(a@ =~= b@);
    }
    true
}

// ---------------------------------------------------------------------------
// Splitting on a separator character
// ---------------------------------------------------------------------------

/// Index of the first occurrence of `sep` in `s`, or `s.len()` if absent.
pub open spec fn find_sep(s: Seq<char>, sep: char) -> nat
    decreases s.len(),
{
    if s.len() == 0 {
        0
    } else if s[0] == sep {
        0
    } else {
        1 + find_sep(s.drop_first(), sep)
    }
}

pub proof fn lemma_find_sep(s: Seq<char>, sep: char)
    ensures
        find_sep(s, sep) <= s.len(),
        forall|k: int| 0 <= k < find_sep(s, sep) ==> s[k] != sep,
        find_sep(s, sep) < s.len() ==> s[find_sep(s, sep) as int] == sep,
    decreases s.len(),
{
    if s.len() > 0 && s[0] != sep {
        lemma_find_sep(s.drop_first(), sep);
        assert forall|k: int| 0 <= k < find_sep(s, sep) implies s[k] != sep by {
            if k > 0 {
                assert(s.drop_first()[k - 1] != sep);
            }
        }
    }
}

/// `find_sep` is pinned down by its characteristic properties.
pub proof fn lemma_find_sep_is(s: Seq<char>, sep: char, j: int)
    requires
        0 <= j <= s.len(),
        forall|k: int| 0 <= k < j ==> s[k] != sep,
        j < s.len() ==> s[j] == sep,
    ensures
        find_sep(s, sep) == j,
    decreases s.len(),
{
    if s.len() > 0 && s[0] != sep {
        assert(j > 0);
        lemma_find_sep_is(s.drop_first(), sep, j - 1);
    }
}

/// The segments of `s` between occurrences of `sep`; always non-empty.
pub open spec fn split_on(s: Seq<char>, sep: char) -> Seq<Seq<char>>
    decreases s.len(),
{
    let i = find_sep(s, sep);
    if i >= s.len() {
        seq![s]
    } else {
        seq![s.take(i as int)] + split_on(s.skip(i as int + 1), sep)
    }
}

pub open spec fn join_with(parts: Seq<Seq<char>>, sep: char) -> Seq<char>
    decreases parts.len(),
{
    if parts.len() == 0 {
        Seq::empty()
    } else if parts.len() == 1 {
        parts[0]
    } else {
        parts[0] + seq![sep] + join_with(parts.drop_first(), sep)
    }
}

/// Joining the split segments reproduces the original text.
pub proof fn lemma_join_split(s: Seq<char>, sep: char)
    ensures
        join_with(split_on(s, sep), sep) == s,
    decreases s.len(),
{
    lemma_find_sep(s, sep);
    let i = find_sep(s, sep) as int;
    if i < s.len() {
        let rest = split_on(s.skip(i + 1), sep);
        assert(rest.len() >= 1);
        let parts = seq![s.take(i)] + rest;
        assert(parts.len() >= 2);
        assert(parts[0] == s.take(i));
        assert(parts.drop_first() =~= rest);
        lemma_join_split(s.skip(i + 1), sep);
        assert(s.take(i) + seq![sep] + s.skip(i + 1) =~= s);
    }
}

/// A text without the separator splits into itself alone.
pub proof fn lemma_split_whole(s: Seq<char>, sep: char)
    requires
        forall|k: int| 0 <= k < s.len() ==> s[k] != sep,
    ensures
        split_on(s, sep) == seq![s],
{
    lemma_find_sep_is(s, sep, s.len() as int);
}

/// Splitting a separator-free head, a separator, and a tail peels off the head.
pub proof fn lemma_split_prepend(a: Seq<char>, rest: Seq<char>, sep: char)
    requires
        forall|k: int| 0 <= k < a.len() ==> a[k] != sep,
    ensures
        split_on(a + seq![sep] + rest, sep) == seq![a] + split_on(rest, sep),
{
    let s = a + seq![sep] + rest;
    assert forall|k: int| 0 <= k < a.len() implies s[k] != sep by {
        assert(s[k] == a[k]);
    }
    assert(s[a.len() as int] == sep);
    lemma_find_sep_is(s, sep, a.len() as int);
    assert(s.take(a.len() as int) =~= a);
    assert(s.skip(a.len() as int + 1) =~= rest);
}

/// No segment of a split contains the separator.
pub proof fn lemma_split_segments(s: Seq<char>, sep: char)
    ensures
        split_on(s, sep).len() >= 1,
        forall|i: int, k: int|
            0 <= i < split_on(s, sep).len() && 0 <= k < split_on(s, sep)[i].len()
                ==> #[trigger] split_on(s, sep)[i][k] != sep,
    decreases s.len(),
{
    lemma_find_sep(s, sep);
    let f = find_sep(s, sep) as int;
    let parts = split_on(s, sep);
    if f >= s.len() {
        assert forall|i: int, k: int|
            0 <= i < parts.len() && 0 <= k < parts[i].len() implies #[trigger] parts[i][k]
            != sep by {
            assert(parts[i] == s);
        }
    } else {
        lemma_split_segments(s.skip(f + 1), sep);
        let rest = split_on(s.skip(f + 1), sep);
        assert forall|i: int, k: int|
            0 <= i < parts.len() && 0 <= k < parts[i].len() implies #[trigger] parts[i][k]
            != sep by {
            if i == 0 {
                assert(parts[0] == s.take(f));
                assert(s.take(f)[k] == s[k]);
            } else {
                assert(parts[i] == rest[i - 1]);
                assert(rest[i - 1][k] != sep);
            }
        }
    }
}

/// Exec splitting, pinned to `split_on` over the views.
pub fn split_char(s: &str, sep: char) -> (r: Vec<String>)
    ensures
        r.deep_view() == split_on(s@, sep),
{
    let len = s.unicode_len();
    let mut parts: Vec<String> = Vec::new();
    proof {
        assert(s@.skip(0) =~= s@);
        assert(parts.deep_view() =~= Seq::<Seq<char>>::empty());
    }
    let mut start: usize = 0;
    let mut i: usize = 0;
    while i < len
        invariant
            len == s@.len(),
            start <= i <= len,
            forall|k: int| start <= k < i ==> s@[k] != sep,
            split_on(s@, sep) =~= parts.deep_view() + split_on(s@.skip(start as int), sep),
        decreases len - i,
    {
        if s.get_char(i) == sep {
            let seg = s.substring_char(start, i).to_owned();
            proof {
                let suffix = s@.skip(start as int);
                assert forall|k: int| 0 <= k < i - start implies suffix[k] != sep by {
                    assert(suffix[k] == s@[start + k]);
                }
                assert(suffix[i - start] == sep);
                lemma_find_sep_is(suffix, sep, i - start);
                assert(suffix.take(i - start) =~= s@.subrange(start as int, i as int));
                assert(suffix.skip(i - start + 1) =~= s@.skip(i as int + 1));
                assert(split_on(suffix, sep) == seq![seg@] + split_on(s@.skip(i as int + 1), sep));
            }
            let ghost old_parts = parts.deep_view();
            parts.push(seg);
            proof {
                assert(parts.deep_view() =~= old_parts + seq![seg@]);
            }
            start = i + 1;
        }
        i = i + 1;
    }
    let seg = s.substring_char(start, len).to_owned();
    proof {
        let suffix = s@.skip(start as int);
        assert forall|k: int| 0 <= k < suffix.len() implies suffix[k] != sep by {
            assert(suffix[k] == s@[start + k]);
        }
        lemma_split_whole(suffix, sep);
        assert(suffix =~= s@.subrange(start as int, len as int));
    }
    let ghost old_parts = parts.deep_view();
    parts.push(seg);
    proof {
        assert(parts.deep_view() =~= old_parts + seq![seg@]);
    }
    parts
}

// ---------------------------------------------------------------------------
// Decimal numerals
// ---------------------------------------------------------------------------

pub open spec fn is_digit(c: char) -> bool {
    '0' <= c <= '9'
}

pub open spec fn all_digits(s: Seq<char>) -> bool {
    forall|k: int| 0 <= k < s.len() ==> is_digit(#[trigger] s[k])
}

pub open spec fn digit_val(c: char) -> nat {
    ((c as int) - 48) as nat
}

pub open spec fn digit_char(d: nat) -> char {
    ((d + 48) as u8) as char
}

/// Numeric value of a digit string, most significant digit first.
pub open spec fn dec_val(s: Seq<char>) -> nat
    decreases s.len(),
{
    if s.len() == 0 {
        0
    } else {
        dec_val(s.drop_last()) * 10 + digit_val(s.last())
    }
}

/// Canonical decimal digits of `n` (no sign, no leading zeros).
pub open spec fn dec_digits(n: nat) -> Seq<char>
    decreases n,
{
    if n < 10 {
        seq![digit_char(n)]
    } else {
        dec_digits(n / 10) + seq![digit_char(n % 10)]
    }
}

/// The digits of a numeral, after any single leading `+` sign.
pub open spec fn dec_body(s: Seq<char>) -> Seq<char> {
    if s.len() > 0 && s[0] == '+' {
        s.drop_first()
    } else {
        s
    }
}

/// What `u32` parsing accepts: an optional leading `+`, then one or more
/// decimal digits, whose value fits.
pub open spec fn parse_u32_spec(s: Seq<char>) -> Option<u32> {
    if dec_body(s).len() > 0 && all_digits(dec_body(s)) && dec_val(dec_body(s)) <= u32::MAX {
        Some(dec_val(dec_body(s)) as u32)
    } else {
        None
    }
}

pub open spec fn pow10(k: nat) -> nat
    decreases k,
{
    if k == 0 {
        1
    } else {
        10 * pow10((k - 1) as nat)
    }
}

proof fn lemma_pow10_mono(a: nat, b: nat)
    requires
        a <= b,
    ensures
        pow10(a) <= pow10(b),
    decreases b,
{
    if a < b {
        lemma_pow10_mono(a, (b - 1) as nat);
        assert(pow10((b - 1) as nat) >= 1) by {
            lemma_pow10_mono(0, (b - 1) as nat);
        }
    }
}

proof fn lemma_dec_val_drop_zero(s: Seq<char>)
    requires
        s.len() > 0,
        s[0] == '0',
    ensures
        dec_val(s) == dec_val(s.drop_first()),
    decreases s.len(),
{
    if s.len() == 1 {
        assert(s.drop_last() =~= Seq::<char>::empty());
        assert(s.drop_first() =~= Seq::<char>::empty());
        assert(digit_val('0') == 0);
    } else {
        lemma_dec_val_drop_zero(s.drop_last());
        assert(s.drop_last().drop_first() =~= s.drop_first().drop_last());
        assert(s.drop_first().last() == s.last());
    }
}

proof fn lemma_dec_val_leading_zeros(s: Seq<char>, z: int)
    requires
        0 <= z <= s.len(),
        forall|k: int| 0 <= k < z ==> s[k] == '0',
    ensures
        dec_val(s) == dec_val(s.skip(z)),
    decreases z,
{
    if z > 0 {
        lemma_dec_val_drop_zero(s);
        lemma_dec_val_leading_zeros(s.drop_first(), z - 1);
        assert(s.drop_first().skip(z - 1) =~= s.skip(z));
    } else {
        assert(s.skip(0) =~= s);
    }
}

/// A digit string with a non-zero leading digit is at least `pow10(len - 1)`.
proof fn lemma_dec_val_lower(s: Seq<char>)
    requires
        s.len() > 0,
        all_digits(s),
        s[0] != '0',
    ensures
        dec_val(s) >= pow10((s.len() - 1) as nat),
    decreases s.len(),
{
    if s.len() == 1 {
        assert(is_digit(s[0]));
        assert(digit_val(s[0]) >= 1);
    } else {
        lemma_dec_val_lower(s.drop_last());
        assert(dec_val(s.drop_last()) * 10 >= pow10((s.len() - 2) as nat) * 10);
    }
}

/// The canonical digits of `n` are digits and evaluate back to `n`.
pub proof fn lemma_dec_digits(n: nat)
    ensures
        dec_digits(n).len() >= 1,
        all_digits(dec_digits(n)),
        dec_val(dec_digits(n)) == n,
    decreases n,
{
    if n < 10 {
        let c = digit_char(n);
        assert(is_digit(c));
        assert(dec_digits(n) =~= seq![c]);
        assert(dec_digits(n).drop_last() =~= Seq::<char>::empty());
        reveal_with_fuel(dec_val, 2);
        assert(dec_val(seq![c]) == digit_val(c));
        assert(digit_val(c) == n);
    } else {
        lemma_dec_digits(n / 10);
        let pre = dec_digits(n / 10);
        let c = digit_char(n % 10);
        assert(n % 10 < 10);
        assert(is_digit(c));
        let whole = pre + seq![c];
        assert(whole.drop_last() =~= pre);
        assert(whole.last() == c);
        assert(digit_val(c) == n % 10);
        assert(dec_val(whole) == (n / 10) * 10 + n % 10);
        assert(n == (n / 10) * 10 + n % 10) by (nonlinear_arith);
        assert forall|k: int| 0 <= k < whole.len() implies is_digit(#[trigger] whole[k]) by {
            if k < pre.len() {
                assert(whole[k] == pre[k]);
            }
        }
    }
}

/// Parsing the canonical digits of a `u32` yields the number back.
pub proof fn lemma_parse_dec_digits(n: u32)
    ensures
        parse_u32_spec(dec_digits(n as nat)) == Some(n),
{
    lemma_dec_digits(n as nat);
    let s = dec_digits(n as nat);
    assert(is_digit(s[0]));
    assert(s[0] != '+');
}

/// Canonical decimal text of `n`.
pub fn format_u32(n: u32) -> (r: String)
    ensures
        r@ == dec_digits(n as nat),
    decreases n,
{
    if n < 10 {
        digit_string(n)
    } else {
        let mut s = format_u32(n / 10);
        let d = digit_string(n % 10);
        s.append(d.as_str());
        proof {
            assert(n as nat / 10 == (n / 10) as nat);
            assert(n as nat % 10 == (n % 10) as nat);
        }
        s
    }
}

fn digit_string(d: u32) -> (r: String)
    requires
        d < 10,
    ensures
        r@ == seq![digit_char(d as nat)],
{
    let s: &str = match d {
        0 => {
            proof {
                reveal_strlit("0");
            }
            "0"
        },
        1 => {
            proof {
                reveal_strlit("1");
            }
            "1"
        },
        2 => {
            proof {
                reveal_strlit("2");
            }
            "2"
        },
        3 => {
            proof {
                reveal_strlit("3");
            }
            "3"
        },
        4 => {
            proof {
                reveal_strlit("4");
            }
            "4"
        },
        5 => {
            proof {
                reveal_strlit("5");
            }
            "5"
        },
        6 => {
            proof {
                reveal_strlit("6");
            }
            "6"
        },
        7 => {
            proof {
                reveal_strlit("7");
            }
            "7"
        },
        8 => {
            proof {
                reveal_strlit("8");
            }
            "8"
        },
        _ => {
            proof {
                reveal_strlit("9");
            }
            "9"
        },
    };
    proof {
        assert(s@ =~= seq![digit_char(d as nat)]);
    }
    s.to_owned()
}

/// Exec `u32` parsing, pinned to `parse_u32_spec`.
pub fn parse_u32(s: &str) -> (r: Option<u32>)
    ensures
        r == parse_u32_spec(s@),
{
    let len = s.unicode_len();
    let off: usize = if len > 0 && s.get_char(0) == '+' {
        1
    } else {
        0
    };
    let ghost body = dec_body(s@);
    proof {
        assert(body =~= s@.skip(off as int));
    }
    if len == off {
        return None;
    }
    // every remaining character must be a digit
    let mut i: usize = off;
    while i < len
        invariant
            len == s@.len(),
            off <= i <= len,
            body == dec_body(s@),
            body == s@.skip(off as int),
            forall|k: int| off <= k < i ==> is_digit(#[trigger] s@[k]),
        decreases len - i,
    {
        let c = s.get_char(i);
        if c < '0' || c > '9' {
            proof {
                assert(body[i - off] == s@[i as int]);
                assert(!is_digit(s@[i as int]));
            }
            return None;
        }
        i = i + 1;
    }
    proof {
        assert forall|k: int| 0 <= k < body.len() implies is_digit(#[trigger] body[k]) by {
            assert(body[k] == s@[k + off]);
        }
    }
    // skip leading zeros
    let mut z: usize = off;
    while z < len && s.get_char(z) == '0'
        invariant
            len == s@.len(),
            off <= z <= len,
            forall|k: int| off <= k < z ==> s@[k] == '0',
        decreases len - z,
    {
        z = z + 1;
    }
    proof {
        assert forall|k: int| 0 <= k < z - off implies body[k] == '0' by {
            assert(body[k] == s@[k + off]);
        }
        lemma_dec_val_leading_zeros(body, z - off);
        assert(body.skip(z - off) =~= s@.skip(z as int));
    }
    let ghost sig = s@.skip(z as int);
    if len - z > 10 {
        proof {
            assert(z < len);
            assert(sig[0] == s@[z as int]);
            assert(sig[0] != '0');
            assert forall|k: int| 0 <= k < sig.len() implies is_digit(#[trigger] sig[k]) by {
                assert(sig[k] == s@[k + z]);
            }
            lemma_dec_val_lower(sig);
            lemma_pow10_mono(10, (sig.len() - 1) as nat);
            reveal_with_fuel(pow10, 11);
            assert(pow10(10) == 10000000000);
        }
        return None;
    }
    let mut acc: u64 = 0;
    let mut j: usize = z;
    while j < len
        invariant
            len == s@.len(),
            z <= j <= len,
            len - z <= 10,
            sig == s@.skip(z as int),
            forall|k: int| off <= k < len && k >= z ==> is_digit(#[trigger] s@[k]),
            off <= z,
            acc as nat == dec_val(sig.take(j - z)),
            (acc as nat) < pow10((j - z) as nat),
        decreases len - j,
    {
        let c = s.get_char(j);
        proof {
            assert(is_digit(s@[j as int]));
            assert(pow10(((j - z) + 1) as nat) == 10 * pow10((j - z) as nat));
            lemma_pow10_mono(((j - z) + 1) as nat, 10);
            reveal_with_fuel(pow10, 11);
            assert(pow10(10) == 10000000000);
        }
        let d: u64 = (c as u32 as u64) - 48;
        acc = acc * 10 + d;
        proof {
            let t = sig.take(j - z + 1);
            assert(t.drop_last() =~= sig.take(j - z));
            assert(t.last() == s@[j as int]);
            assert(digit_val(s@[j as int]) == d as nat);
        }
        j = j + 1;
    }
    proof {
        assert(sig.take(len - z) =~= sig);
        assert(dec_val(body) == acc as nat);
    }
    if acc <= 0xFFFF_FFFF {
        Some(acc as u32)
    } else {
        None
    }
}

} // verus!
