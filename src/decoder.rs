//! The string-unpacking scheme that the download mirrors embed in their pages.
use vstd::prelude::*;

use crate::text::{chars_of, decimal, decimal_of, string_of};

verus! {

/// Value of a digit character in radices up to 36; 36 for any other character.
pub open spec fn digit_value(c: char) -> nat {
    if '0' <= c <= '9' {
        (c as u32 - '0' as u32) as nat
    } else if 'a' <= c <= 'z' {
        (c as u32 - 'a' as u32 + 10) as nat
    } else if 'A' <= c <= 'Z' {
        (c as u32 - 'A' as u32 + 10) as nat
    } else {
        36
    }
}

pub open spec fn all_digits(s: Seq<char>, radix: nat) -> bool {
    forall|i: int| 0 <= i < s.len() ==> #[trigger] digit_value(s[i]) < radix
}

/// The number that the digits spell, most significant first.
pub open spec fn digits_value(s: Seq<char>, radix: nat) -> nat
    decreases s.len(),
{
    if s.len() == 0 {
        0
    } else {
        digits_value(s.drop_last(), radix) * radix + digit_value(s.last())
    }
}

/// The digits of an unsigned number: one leading `+` may precede them.
pub open spec fn unsigned_digits(s: Seq<char>) -> Seq<char> {
    if s.len() > 0 && s[0] == '+' {
        s.drop_first()
    } else {
        s
    }
}

/// An unsigned number no greater than `max`, written in the given radix: none for
/// an empty text, a character that is no digit of the radix, or a value over `max`.
pub open spec fn radix_value(s: Seq<char>, radix: nat, max: nat) -> Option<nat> {
    let d = unsigned_digits(s);
    if d.len() == 0 || !all_digits(d, radix) || digits_value(d, radix) > max {
        None
    } else {
        Some(digits_value(d, radix))
    }
}

/// An unsigned 32-bit number written in the given radix, as `u32::from_str_radix`
/// reads it.
pub open spec fn parse_radix(s: Seq<char>, radix: nat) -> Option<nat> {
    radix_value(s, radix, u32::MAX as nat)
}

/// `s` with every occurrence of `c` replaced by `r`.
pub open spec fn replaced(s: Seq<char>, c: char, r: Seq<char>) -> Seq<char>
    decreases s.len(),
{
    if s.len() == 0 {
        s
    } else {
        replaced(s.drop_last(), c, r) + if s.last() == c {
            r
        } else {
            seq![s.last()]
        }
    }
}

/// `s` after replacing, for each `j < k` in turn, every `n[j]` by the decimal
/// representation of `j`.
pub open spec fn substituted(s: Seq<char>, n: Seq<char>, k: nat) -> Seq<char>
    decreases k,
{
    if k == 0 || k > n.len() {
        s
    } else {
        replaced(substituted(s, n, (k - 1) as nat), n[k - 1], decimal((k - 1) as nat))
    }
}

/// A code that `char::from_u32` accepts.
pub open spec fn is_scalar_value(code: int) -> bool {
    0 <= code < 0xD800 || 0xE000 <= code <= 0x10FFFF
}

/// The character with the given code.
pub open spec fn code_char(code: u32) -> char {
    code as char
}

/// The code point that one segment stands for: its digits after substitution,
/// read in radix `e`, less `t`.
pub open spec fn segment_code(seg: Seq<char>, n: Seq<char>, t: u32, e: nat) -> Option<u32> {
    match parse_radix(substituted(seg, n, n.len()), e) {
        Some(v) => if v >= t && is_scalar_value(v - t) {
            Some((v - t) as u32)
        } else {
            None
        },
        None => None,
    }
}

/// The text that the rest of the input unpacks to: `seg` holds the characters read since
/// the last delimiter, and every segment must be closed by `delim`.
pub open spec fn decode_from(
    h: Seq<char>,
    seg: Seq<char>,
    delim: char,
    n: Seq<char>,
    t: u32,
    e: nat,
) -> Option<Seq<char>>
    decreases h.len(),
{
    if h.len() == 0 {
        if seg.len() == 0 {
            Some(seq![])
        } else {
            None
        }
    } else if h[0] == delim {
        match segment_code(seg, n, t, e) {
            Some(c) => match decode_from(h.drop_first(), seq![], delim, n, t, e) {
                Some(rest) => Some(seq![code_char(c)] + rest),
                None => None,
            },
            None => None,
        }
    } else {
        decode_from(h.drop_first(), seg.push(h[0]), delim, n, t, e)
    }
}

/// The text that `h` unpacks to, with `n[e]` as delimiter and `e` as
/// radix; none where it cannot be unpacked.
pub open spec fn decoded(h: Seq<char>, n: Seq<char>, t: u32, e: nat) -> Option<Seq<char>> {
    if h.len() == 0 {
        Some(seq![])
    } else if e >= n.len() || e < 2 || e > 36 {
        None
    } else {
        decode_from(h, seq![], n[e as int], n, t, e)
    }
}

pub open spec fn prefixed(p: Seq<char>, rest: Option<Seq<char>>) -> Option<Seq<char>> {
    match rest {
        Some(r) => Some(p + r),
        None => None,
    }
}

/// Relies on char::from_u32: a character exactly for a Unicode scalar value,
/// and then the one with that code.
#[verifier::external_body]
fn char_from_code(code: u32) -> (r: Option<char>)
    ensures
        r is Some <==> is_scalar_value(code as int),
        r matches Some(c) ==> c as u32 == code && c == code_char(code),
{
    char::from_u32(code)
}

fn digit_of(c: char) -> (r: u32)
    ensures
        r == digit_value(c),
{
    if '0' <= c && c <= '9' {
        c as u32 - '0' as u32
    } else if 'a' <= c && c <= 'z' {
        c as u32 - 'a' as u32 + 10
    } else if 'A' <= c && c <= 'Z' {
        c as u32 - 'A' as u32 + 10
    } else {
        36
    }
}

proof fn lemma_prefix_value_le(s: Seq<char>, radix: nat, i: int)
    requires
        radix >= 1,
        0 <= i <= s.len(),
    ensures
        digits_value(s.subrange(0, i), radix) <= digits_value(s, radix),
    decreases s.len(),
{
    if i == s.len() {
        assert(s.subrange(0, i) =~= s);
    } else {
        let p = s.drop_last();
        assert(p.subrange(0, i) =~= s.subrange(0, i));
        lemma_prefix_value_le(p, radix, i);
        let v = digits_value(p, radix);
        assert(v * radix >= v) by (nonlinear_arith)
            requires
                radix >= 1,
        ;
    }
}

/// Reads an unsigned number in the given radix, as `usize::from_str_radix` does.
pub fn parse_radix_usize(s: &Vec<char>, radix: u32) -> (r: Option<usize>)
    requires
        2 <= radix <= 36,
    ensures
        match radix_value(s@, radix as nat, usize::MAX as nat) {
            Some(v) => r == Some(v as usize),
            None => r is None,
        },
{
    let start: usize = if s.len() > 0 && s[0] == '+' {
        1
    } else {
        0
    };
    let ghost d = unsigned_digits(s@);
    assert(d =~= s@.subrange(start as int, s@.len() as int));
    if start == s.len() {
        return None;
    }
    let mut acc: u128 = 0;
    let mut i: usize = start;
    while i < s.len()
        invariant
            start <= i <= s@.len(),
            2 <= radix <= 36,
            d == s@.subrange(start as int, s@.len() as int),
            d == unsigned_digits(s@),
            all_digits(d.subrange(0, i - start), radix as nat),
            acc == digits_value(d.subrange(0, i - start), radix as nat),
            acc <= usize::MAX,
        decreases s@.len() - i,
    {
        let k: Ghost<int> = Ghost(i - start);
        assert(d.subrange(0, k@ + 1).drop_last() =~= d.subrange(0, k@));
        assert(d[k@] == s@[i as int]);
        let dv = digit_of(s[i]);
        if dv >= radix {
            assert(digit_value(d[k@]) >= radix);
            assert(!all_digits(d, radix as nat));
            return None;
        }
        assert(acc * radix <= usize::MAX * 36) by (nonlinear_arith)
            requires
                acc <= usize::MAX,
                radix <= 36,
        ;
        assert(usize::MAX * 36 + 36 < 0x1_0000_0000_0000_0000_0000_0000_0000_0000);
        acc = acc * radix as u128 + dv as u128;
        assert(d.subrange(0, k@ + 1).last() == d[k@]);
        assert(acc == digits_value(d.subrange(0, k@ + 1), radix as nat));
        assert(all_digits(d.subrange(0, k@ + 1), radix as nat));
        i += 1;
        if acc > usize::MAX as u128 {
            proof {
                if all_digits(d, radix as nat) {
                    lemma_prefix_value_le(d, radix as nat, k@ + 1);
                }
            }
            return None;
        }
    }
    assert(d.subrange(0, i - start) =~= d);
    Some(acc as usize)
}

/// Reads an unsigned 32-bit number in the given radix, as `u32::from_str_radix` does.
pub fn parse_radix_u32(s: &Vec<char>, radix: u32) -> (r: Option<u32>)
    requires
        2 <= radix <= 36,
    ensures
        match parse_radix(s@, radix as nat) {
            Some(v) => r == Some(v as u32),
            None => r is None,
        },
{
    match parse_radix_usize(s, radix) {
        Some(v) => if v <= u32::MAX as usize {
            Some(v as u32)
        } else {
            None
        },
        None => None,
    }
}

fn replace_all(s: &Vec<char>, c: char, r: &Vec<char>) -> (out: Vec<char>)
    ensures
        out@ == replaced(s@, c, r@),
{
    let mut out: Vec<char> = Vec::new();
    let mut i: usize = 0;
    while i < s.len()
        invariant
            i <= s@.len(),
            out@ == replaced(s@.subrange(0, i as int), c, r@),
        decreases s@.len() - i,
    {
        assert(s@.subrange(0, i + 1).drop_last() =~= s@.subrange(0, i as int));
        let ghost before = out@;
        if s[i] == c {
            let mut k: usize = 0;
            while k < r.len()
                invariant
                    k <= r@.len(),
                    out@ == before + r@.subrange(0, k as int),
                decreases r@.len() - k,
            {
                out.push(r[k]);
                k += 1;
                assert(out@ =~= before + r@.subrange(0, k as int));
            }
            assert(r@.subrange(0, r@.len() as int) =~= r@);
        } else {
            out.push(s[i]);
        }
        i += 1;
    }
    assert(s@.subrange(0, s@.len() as int) =~= s@);
    out
}

fn segment_char(seg: &Vec<char>, n: &Vec<char>, t: u32, e: u32) -> (r: Option<char>)
    requires
        2 <= e <= 36,
    ensures
        match segment_code(seg@, n@, t, e as nat) {
            Some(code) => r matches Some(c) && c as u32 == code && c == code_char(code),
            None => r is None,
        },
{
    let mut s: Vec<char> = seg.clone();
    assert(s@ =~= seg@);
    let mut j: usize = 0;
    while j < n.len()
        invariant
            j <= n@.len(),
            s@ == substituted(seg@, n@, j as nat),
        decreases n@.len() - j,
    {
        let digits = decimal_of(j);
        s = replace_all(&s, n[j], &digits);
        j += 1;
    }
    match parse_radix_u32(&s, e) {
        Some(v) => if v >= t {
            let r = char_from_code(v - t);
            r
        } else {
            None
        },
        None => None,
    }
}

/// Unpacks `h`: its segments, each closed by the character `n[e]`, become one
/// character each, whose code is the segment, with every `n[j]` written as `j`,
/// read in radix `e`, less `t`. `_u` and `_r` take no part. `None` where a
/// segment is not closed, `e` is no valid radix or index into `n`, or a segment
/// gives no character.
pub fn decode(h: &str, _u: usize, n: &str, t: u32, e: usize, _r: usize) -> (r: Option<String>)
    ensures
        match decoded(h@, n@, t, e as nat) {
            Some(t) => r matches Some(s) && s@ == t,
            None => r is None,
        },
{
    let hs = chars_of(h);
    let ns = chars_of(n);
    if hs.len() == 0 {
        return Some(string_of(&Vec::new()));
    }
    if e >= ns.len() || e < 2 || e > 36 {
        return None;
    }
    let delim = ns[e];
    let mut out: Vec<char> = Vec::new();
        let mut seg: Vec<char> = Vec::new();
    let mut i: usize = 0;
    assert(hs@.skip(0) =~= hs@);
    while i < hs.len()
        invariant
            i <= hs@.len(),
            hs@ == h@,
            ns@ == n@,
            hs@.len() > 0,
            2 <= e <= 36,
            e < ns@.len(),
            delim == ns@[e as int],
            decode_from(hs@, seq![], delim, ns@, t, e as nat) == prefixed(
                out@,
                decode_from(hs@.skip(i as int), seg@, delim, ns@, t, e as nat),
            ),
        decreases hs@.len() - i,
    {
        let ghost rest = hs@.skip(i as int);
        assert(rest.drop_first() =~= hs@.skip(i + 1));
        assert(rest[0] == hs@[i as int]);
        if hs[i] == delim {
            match segment_char(&seg, &ns, t, e as u32) {
                Some(c) => {
                    let ghost tail = decode_from(hs@.skip(i + 1), seq![], delim, ns@, t, e as nat);
                    let ghost before = out@;
                    proof {
                        if let Some(tl) = tail {
                            assert(before + (seq![c] + tl) =~= before.push(c) + tl);
                        }
                    }
                    out.push(c);
                    seg = Vec::new();
                },
                None => {
                    assert(segment_code(seg@, ns@, t, e as nat) is None);
                    assert(decode_from(rest, seg@, delim, ns@, t, e as nat) is None);
                    return None;
                },
            }
        } else {
            seg.push(hs[i]);
        }
        i += 1;
    }
    if seg.len() > 0 {
        return None;
    }
    assert(out@ + seq![] =~= out@);
    Some(string_of(&out))
}

} // verus!
