//! Character-level helpers shared by the dashboard: conversions between
//! strings and character vectors, and decimal formatting and parsing of
//! unsigned integers.

use vstd::prelude::*;

verus! {

/// A single character digit for a value below ten.
pub open spec fn digit_char(d: int) -> char {
    if d == 0 {
        '0'
    } else if d == 1 {
        '1'
    } else if d == 2 {
        '2'
    } else if d == 3 {
        '3'
    } else if d == 4 {
        '4'
    } else if d == 5 {
        '5'
    } else if d == 6 {
        '6'
    } else if d == 7 {
        '7'
    } else if d == 8 {
        '8'
    } else {
        '9'
    }
}

/// Decimal digit characters.
pub open spec fn is_dec_digit(c: char) -> bool {
    '0' as u32 <= c as u32 && c as u32 <= '9' as u32
}

/// Numeric value of a decimal digit character.
pub open spec fn digit_val(c: char) -> int {
    c as u32 - '0' as u32
}

/// Every character of `s` is a decimal digit.
pub open spec fn all_dec_digits(s: Seq<char>) -> bool {
    forall|i: int| 0 <= i < s.len() ==> is_dec_digit(#[trigger] s[i])
}

/// Value of a sequence of decimal digit characters, most significant first.
pub open spec fn dec_val(s: Seq<char>) -> int
    decreases s.len(),
{
    if s.len() == 0 {
        0
    } else {
        dec_val(s.drop_last()) * 10 + digit_val(s.last())
    }
}

/// Decimal representation of a non-negative integer, without padding.
pub open spec fn dec_str(n: int) -> Seq<char>
    decreases n,
{
    if n < 10 {
        seq![digit_char(n)]
    } else {
        dec_str(n / 10).push(digit_char(n % 10))
    }
}

/// The value of a digit sequence is never negative.
pub proof fn lemma_dec_val_nonneg(s: Seq<char>)
    requires
        all_dec_digits(s),
    ensures
        dec_val(s) >= 0,
    decreases s.len(),
{
    if s.len() > 0 {
        assert(all_dec_digits(s.drop_last()));
        lemma_dec_val_nonneg(s.drop_last());
    }
}

/// The decimal representation of `n` evaluates back to `n`.
pub proof fn lemma_dec_str_val(n: int)
    requires
        n >= 0,
    ensures
        all_dec_digits(dec_str(n)),
        dec_val(dec_str(n)) == n,
        dec_str(n).len() >= 1,
    decreases n,
{
    if n < 10 {
        assert(dec_val(dec_str(n)) == dec_val(seq![digit_char(n)]));
        assert(dec_val(seq![digit_char(n)].drop_last()) == 0);
    } else {
        lemma_dec_str_val(n / 10);
        let s = dec_str(n / 10).push(digit_char(n % 10));
        assert(s.drop_last() =~= dec_str(n / 10));
        assert(s.last() == digit_char(n % 10));
        assert(digit_val(digit_char(n % 10)) == n % 10);
    }
}

/// Digit character for `d`, matching `digit_char`.
pub fn digit_char_exec(d: u8) -> (c: char)
    requires
        d < 10,
    ensures
        c == digit_char(d as int),
{
    match d {
        0 => '0',
        1 => '1',
        2 => '2',
        3 => '3',
        4 => '4',
        5 => '5',
        6 => '6',
        7 => '7',
        8 => '8',
        _ => '9',
    }
}

/// Relies on String::push: appends the given character to the end of the string.
#[verifier::external_body]
pub(crate) fn push_char(s: &mut String, c: char)
    ensures
        final(s)@ == old(s)@.push(c),
{
    s.push(c);
}

/// Collects the characters of a string slice into a vector.
pub fn string_to_chars(s: &str) -> (v: Vec<char>)
    ensures
        v@ == s@,
{
    let n = s.unicode_len();
    let mut v: Vec<char> = Vec::new();
    let mut i: usize = 0;
    while i < n
        invariant
            i <= n,
            n == s@.len(),
            v@ == s@.subrange(0, i as int),
        decreases n - i,
    {
        let c = s.get_char(i);
        v.push(c);
        assert(v@ =~= s@.subrange(0, i + 1 as int));
        i = i + 1;
    }
    assert(v@ =~= s@);
    v
}

/// Builds a string holding exactly the characters of `v`.
pub fn chars_to_string(v: &Vec<char>) -> (s: String)
    ensures
        s@ == v@,
{
    let mut s = String::new();
    let mut i: usize = 0;
    while i < v.len()
        invariant
            i <= v@.len(),
            s@ == v@.subrange(0, i as int),
        decreases v@.len() - i,
    {
        push_char(&mut s, v[i]);
        assert(s@ =~= v@.subrange(0, i + 1 as int));
        i = i + 1;
    }
    assert(s@ =~= v@);
    s
}

/// Decimal rendering of `n`, without padding or sign: digits that evaluate
/// back to `n`.
pub fn usize_to_string(n: usize) -> (s: String)
    ensures
        s@ == dec_str(n as int),
        all_dec_digits(s@),
        dec_val(s@) == n,
{
    proof {
        lemma_dec_str_val(n as int);
    }
    let mut digits: Vec<char> = Vec::new();
    let mut m = n;
    loop
        invariant_except_break
            dec_str(n as int) =~= dec_str(m as int) + digits@.reverse(),
        ensures
            dec_str(n as int) =~= digits@.reverse(),
        decreases m,
    {
        let d = (m % 10) as u8;
        let rest = m / 10;
        proof {
            let pre = digits@;
            let post = pre.push(digit_char(d as int));
            assert(post.reverse() =~= seq![digit_char(d as int)] + pre.reverse());
            if m >= 10 {
                assert(dec_str(m as int) == dec_str(m as int / 10).push(digit_char(m as int % 10)));
                assert(dec_str(m as int / 10).push(digit_char(m as int % 10)) + pre.reverse()
                    =~= dec_str(rest as int) + post.reverse());
                assert(dec_str(n as int) =~= dec_str(rest as int) + post.reverse());
            } else {
                assert(dec_str(m as int) =~= seq![digit_char(m as int)]);
                assert(dec_str(m as int) + pre.reverse() =~= post.reverse());
                assert(dec_str(n as int) =~= post.reverse());
            }
        }
        digits.push(digit_char_exec(d));
        if rest == 0 {
            break;
        }
        m = rest;
    }
    let mut out: Vec<char> = Vec::new();
    let mut i = digits.len();
    while i > 0
        invariant
            i <= digits@.len(),
            out@.len() == digits@.len() - i,
            forall|j: int| 0 <= j < out@.len() ==> out@[j] == digits@[digits@.len() - 1 - j],
        decreases i,
    {
        i = i - 1;
        out.push(digits[i]);
    }
    proof {
        assert(out@ =~= digits@.reverse());
        assert(dec_str(n as int) =~= Seq::<char>::empty() + digits@.reverse());
        assert(Seq::<char>::empty() + digits@.reverse() =~= digits@.reverse());
    }
    chars_to_string(&out)
}

/// ASCII letters mapped to lower case, all else unchanged.
pub open spec fn ascii_lower(c: char) -> char {
    if 'A' as u32 <= c as u32 && c as u32 <= 'Z' as u32 {
        (c as u32 + 32) as char
    } else {
        c
    }
}

/// `s` with every ASCII letter lowered.
pub open spec fn lower_seq(s: Seq<char>) -> Seq<char> {
    s.map_values(|c: char| ascii_lower(c))
}

/// Relies on char::to_ascii_lowercase: ASCII upper-case letters map to lower
/// case, every other character comes back unchanged.
#[verifier::external_body]
pub(crate) fn to_ascii_lower(c: char) -> (r: char)
    ensures
        r == ascii_lower(c),
{
    c.to_ascii_lowercase()
}

/// `v` with every ASCII letter lowered.
pub fn lowercase_chars(v: &Vec<char>) -> (r: Vec<char>)
    ensures
        r@ == lower_seq(v@),
{
    let mut r: Vec<char> = Vec::new();
    let mut i: usize = 0;
    while i < v.len()
        invariant
            i <= v@.len(),
            r@ == lower_seq(v@.subrange(0, i as int)),
        decreases v@.len() - i,
    {
        r.push(to_ascii_lower(v[i]));
        proof {
            assert(r@ =~= lower_seq(v@.subrange(0, i + 1)));
        }
        i = i + 1;
    }
    proof {
        assert(v@.subrange(0, v@.len() as int) =~= v@);
    }
    r
}

/// Character-for-character equality of a vector with a string slice.
pub fn chars_eq_str(v: &Vec<char>, s: &str) -> (r: bool)
    ensures
        r == (v@ == s@),
{
    let n = s.unicode_len();
    if v.len() != n {
        proof {
            assert(v@ != s@) by {
                if v@ == s@ {
                    assert(v@.len() == s@.len());
                }
            }
        }
        return false;
    }
    let mut i: usize = 0;
    while i < n
        invariant
            i <= n,
            n == s@.len(),
            v@.len() == n,
            forall|j: int| 0 <= j < i ==> v@[j] == s@[j],
        decreases n - i,
    {
        if v[i] != s.get_char(i) {
            proof {
                assert(v@ != s@) by {
                    if v@ == s@ {
                        assert(v@[i as int] == s@[i as int]);
                    }
                }
            }
            return false;
        }
        i = i + 1;
    }
    proof {
        assert(v@ =~= s@);
    }
    true
}

/// Whitespace characters recognised when isolating a result line.
pub open spec fn is_ws(c: char) -> bool {
    c == ' ' || c == '\t' || c == '\n' || c == '\r'
}

/// `s` without its trailing whitespace.
pub open spec fn trim_end_ws(s: Seq<char>) -> Seq<char>
    decreases s.len(),
{
    if s.len() > 0 && is_ws(s.last()) {
        trim_end_ws(s.drop_last())
    } else {
        s
    }
}

/// `s` without its leading whitespace.
pub open spec fn trim_start_ws(s: Seq<char>) -> Seq<char>
    decreases s.len(),
{
    if s.len() > 0 && is_ws(s[0]) {
        trim_start_ws(s.skip(1))
    } else {
        s
    }
}

/// The suffix of `s` after its final newline (all of `s` if it has none).
pub open spec fn last_line(s: Seq<char>) -> Seq<char>
    decreases s.len(),
{
    if s.len() == 0 {
        s
    } else if s.last() == '\n' {
        Seq::<char>::empty()
    } else {
        last_line(s.drop_last()).push(s.last())
    }
}

/// `s` without one leading plus sign.
pub open spec fn strip_plus(s: Seq<char>) -> Seq<char> {
    if s.len() > 0 && s[0] == '+' {
        s.skip(1)
    } else {
        s
    }
}

/// Whitespace test matching `is_ws`.
pub fn is_ws_exec(c: char) -> (r: bool)
    ensures
        r == is_ws(c),
{
    c == ' ' || c == '\t' || c == '\n' || c == '\r'
}

/// End of `v[0..to]` once trailing whitespace is dropped.
pub fn trim_end_idx(v: &Vec<char>, to: usize) -> (e: usize)
    requires
        to <= v@.len(),
    ensures
        e <= to,
        v@.subrange(0, e as int) == trim_end_ws(v@.subrange(0, to as int)),
{
    let mut e = to;
    while e > 0 && is_ws_exec(v[e - 1])
        invariant
            e <= to,
            to <= v@.len(),
            trim_end_ws(v@.subrange(0, to as int)) == trim_end_ws(v@.subrange(0, e as int)),
        decreases e,
    {
        proof {
            let s = v@.subrange(0, e as int);
            assert(s.last() == v@[e - 1]);
            assert(s.drop_last() =~= v@.subrange(0, e - 1));
        }
        e = e - 1;
    }
    proof {
        let s = v@.subrange(0, e as int);
        if e > 0 {
            assert(s.last() == v@[e - 1]);
        }
        assert(trim_end_ws(s) == s);
    }
    e
}

/// Start of the last line of `v[0..to]`.
pub fn line_start_idx(v: &Vec<char>, to: usize) -> (s: usize)
    requires
        to <= v@.len(),
    ensures
        s <= to,
        v@.subrange(s as int, to as int) == last_line(v@.subrange(0, to as int)),
{
    let mut s = to;
    while s > 0 && v[s - 1] != '\n'
        invariant
            s <= to,
            to <= v@.len(),
            last_line(v@.subrange(0, to as int)) == last_line(v@.subrange(0, s as int))
                + v@.subrange(s as int, to as int),
        decreases s,
    {
        proof {
            let p = v@.subrange(0, s as int);
            assert(p.last() == v@[s - 1]);
            assert(p.drop_last() =~= v@.subrange(0, s - 1));
            assert(last_line(p) == last_line(v@.subrange(0, s - 1)).push(v@[s - 1]));
            assert(last_line(v@.subrange(0, s - 1)).push(v@[s - 1]) + v@.subrange(s as int, to as int)
                =~= last_line(v@.subrange(0, s - 1)) + v@.subrange(s - 1, to as int));
        }
        s = s - 1;
    }
    proof {
        let p = v@.subrange(0, s as int);
        if s > 0 {
            assert(p.last() == v@[s - 1]);
            assert(last_line(p) == Seq::<char>::empty());
        }
        assert(last_line(p) + v@.subrange(s as int, to as int) =~= v@.subrange(s as int, to as int));
    }
    s
}

/// Start of `v[from..to]` once leading whitespace is dropped.
pub fn trim_start_idx(v: &Vec<char>, from: usize, to: usize) -> (s: usize)
    requires
        from <= to,
        to <= v@.len(),
    ensures
        from <= s <= to,
        v@.subrange(s as int, to as int) == trim_start_ws(v@.subrange(from as int, to as int)),
{
    let mut s = from;
    while s < to && is_ws_exec(v[s])
        invariant
            from <= s <= to,
            to <= v@.len(),
            trim_start_ws(v@.subrange(from as int, to as int)) == trim_start_ws(
                v@.subrange(s as int, to as int),
            ),
        decreases to - s,
    {
        proof {
            let p = v@.subrange(s as int, to as int);
            assert(p[0] == v@[s as int]);
            assert(p.skip(1) =~= v@.subrange(s + 1, to as int));
        }
        s = s + 1;
    }
    proof {
        let p = v@.subrange(s as int, to as int);
        assert(trim_start_ws(p) == p);
    }
    s
}

/// A digit sequence is worth at least any of its prefixes.
pub proof fn lemma_dec_val_prefix_le(s: Seq<char>, k: int)
    requires
        all_dec_digits(s),
        0 <= k <= s.len(),
    ensures
        dec_val(s.subrange(0, k)) <= dec_val(s),
    decreases s.len() - k,
{
    if k < s.len() {
        let p = s.subrange(0, k + 1);
        assert(p.drop_last() =~= s.subrange(0, k));
        assert(p.last() == s[k]);
        assert(all_dec_digits(s.subrange(0, k))) by {
            assert(forall|i: int|
                0 <= i < k ==> #[trigger] s.subrange(0, k)[i] == s[i]);
        }
        lemma_dec_val_nonneg(s.subrange(0, k));
        lemma_dec_val_prefix_le(s, k + 1);
    } else {
        assert(s.subrange(0, k) =~= s);
    }
}

/// Decimal parse of `v[from..to]`, accepting one optional leading plus sign.
/// Returns the value exactly when the digits form a number that fits `usize`.
pub fn parse_usize_chars(v: &Vec<char>, from: usize, to: usize) -> (r: Option<usize>)
    requires
        from <= to,
        to <= v@.len(),
    ensures
        ({
            let digits = strip_plus(v@.subrange(from as int, to as int));
            &&& (r is Some <==> digits.len() > 0 && all_dec_digits(digits) && dec_val(digits)
                <= usize::MAX)
            &&& (r is Some ==> r->0 == dec_val(digits))
        }),
{
    let ghost full = v@.subrange(from as int, to as int);
    let mut i = from;
    if i < to && v[i] == '+' {
        i = i + 1;
    }
    let ghost digits = v@.subrange(i as int, to as int);
    proof {
        assert(digits =~= strip_plus(full));
    }
    if i == to {
        return None;
    }
    let ghost start = i as int;
    let mut acc: usize = 0;
    while i < to
        invariant
            0 <= from <= start <= i <= to,
            to <= v@.len(),
            digits == v@.subrange(start, to as int),
            digits == strip_plus(v@.subrange(from as int, to as int)),
            all_dec_digits(v@.subrange(start, i as int)),
            acc == dec_val(v@.subrange(start, i as int)),
        decreases to - i,
    {
        let c = v[i];
        let cu = c as u32;
        if cu < '0' as u32 || cu > '9' as u32 {
            proof {
                assert(digits[i - start] == c);
                assert(!is_dec_digit(c));
            }
            return None;
        }
        let d = (cu - '0' as u32) as usize;
        proof {
            let pre = v@.subrange(start, i as int);
            let post = v@.subrange(start, i + 1);
            assert(post.drop_last() =~= pre);
            assert(post.last() == c);
            assert(dec_val(post) == acc * 10 + d);
            vstd::arithmetic::div_mod::lemma_fundamental_div_mod((usize::MAX - d) as int, 10);
        }
        if acc > (usize::MAX - d) / 10 {
            proof {
                let post = v@.subrange(start, i + 1);
                assert(dec_val(post) > usize::MAX);
                if all_dec_digits(digits) {
                    assert(digits.subrange(0, i + 1 - start) =~= post);
                    lemma_dec_val_prefix_le(digits, i + 1 - start);
                }
            }
            return None;
        }
        proof {
            assert(acc * 10 + d <= usize::MAX);
        }
        acc = acc * 10 + d;
        i = i + 1;
        proof {
            assert(all_dec_digits(v@.subrange(start, i as int)));
        }
    }
    proof {
        assert(v@.subrange(start, i as int) =~= digits);
        assert(digits.len() > 0);
    }
    Some(acc)
}

} // verus!
