//! Character-level helpers shared by the unit parser, the netlist
//! serializers and the status-line reader: decimal rendering of integers,
//! the numeric-literal grammar, tokenizing, substring search and
//! replacement, and lexicographic ordering of strings.

use vstd::prelude::*;

verus! {

// ---------------------------------------------------------------------------
// Decimal rendering of integers
// ---------------------------------------------------------------------------

/// The character for one decimal digit value.
pub open spec fn digit_char(d: int) -> char {
    if d == 0 {
        '0'
    } else if d == 1 {
        '1'
    } else if d == 2 {
        '2'
    } else if d == 3 {
        '3'
    } else if d == 4 {
        '4'
    } else if d == 5 {
        '5'
    } else if d == 6 {
        '6'
    } else if d == 7 {
        '7'
    } else if d == 8 {
        '8'
    } else {
        '9'
    }
}

/// Decimal representation of a natural number, most significant digit first.
pub open spec fn dec_rep(n: nat) -> Seq<char>
    decreases n,
{
    if n < 10 {
        seq![digit_char(n as int)]
    } else {
        dec_rep(n / 10) + seq![digit_char((n % 10) as int)]
    }
}

/// Decimal representation of an integer, with a leading minus sign when
/// negative.
pub open spec fn int_rep(i: int) -> Seq<char> {
    if i < 0 {
        seq!['-'] + dec_rep((-i) as nat)
    } else {
        dec_rep(i as nat)
    }
}

fn digit_str(d: u8) -> (r: &'static str)
    requires
        d < 10,
    ensures
        r@ =~= seq![digit_char(d as int)],
{
    proof {
        reveal_strlit("0");
        reveal_strlit("1");
        reveal_strlit("2");
        reveal_strlit("3");
        reveal_strlit("4");
        reveal_strlit("5");
        reveal_strlit("6");
        reveal_strlit("7");
        reveal_strlit("8");
        reveal_strlit("9");
    }
    match d {
        0 => "0",
        1 => "1",
        2 => "2",
        3 => "3",
        4 => "4",
        5 => "5",
        6 => "6",
        7 => "7",
        8 => "8",
        _ => "9",
    }
}

/// Renders an unsigned value in decimal.
pub fn fmt_u64(n: u64) -> (r: String)
    ensures
        r@ == dec_rep(n as nat),
    decreases n,
{
    if n < 10 {
        let s = digit_str(n as u8);
        let r = String::from_str(s);
        assert(r@ =~= dec_rep(n as nat));
        r
    } else {
        let hi = fmt_u64(n / 10);
        let lo = digit_str((n % 10) as u8);
        let r = hi.concat(lo);
        assert(r@ =~= dec_rep(n as nat));
        r
    }
}

/// Renders a signed value in decimal, as `i32`'s standard formatting does.
pub fn fmt_i32(v: i32) -> (r: String)
    ensures
        r@ == int_rep(v as int),
{
    if v >= 0 {
        fmt_u64(v as u64)
    } else {
        let m: u64 = (-(v as i64)) as u64;
        assert(m as nat == (-(v as int)) as nat);
        let minus = String::from_str("-");
        let r = minus.concat(fmt_u64(m).as_str());
        proof {
            reveal_strlit("-");
        }
        assert(r@ =~= int_rep(v as int));
        r
    }
}

/// Renders a signed value in decimal, as `i16`'s standard formatting does.
pub fn fmt_i16(v: i16) -> (r: String)
    ensures
        r@ == int_rep(v as int),
{
    fmt_i32(v as i32)
}

// ---------------------------------------------------------------------------
// The numeric-literal grammar
// ---------------------------------------------------------------------------

pub open spec fn is_digit(c: char) -> bool {
    '0' <= c && c <= '9'
}

/// A non-empty run of decimal digits.
pub open spec fn is_digit_run(s: Seq<char>) -> bool {
    s.len() > 0 && forall|i: int| 0 <= i < s.len() ==> is_digit(#[trigger] s[i])
}

/// Digits with at most one decimal point and at least one digit:
/// the integer-or-fraction part of a numeric literal.
pub open spec fn is_mantissa(s: Seq<char>) -> bool {
    &&& s.len() > 0
    &&& forall|i: int| 0 <= i < s.len() ==> is_digit(#[trigger] s[i]) || s[i] == '.'
    &&& exists|i: int| 0 <= i < s.len() && is_digit(#[trigger] s[i])
    &&& forall|i: int, j: int| 0 <= i < j < s.len() && #[trigger] s[i] == '.' ==> #[trigger] s[j]
        != '.'
}

/// An exponent: an optional sign followed by a non-empty digit run.
pub open spec fn is_exponent(s: Seq<char>) -> bool {
    is_digit_run(s) || (s.len() > 0 && (s[0] == '+' || s[0] == '-') && is_digit_run(s.skip(1)))
}

/// The input with one leading sign character removed, if present.
pub open spec fn strip_sign(s: Seq<char>) -> Seq<char> {
    if s.len() > 0 && (s[0] == '+' || s[0] == '-') {
        s.skip(1)
    } else {
        s
    }
}

/// The numeric-literal grammar for unit magnitudes: an optional sign, a
/// mantissa, and an optional exponent introduced by `e` or `E`.
pub open spec fn is_numeric(s: Seq<char>) -> bool {
    let b = strip_sign(s);
    is_mantissa(b) || exists|i: int|
        0 <= i < b.len() && (#[trigger] b[i] == 'e' || b[i] == 'E') && is_mantissa(b.take(i))
            && is_exponent(b.skip(i + 1))
}

#[verifier::loop_isolation(false)]
fn check_digit_run(s: &str, from: usize, to: usize) -> (b: bool)
    requires
        from <= to <= s@.len(),
    ensures
        b == is_digit_run(s@.subrange(from as int, to as int)),
{
    if from == to {
        return false;
    }
    let mut p: usize = from;
    while p < to
        invariant
            from <= p <= to <= s@.len(),
            forall|i: int| from <= i < p ==> is_digit(#[trigger] s@[i]),
        decreases to - p,
    {
        let c = s.get_char(p);
        if !('0' <= c && c <= '9') {
            assert(!is_digit(s@.subrange(from as int, to as int)[p - from]));
            return false;
        }
        p += 1;
    }
    assert forall|i: int| 0 <= i < to - from implies is_digit(
        #[trigger] s@.subrange(from as int, to as int)[i],
    ) by {
        assert(s@.subrange(from as int, to as int)[i] == s@[from + i]);
    }
    true
}

#[verifier::loop_isolation(false)]
fn check_mantissa(s: &str, from: usize, to: usize) -> (b: bool)
    requires
        from <= to <= s@.len(),
    ensures
        b == is_mantissa(s@.subrange(from as int, to as int)),
{
    let ghost sub = s@.subrange(from as int, to as int);
    if from == to {
        return false;
    }
    let mut p: usize = from;
    let mut seen_digit = false;
    let mut seen_dot = false;
    while p < to
        invariant
            from <= p <= to <= s@.len(),
            forall|i: int| from <= i < p ==> is_digit(#[trigger] s@[i]) || s@[i] == '.',
            seen_digit == exists|i: int| from <= i < p && is_digit(#[trigger] s@[i]),
            seen_dot == exists|i: int| from <= i < p && #[trigger] s@[i] == '.',
            forall|i: int, j: int|
                from <= i < j < p && #[trigger] s@[i] == '.' ==> #[trigger] s@[j] != '.',
        decreases to - p,
    {
        let c = s.get_char(p);
        if c == '.' {
            if seen_dot {
                proof {
                    let i0 = choose|i: int| from <= i < p && #[trigger] s@[i] == '.';
                    assert(sub[i0 - from] == '.' && sub[p - from] == '.');
                }
                return false;
            }
            seen_dot = true;
        } else if '0' <= c && c <= '9' {
            seen_digit = true;
        } else {
            assert(sub[p - from] == s@[p as int]);
            return false;
        }
        p += 1;
    }
    if !seen_digit {
        assert forall|i: int| 0 <= i < sub.len() implies !is_digit(#[trigger] sub[i]) by {
            assert(sub[i] == s@[from + i]);
        }
        return false;
    }
    proof {
        assert forall|i: int| 0 <= i < sub.len() implies is_digit(#[trigger] sub[i]) || sub[i]
            == '.' by {
            assert(sub[i] == s@[from + i]);
        }
        let d0 = choose|i: int| from <= i < to && is_digit(#[trigger] s@[i]);
        assert(is_digit(sub[d0 - from]));
        assert forall|i: int, j: int|
            0 <= i < j < sub.len() && #[trigger] sub[i] == '.' implies #[trigger] sub[j]
            != '.' by {
            assert(sub[i] == s@[from + i] && sub[j] == s@[from + j]);
        }
    }
    true
}

fn check_exponent(s: &str, from: usize, to: usize) -> (b: bool)
    requires
        from <= to <= s@.len(),
    ensures
        b == is_exponent(s@.subrange(from as int, to as int)),
{
    let ghost sub = s@.subrange(from as int, to as int);
    if from == to {
        return false;
    }
    let c = s.get_char(from);
    if c == '+' || c == '-' {
        let b = check_digit_run(s, from + 1, to);
        assert(s@.subrange(from + 1, to as int) =~= sub.skip(1));
        assert(sub[0] == c);
        assert(!is_digit_run(sub));
        b
    } else {
        let b = check_digit_run(s, from, to);
        assert(!(sub[0] == '+' || sub[0] == '-'));
        b
    }
}

#[verifier::loop_isolation(false)]
fn find_exp_marker(s: &str, start: usize) -> (k: usize)
    requires
        start <= s@.len(),
    ensures
        start <= k <= s@.len(),
        forall|j: int| start <= j < k ==> #[trigger] s@[j] != 'e' && s@[j] != 'E',
        k < s@.len() ==> s@[k as int] == 'e' || s@[k as int] == 'E',
{
    let n = s.unicode_len();
    let mut k: usize = start;
    while k < n
        invariant
            start <= k <= n,
            forall|j: int| start <= j < k ==> #[trigger] s@[j] != 'e' && s@[j] != 'E',
        decreases n - k,
    {
        let c = s.get_char(k);
        if c == 'e' || c == 'E' {
            return k;
        }
        k += 1;
    }
    k
}

/// Decides the numeric-literal grammar for a whole string.
pub fn check_numeric(s: &str) -> (b: bool)
    ensures
        b == is_numeric(s@),
{
    let n = s.unicode_len();
    let mut start: usize = 0;
    if n > 0 {
        let c = s.get_char(0);
        if c == '+' || c == '-' {
            start = 1;
        }
    }
    let ghost body = strip_sign(s@);
    proof {
        assert(body =~= s@.subrange(start as int, n as int));
    }
    let k = find_exp_marker(s, start);
    let mant_ok = check_mantissa(s, start, k);
    if k == n {
        // No exponent marker anywhere in the body.
        proof {
            assert(s@.subrange(start as int, k as int) =~= body);
            assert forall|i: int| 0 <= i < body.len() implies !(#[trigger] body[i] == 'e'
                || body[i] == 'E') by {
                assert(body[i] == s@[start + i]);
            }
        }
        mant_ok
    } else {
        let exp_ok = check_exponent(s, k + 1, n);
        let b = mant_ok && exp_ok;
        proof {
            let e: int = k - start;
            assert(body[e] == s@[k as int]);
            assert(body.take(e) =~= s@.subrange(start as int, k as int));
            assert(body.skip(e + 1) =~= s@.subrange(k + 1, n as int));
            // The mantissa part admits no exponent marker, so a split can
            // only happen at the first one.
            assert forall|i: int|
                0 <= i < body.len() && (#[trigger] body[i] == 'e' || body[i] == 'E')
                    && is_mantissa(body.take(i)) && is_exponent(body.skip(i + 1)) implies i
                == e by {
                assert(body[i] == s@[start + i]);
                if i < e {
                    assert(s@[start + i] != 'e' && s@[start + i] != 'E');
                } else if i > e {
                    assert(body.take(i)[e] == body[e]);
                    assert(!(is_digit(body.take(i)[e]) || body.take(i)[e] == '.'));
                }
            }
            if b {
                assert(is_mantissa(body.take(e)) && is_exponent(body.skip(e + 1)));
            }
            assert(body[e] == 'e' || body[e] == 'E');
            assert(!is_mantissa(body));
        }
        b
    }
}

/// Every character of a numeric literal is a digit, a point, a sign, or an
/// exponent marker.
pub proof fn lemma_numeric_chars(s: Seq<char>)
    requires
        is_numeric(s),
    ensures
        forall|i: int|
            0 <= i < s.len() ==> is_digit(#[trigger] s[i]) || s[i] == '.' || s[i] == '+' || s[i]
                == '-' || s[i] == 'e' || s[i] == 'E',
{
    let b = strip_sign(s);
    let off: int = s.len() - b.len();
    assert forall|i: int|
        0 <= i < s.len() implies is_digit(#[trigger] s[i]) || s[i] == '.' || s[i] == '+' || s[i]
        == '-' || s[i] == 'e' || s[i] == 'E' by {
        if i >= off {
            let bi = i - off;
            assert(b[bi] == s[i]);
            if is_mantissa(b) {
            } else {
                let e = choose|e: int|
                    0 <= e < b.len() && (#[trigger] b[e] == 'e' || b[e] == 'E') && is_mantissa(
                        b.take(e),
                    ) && is_exponent(b.skip(e + 1));
                if bi < e {
                    assert(b.take(e)[bi] == b[bi]);
                } else if bi > e {
                    let x = b.skip(e + 1);
                    assert(x[bi - e - 1] == b[bi]);
                    if is_digit_run(x) {
                    } else {
                        if bi - e - 1 > 0 {
                            assert(x.skip(1)[bi - e - 2] == x[bi - e - 1]);
                        }
                    }
                }
            }
        }
    }
}

// ---------------------------------------------------------------------------
// ASCII case folding
// ---------------------------------------------------------------------------

/// ASCII lower-casing of one character; anything but `A`..`Z` is unchanged.
pub open spec fn lower_char(c: char) -> char {
    if c == 'A' {
        'a'
    } else if c == 'B' {
        'b'
    } else if c == 'C' {
        'c'
    } else if c == 'D' {
        'd'
    } else if c == 'E' {
        'e'
    } else if c == 'F' {
        'f'
    } else if c == 'G' {
        'g'
    } else if c == 'H' {
        'h'
    } else if c == 'I' {
        'i'
    } else if c == 'J' {
        'j'
    } else if c == 'K' {
        'k'
    } else if c == 'L' {
        'l'
    } else if c == 'M' {
        'm'
    } else if c == 'N' {
        'n'
    } else if c == 'O' {
        'o'
    } else if c == 'P' {
        'p'
    } else if c == 'Q' {
        'q'
    } else if c == 'R' {
        'r'
    } else if c == 'S' {
        's'
    } else if c == 'T' {
        't'
    } else if c == 'U' {
        'u'
    } else if c == 'V' {
        'v'
    } else if c == 'W' {
        'w'
    } else if c == 'X' {
        'x'
    } else if c == 'Y' {
        'y'
    } else if c == 'Z' {
        'z'
    } else {
        c
    }
}

/// Two strings are equal up to ASCII case.
pub open spec fn ci_matches(a: Seq<char>, b: Seq<char>) -> bool {
    a.len() == b.len() && forall|i: int|
        0 <= i < a.len() ==> lower_char(#[trigger] a[i]) == lower_char(b[i])
}

/// ASCII lower-casing of one character.
pub fn to_lower(c: char) -> (r: char)
    ensures
        r == lower_char(c),
{
    if c == 'A' {
        'a'
    } else if c == 'B' {
        'b'
    } else if c == 'C' {
        'c'
    } else if c == 'D' {
        'd'
    } else if c == 'E' {
        'e'
    } else if c == 'F' {
        'f'
    } else if c == 'G' {
        'g'
    } else if c == 'H' {
        'h'
    } else if c == 'I' {
        'i'
    } else if c == 'J' {
        'j'
    } else if c == 'K' {
        'k'
    } else if c == 'L' {
        'l'
    } else if c == 'M' {
        'm'
    } else if c == 'N' {
        'n'
    } else if c == 'O' {
        'o'
    } else if c == 'P' {
        'p'
    } else if c == 'Q' {
        'q'
    } else if c == 'R' {
        'r'
    } else if c == 'S' {
        's'
    } else if c == 'T' {
        't'
    } else if c == 'U' {
        'u'
    } else if c == 'V' {
        'v'
    } else if c == 'W' {
        'w'
    } else if c == 'X' {
        'x'
    } else if c == 'Y' {
        'y'
    } else if c == 'Z' {
        'z'
    } else {
        c
    }
}

/// Compares two strings for equality up to ASCII case.
#[verifier::loop_isolation(false)]
pub fn eq_ignore_case(a: &str, b: &str) -> (r: bool)
    ensures
        r == ci_matches(a@, b@),
{
    let n = a.unicode_len();
    let m = b.unicode_len();
    if n != m {
        return false;
    }
    let mut i: usize = 0;
    while i < n
        invariant
            0 <= i <= n,
            n == a@.len() == b@.len(),
            forall|j: int| 0 <= j < i ==> lower_char(#[trigger] a@[j]) == lower_char(b@[j]),
        decreases n - i,
    {
        let ca = to_lower(a.get_char(i));
        let cb = to_lower(b.get_char(i));
        if ca != cb {
            return false;
        }
        i += 1;
    }
    true
}

// ---------------------------------------------------------------------------
// Substring search and replacement
// ---------------------------------------------------------------------------

/// The needle occurs somewhere in the haystack.
pub open spec fn contains_seq(h: Seq<char>, n: Seq<char>) -> bool {
    exists|i: int| 0 <= i && i + n.len() <= h.len() && #[trigger] h.subrange(i, i + n.len()) == n
}

#[verifier::loop_isolation(false)]
fn match_at(s: &str, i: usize, pat: &str) -> (b: bool)
    requires
        i + pat@.len() <= s@.len(),
        s@.len() <= usize::MAX,
    ensures
        b == (s@.subrange(i as int, i + pat@.len()) == pat@),
{
    let ghost sub = s@.subrange(i as int, i + pat@.len());
    let m = pat.unicode_len();
    let mut j: usize = 0;
    while j < m
        invariant
            0 <= j <= m,
            forall|k: int| 0 <= k < j ==> #[trigger] s@[i + k] == pat@[k],
        decreases m - j,
    {
        let a = s.get_char(i + j);
        let b = pat.get_char(j);
        if a != b {
            assert(sub[j as int] == s@[i + j]);
            return false;
        }
        j += 1;
    }
    assert(sub =~= pat@) by {
        assert(forall|k: int| 0 <= k < m ==> #[trigger] sub[k] == s@[i + k]);
    }
    true
}

/// Decides whether the needle occurs in the haystack.
#[verifier::loop_isolation(false)]
pub fn contains_str(h: &str, n: &str) -> (r: bool)
    ensures
        r == contains_seq(h@, n@),
{
    let hl = h.unicode_len();
    let nl = n.unicode_len();
    if nl > hl {
        return false;
    }
    if nl == 0 {
        assert(contains_seq(h@, n@)) by {
            assert(h@.subrange(0, 0 + n@.len() as int) =~= n@);
        }
        return true;
    }
    let mut i: usize = 0;
    while i <= hl - nl
        invariant
            0 <= i <= hl - nl + 1,
            forall|k: int| 0 <= k < i ==> #[trigger] h@.subrange(k, k + n@.len()) != n@,
        decreases hl - nl - i + 1,
    {
        if match_at(h, i, n) {
            return true;
        }
        i += 1;
    }
    false
}

/// The haystack with every non-overlapping occurrence of the pattern,
/// found left to right, replaced.
pub open spec fn replace_seq(s: Seq<char>, pat: Seq<char>, rep: Seq<char>) -> Seq<char>
    decreases s.len(),
{
    if pat.len() == 0 || s.len() < pat.len() {
        s
    } else if s.take(pat.len() as int) == pat {
        rep + replace_seq(s.skip(pat.len() as int), pat, rep)
    } else {
        seq![s[0]] + replace_seq(s.skip(1), pat, rep)
    }
}

/// Replaces every non-overlapping occurrence of the pattern, left to right.
#[verifier::loop_isolation(false)]
pub fn replace_all(s: &str, pat: &str, rep: &str) -> (r: String)
    requires
        pat@.len() > 0,
    ensures
        r@ == replace_seq(s@, pat@, rep@),
{
    let n = s.unicode_len();
    let m = pat.unicode_len();
    let mut out = String::new();
    let mut i: usize = 0;
    if m > n {
        let tail = s.substring_char(0, n);
        out.append(tail);
        assert(out@ =~= replace_seq(s@, pat@, rep@));
        return out;
    }
    proof {
        assert(s@.skip(0) =~= s@);
        assert(out@ + replace_seq(s@, pat@, rep@) =~= replace_seq(s@, pat@, rep@));
    }
    while i <= n - m
        invariant
            0 <= i <= n,
            replace_seq(s@, pat@, rep@) == out@ + replace_seq(s@.skip(i as int), pat@, rep@),
        decreases n - i,
    {
        let ghost tail = s@.skip(i as int);
        if match_at(s, i, pat) {
            out.append(rep);
            proof {
                assert(tail.take(m as int) =~= s@.subrange(i as int, i + m));
                assert(tail.skip(m as int) =~= s@.skip(i + m));
            }
            i += m;
        } else {
            let c = s.substring_char(i, i + 1);
            out.append(c);
            proof {
                assert(tail.take(m as int) =~= s@.subrange(i as int, i + m));
                assert(c@ =~= seq![tail[0]]);
                assert(tail.skip(1) =~= s@.skip(i + 1));
            }
            i += 1;
        }
    }
    let tail = s.substring_char(i, n);
    out.append(tail);
    assert(tail@ =~= s@.skip(i as int));
    assert(out@ == replace_seq(s@, pat@, rep@));
    out
}

// ---------------------------------------------------------------------------
// Tokenizing
// ---------------------------------------------------------------------------

/// The whitespace characters that separate fields of a directive.
pub open spec fn is_space(c: char) -> bool {
    c == ' ' || c == '\t' || c == '\n' || c == '\r'
}

/// Length of the whitespace-free run that starts at `i`.
pub open spec fn token_len(s: Seq<char>, i: int) -> nat
    decreases s.len() - i when 0 <= i <= s.len()
{
    if i >= s.len() || is_space(s[i]) {
        0
    } else {
        1 + token_len(s, i + 1)
    }
}

proof fn lemma_token_len_bound(s: Seq<char>, i: int)
    requires
        0 <= i <= s.len(),
    ensures
        token_len(s, i) <= s.len() - i,
    decreases s.len() - i,
{
    if i < s.len() && !is_space(s[i]) {
        lemma_token_len_bound(s, i + 1);
    }
}

/// The whitespace-separated tokens of the input from position `i` on.
pub open spec fn ws_tokens_from(s: Seq<char>, i: int) -> Seq<Seq<char>>
    decreases s.len() - i when 0 <= i <= s.len() via ws_tokens_from_decreases
{
    if i >= s.len() {
        Seq::empty()
    } else if is_space(s[i]) {
        ws_tokens_from(s, i + 1)
    } else {
        seq![s.subrange(i, i + token_len(s, i))] + ws_tokens_from(s, i + token_len(s, i))
    }
}

#[via_fn]
proof fn ws_tokens_from_decreases(s: Seq<char>, i: int) {
    if 0 <= i <= s.len() {
        lemma_token_len_bound(s, i);
    }
}

/// The whitespace-separated tokens of the input.
pub open spec fn ws_tokens(s: Seq<char>) -> Seq<Seq<char>> {
    ws_tokens_from(s, 0)
}

proof fn lemma_token_len_value(s: Seq<char>, i: int, j: int)
    requires
        0 <= i <= j <= s.len(),
        forall|k: int| i <= k < j ==> !is_space(#[trigger] s[k]),
        j == s.len() || is_space(s[j]),
    ensures
        token_len(s, i) == j - i,
    decreases j - i,
{
    if i < j {
        lemma_token_len_value(s, i + 1, j);
    }
}

/// Splits on whitespace, dropping empty fields, as directive attribute
/// lists are read.
#[verifier::loop_isolation(false)]
pub fn split_ws(s: &str) -> (r: Vec<String>)
    ensures
        r@.map_values(|t: String| t@) == ws_tokens(s@),
{
    let n = s.unicode_len();
    let mut r: Vec<String> = Vec::new();
    let mut i: usize = 0;
    proof {
        assert(r@.map_values(|t: String| t@) + ws_tokens_from(s@, 0) =~= ws_tokens(s@));
    }
    while i < n
        invariant
            0 <= i <= n,
            r@.map_values(|t: String| t@) + ws_tokens_from(s@, i as int) == ws_tokens(s@),
        decreases n - i,
    {
        let c = s.get_char(i);
        if c == ' ' || c == '\t' || c == '\n' || c == '\r' {
            i += 1;
        } else {
            let mut j: usize = i + 1;
            while j < n
                invariant
                    i < j <= n,
                    forall|k: int| i <= k < j ==> !is_space(#[trigger] s@[k]),
                decreases n - j,
            {
                let c2 = s.get_char(j);
                if c2 == ' ' || c2 == '\t' || c2 == '\n' || c2 == '\r' {
                    break ;
                }
                j += 1;
            }
            proof {
                if j < s@.len() && !is_space(s@[j as int]) {
                    assert(false);  // the scan only stops at the end or at whitespace
                }
                lemma_token_len_value(s@, i as int, j as int);
            }
            let t = s.substring_char(i, j);
            let ghost old_r = r@;
            r.push(String::from_str(t));
            proof {
                assert(r@.map_values(|t: String| t@) =~= old_r.map_values(|t: String| t@).push(
                    t@,
                ));
                assert(old_r.map_values(|t: String| t@).push(t@) + ws_tokens_from(s@, j as int)
                    =~= old_r.map_values(|t: String| t@) + ws_tokens_from(s@, i as int));
            }
            i = j;
        }
    }
    r
}

// ---------------------------------------------------------------------------
// Splitting on one character
// ---------------------------------------------------------------------------

/// Length of the run without the separator that starts at `i`.
pub open spec fn seg_len(s: Seq<char>, i: int, c: char) -> nat
    decreases s.len() - i when 0 <= i <= s.len()
{
    if i >= s.len() || s[i] == c {
        0
    } else {
        1 + seg_len(s, i + 1, c)
    }
}

proof fn lemma_seg_len_bound(s: Seq<char>, i: int, c: char)
    requires
        0 <= i <= s.len(),
    ensures
        seg_len(s, i, c) <= s.len() - i,
    decreases s.len() - i,
{
    if i < s.len() && s[i] != c {
        lemma_seg_len_bound(s, i + 1, c);
    }
}

/// The fields of the input from position `i` on, split on the separator;
/// empty fields are kept, so there is always at least one field.
pub open spec fn split_fields_from(s: Seq<char>, i: int, c: char) -> Seq<Seq<char>>
    decreases s.len() - i when 0 <= i <= s.len() via split_fields_from_decreases
{
    let l = seg_len(s, i, c) as int;
    if i + l >= s.len() {
        seq![s.subrange(i, i + l)]
    } else {
        seq![s.subrange(i, i + l)] + split_fields_from(s, i + l + 1, c)
    }
}

#[via_fn]
proof fn split_fields_from_decreases(s: Seq<char>, i: int, c: char) {
    if 0 <= i <= s.len() {
        lemma_seg_len_bound(s, i, c);
    }
}

/// The fields of the input, split on the separator.
pub open spec fn split_fields(s: Seq<char>, c: char) -> Seq<Seq<char>> {
    split_fields_from(s, 0, c)
}

pub proof fn lemma_seg_len_value(s: Seq<char>, i: int, j: int, c: char)
    requires
        0 <= i <= j <= s.len(),
        forall|k: int| i <= k < j ==> #[trigger] s[k] != c,
        j == s.len() || s[j] == c,
    ensures
        seg_len(s, i, c) == j - i,
    decreases j - i,
{
    if i < j {
        lemma_seg_len_value(s, i + 1, j, c);
    }
}

#[verifier::loop_isolation(false)]
fn scan_char(s: &str, from: usize, c: char) -> (j: usize)
    requires
        from <= s@.len(),
    ensures
        from <= j <= s@.len(),
        forall|k: int| from <= k < j ==> #[trigger] s@[k] != c,
        j < s@.len() ==> s@[j as int] == c,
{
    let n = s.unicode_len();
    let mut j: usize = from;
    while j < n
        invariant
            from <= j <= n,
            forall|k: int| from <= k < j ==> #[trigger] s@[k] != c,
        decreases n - j,
    {
        if s.get_char(j) == c {
            return j;
        }
        j += 1;
    }
    j
}

/// Splits on one separator character, keeping empty fields.
pub fn split_char(s: &str, c: char) -> (r: Vec<String>)
    ensures
        r@.map_values(|t: String| t@) == split_fields(s@, c),
        r@.len() >= 1,
{
    let n = s.unicode_len();
    let mut r: Vec<String> = Vec::new();
    let mut i: usize = 0;
    while true
        invariant_except_break
            0 <= i <= n == s@.len(),
            r@.map_values(|t: String| t@) + split_fields_from(s@, i as int, c) == split_fields(
                s@,
                c,
            ),
        ensures
            r@.map_values(|t: String| t@) == split_fields(s@, c),
            r@.len() >= 1,
        decreases n - i + 1,
    {
        proof {
            if i == 0 {
                assert(r@.map_values(|t: String| t@) + split_fields_from(s@, 0, c) =~= split_fields(
                    s@,
                    c,
                ));
            }
        }
        let j = scan_char(s, i, c);
        proof {
            lemma_seg_len_value(s@, i as int, j as int, c);
        }
        let t = s.substring_char(i, j);
        let ghost old_r = r@;
        r.push(String::from_str(t));
        proof {
            assert(r@.map_values(|t: String| t@) =~= old_r.map_values(|t: String| t@).push(t@));
        }
        if j == n {
            proof {
                assert(old_r.map_values(|t: String| t@).push(t@) =~= old_r.map_values(
                    |t: String| t@,
                ) + split_fields_from(s@, i as int, c));
            }
            break ;
        }
        proof {
            assert(old_r.map_values(|t: String| t@).push(t@) + split_fields_from(s@, j + 1, c)
                =~= old_r.map_values(|t: String| t@) + split_fields_from(s@, i as int, c));
        }
        i = j + 1;
    }
    r
}

/// The first position of a character, if it occurs.
#[verifier::loop_isolation(false)]
pub fn find_char(s: &str, c: char) -> (r: Option<usize>)
    ensures
        match r {
            Some(k) => k < s@.len() && s@[k as int] == c && forall|j: int|
                0 <= j < k ==> #[trigger] s@[j] != c,
            None => forall|j: int| 0 <= j < s@.len() ==> #[trigger] s@[j] != c,
        },
{
    let n = s.unicode_len();
    let mut i: usize = 0;
    while i < n
        invariant
            0 <= i <= n,
            forall|j: int| 0 <= j < i ==> #[trigger] s@[j] != c,
        decreases n - i,
    {
        if s.get_char(i) == c {
            return Some(i);
        }
        i += 1;
    }
    None
}

/// The lines of a text: fields split on the newline character, a trailing
/// final newline producing no extra empty line.
pub open spec fn lines_of(s: Seq<char>) -> Seq<Seq<char>> {
    if s.len() == 0 {
        Seq::empty()
    } else if s.last() == '\n' {
        split_fields(s.take(s.len() - 1), '\n')
    } else {
        split_fields(s, '\n')
    }
}

/// Splits a text into lines.
pub fn split_lines(s: &str) -> (r: Vec<String>)
    ensures
        r@.map_values(|t: String| t@) == lines_of(s@),
{
    let n = s.unicode_len();
    if n == 0 {
        let r: Vec<String> = Vec::new();
        assert(r@.map_values(|t: String| t@) =~= lines_of(s@));
        return r;
    }
    if s.get_char(n - 1) == '\n' {
        let body = s.substring_char(0, n - 1);
        assert(body@ =~= s@.take(s@.len() - 1));
        split_char(body, '\n')
    } else {
        split_char(s, '\n')
    }
}

// ---------------------------------------------------------------------------
// Reading integers
// ---------------------------------------------------------------------------

/// Numeric value of a digit run, most significant digit first.
pub open spec fn digits_val(s: Seq<char>) -> nat
    decreases s.len(),
{
    if s.len() == 0 {
        0
    } else {
        digits_val(s.drop_last()) * 10 + (if is_digit(s.last()) {
            (s.last() as nat - 48) as nat
        } else {
            0
        })
    }
}

/// An integer literal: an optional sign and a non-empty digit run.
pub open spec fn is_int_literal(s: Seq<char>) -> bool {
    is_digit_run(s) || (s.len() > 0 && (s[0] == '+' || s[0] == '-') && is_digit_run(s.skip(1)))
}

/// The signed value of an integer literal.
pub open spec fn int_literal_val(s: Seq<char>) -> int {
    if s.len() > 0 && s[0] == '-' {
        -(digits_val(s.skip(1)) as int)
    } else if s.len() > 0 && s[0] == '+' {
        digits_val(s.skip(1)) as int
    } else {
        digits_val(s) as int
    }
}

proof fn lemma_digits_val_grow(s: Seq<char>, k: int, bound: int)
    requires
        0 <= k <= s.len(),
        0 <= bound,
        digits_val(s.take(k)) > bound,
    ensures
        digits_val(s) > bound,
    decreases s.len() - k,
{
    if k < s.len() {
        assert(s.take(k + 1).drop_last() =~= s.take(k));
        assert(digits_val(s.take(k + 1)) >= digits_val(s.take(k)) * 10);
        lemma_digits_val_grow(s, k + 1, bound);
    } else {
        assert(s.take(k) =~= s);
    }
}

/// Reads a signed 32-bit integer literal: an optional sign, then digits;
/// values outside the type's range are rejected.
#[verifier::loop_isolation(false)]
pub fn parse_i32(s: &str) -> (r: Option<i32>)
    ensures
        match r {
            Some(v) => is_int_literal(s@) && v as int == int_literal_val(s@),
            None => !is_int_literal(s@) || int_literal_val(s@) < i32::MIN || int_literal_val(s@)
                > i32::MAX,
        },
{
    let n = s.unicode_len();
    if n == 0 {
        return None;
    }
    let first = s.get_char(0);
    let neg = first == '-';
    let start: usize = if first == '-' || first == '+' {
        1
    } else {
        0
    };
    let ghost digits = s@.skip(start as int);
    if n == start {
        assert(!is_digit_run(digits));
        return None;
    }
    let mut acc: u64 = 0;
    let mut over = false;
    let mut i: usize = start;
    while i < n
        invariant
            start <= i <= n,
            forall|k: int| start <= k < i ==> is_digit(#[trigger] s@[k]),
            !over ==> acc == digits_val(s@.subrange(start as int, i as int)) && acc
                <= 0x8000_0000u64,
            over ==> digits_val(s@.subrange(start as int, i as int)) > 0x8000_0000,
        decreases n - i,
    {
        let c = s.get_char(i);
        if !('0' <= c && c <= '9') {
            assert(digits[i - start] == s@[i as int]);
            assert(!is_digit_run(digits) && !is_digit_run(s@));
            return None;
        }
        let d: u64 = (c as u32 as u64) - 48;
        proof {
            assert(s@.subrange(start as int, i + 1).drop_last() =~= s@.subrange(
                start as int,
                i as int,
            ));
        }
        if !over {
            let next = acc * 10 + d;
            if next > 0x8000_0000 {
                over = true;
            } else {
                acc = next;
            }
            proof {
                let pre = s@.subrange(start as int, i + 1);
                assert(digits_val(pre) == digits_val(pre.drop_last()) * 10 + (pre.last() as nat
                    - 48));
            }
        } else {
            proof {
                let pre = s@.subrange(start as int, i + 1);
                assert(digits_val(pre) >= digits_val(pre.drop_last()) * 10);
            }
        }
        i += 1;
    }
    proof {
        assert(digits =~= s@.subrange(start as int, n as int));
        assert forall|k: int| 0 <= k < digits.len() implies is_digit(#[trigger] digits[k]) by {
            assert(digits[k] == s@[start + k]);
        }
        assert(is_digit_run(digits));
        if start == 1 {
            assert(s@.skip(1) == digits);
        } else {
            assert(digits =~= s@);
            if s@[0] == '+' || s@[0] == '-' {
                assert(!is_digit(s@[0]));
            }
        }
    }
    if over {
        proof {
            assert(digits.take(digits.len() as int) =~= s@.subrange(start as int, n as int));
            lemma_digits_val_grow(digits, digits.len() as int, 0x8000_0000);
        }
        return None;
    }
    assert(acc == digits_val(digits));
    if neg {
        let v: i64 = -(acc as i64);
        if v < -0x8000_0000i64 {
            return None;
        }
        Some(v as i32)
    } else {
        if acc > 0x7FFF_FFFF {
            return None;
        }
        Some(acc as i32)
    }
}

/// Reads a signed 16-bit integer literal.
pub fn parse_i16(s: &str) -> (r: Option<i16>)
    ensures
        match r {
            Some(v) => is_int_literal(s@) && v as int == int_literal_val(s@),
            None => !is_int_literal(s@) || int_literal_val(s@) < i16::MIN || int_literal_val(s@)
                > i16::MAX,
        },
{
    match parse_i32(s) {
        Some(v) => {
            if -0x8000 <= v && v <= 0x7FFF {
                Some(v as i16)
            } else {
                None
            }
        },
        None => None,
    }
}

/// Compares two strings for character-wise equality.
#[verifier::loop_isolation(false)]
pub fn str_eq(a: &str, b: &str) -> (r: bool)
    ensures
        r == (a@ == b@),
{
    let n = a.unicode_len();
    let m = b.unicode_len();
    if n != m {
        return false;
    }
    let mut i: usize = 0;
    while i < n
        invariant
            0 <= i <= n,
            n == a@.len() == b@.len(),
            forall|j: int| 0 <= j < i ==> #[trigger] a@[j] == b@[j],
        decreases n - i,
    {
        if a.get_char(i) != b.get_char(i) {
            return false;
        }
        i += 1;
    }
    proof {
        assert(a@ =~= b@);
    }
    true
}

// ---------------------------------------------------------------------------
// Lexicographic ordering
// ---------------------------------------------------------------------------

/// Lexicographic order on character sequences, by code point, as the
/// standard ordering on strings compares.
pub open spec fn seq_char_le(a: Seq<char>, b: Seq<char>) -> bool
    decreases a.len(),
{
    if a.len() == 0 {
        true
    } else if b.len() == 0 {
        false
    } else if a[0] == b[0] {
        seq_char_le(a.skip(1), b.skip(1))
    } else {
        (a[0] as u32) < (b[0] as u32)
    }
}

/// Compares two strings in lexicographic order.
#[verifier::loop_isolation(false)]
pub fn str_le(a: &str, b: &str) -> (r: bool)
    ensures
        r == seq_char_le(a@, b@),
{
    let n = a.unicode_len();
    let m = b.unicode_len();
    let mut i: usize = 0;
    proof {
        assert(a@.skip(0) =~= a@);
        assert(b@.skip(0) =~= b@);
    }
    while i < n && i < m
        invariant
            0 <= i <= n,
            0 <= i <= m,
            forall|j: int| 0 <= j < i ==> #[trigger] a@[j] == b@[j],
            seq_char_le(a@, b@) == seq_char_le(a@.skip(i as int), b@.skip(i as int)),
        decreases n - i,
    {
        let ca = a.get_char(i);
        let cb = b.get_char(i);
        proof {
            assert(a@.skip(i as int)[0] == ca && b@.skip(i as int)[0] == cb);
            assert(a@.skip(i as int).skip(1) =~= a@.skip(i + 1));
            assert(b@.skip(i as int).skip(1) =~= b@.skip(i + 1));
        }
        if ca != cb {
            return (ca as u32) < (cb as u32);
        }
        i += 1;
    }
    proof {
        if i == n {
            assert(a@.skip(i as int).len() == 0);
        } else {
            assert(b@.skip(i as int).len() == 0 && a@.skip(i as int).len() > 0);
        }
    }
    n <= m
}

/// A numeric literal ends in a digit or a decimal point.
pub proof fn lemma_numeric_last(s: Seq<char>)
    requires
        is_numeric(s),
    ensures
        s.len() > 0,
        is_digit(s.last()) || s.last() == '.',
{
    let b = strip_sign(s);
    if is_mantissa(b) {
        assert(s.last() == b.last());
    } else {
        let e = choose|e: int|
            0 <= e < b.len() && (#[trigger] b[e] == 'e' || b[e] == 'E') && is_mantissa(b.take(e))
                && is_exponent(b.skip(e + 1));
        let x = b.skip(e + 1);
        assert(x.len() > 0);
        assert(s.last() == b.last() && b.last() == x.last());
        if is_digit_run(x) {
            assert(is_digit(x[x.len() - 1]));
        } else {
            assert(x.skip(1)[x.len() - 2] == x[x.len() - 1]);
            assert(is_digit(x.last()));
        }
    }
}

} // verus!
