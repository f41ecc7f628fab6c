//! The persistence format of a token: one JSON object,
//! `{"access_token":"…","token_type":"…","expires_in":N,"refresh_token":"…","created_at":N}`.
//!
//! The reader takes this layout only: the five members in this order, no whitespace
//! between tokens, integers of at most 19 digits. Inside strings it takes the escapes
//! `\"`, `\\`, `\/`, `\b`, `\f`, `\n`, `\r`, `\t` and `\u00XX` for characters below 0x20;
//! other `\uXXXX` escapes are refused. Text written by `encode_token` is always read back.
use crate::token::AccessToken;
use vstd::prelude::*;

verus! {

pub open spec fn hex_char(d: int) -> char {
    seq!['0', '1', '2', '3', '4', '5', '6', '7', '8', '9', 'a', 'b', 'c', 'd', 'e', 'f'][d]
}

pub open spec fn digit_char(d: int) -> char {
    seq!['0', '1', '2', '3', '4', '5', '6', '7', '8', '9'][d]
}

/// The character with code `k` (below 32).
pub open spec fn control_char(k: int) -> char {
    "\u{0}\u{1}\u{2}\u{3}\u{4}\u{5}\u{6}\u{7}\u{8}\u{9}\u{a}\u{b}\u{c}\u{d}\u{e}\u{f}\u{10}\u{11}\u{12}\u{13}\u{14}\u{15}\u{16}\u{17}\u{18}\u{19}\u{1a}\u{1b}\u{1c}\u{1d}\u{1e}\u{1f}"@[k]
}

/// How one character is written inside a JSON string.
pub open spec fn esc_char(c: char) -> Seq<char> {
    if c == '"' {
        seq!['\\', '"']
    } else if c == '\\' {
        seq!['\\', '\\']
    } else if (c as u32) < 32 {
        seq!['\\', 'u', '0', '0', hex_char((c as u32) as int / 16), hex_char((c as u32) as int % 16)]
    } else {
        seq![c]
    }
}

pub open spec fn escaped(s: Seq<char>) -> Seq<char>
    decreases s.len(),
{
    if s.len() == 0 {
        Seq::empty()
    } else {
        esc_char(s[0]) + escaped(s.drop_first())
    }
}

pub open spec fn json_string(s: Seq<char>) -> Seq<char> {
    seq!['"'] + escaped(s) + seq!['"']
}

/// Decimal digits of `n`, most significant first, without leading zeros.
pub open spec fn digits(n: nat) -> Seq<char>
    decreases n,
{
    if n < 10 {
        seq![digit_char(n as int)]
    } else {
        digits(n / 10).push(digit_char((n % 10) as int))
    }
}

pub open spec fn int_text(v: int) -> Seq<char> {
    if v < 0 {
        seq!['-'] + digits((-v) as nat)
    } else {
        digits(v as nat)
    }
}

/// The stored text of a token.
pub open spec fn token_text(t: AccessToken) -> Seq<char> {
    "{\"access_token\":"@ + json_string(t.access_token@) + ",\"token_type\":"@ + json_string(
        t.token_type@,
    ) + ",\"expires_in\":"@ + int_text(t.expires_in as int) + ",\"refresh_token\":"@ + json_string(
        t.refresh_token@,
    ) + ",\"created_at\":"@ + int_text(t.created_at as int) + "}"@
}

// ---- reading ----
/// The character that a two-character escape `\c` other than `\"` and `\\` stands for.
pub open spec fn short_escape(c: char) -> Option<char> {
    if c == 'n' {
        Some(control_char(10))
    } else if c == 't' {
        Some(control_char(9))
    } else if c == 'r' {
        Some(control_char(13))
    } else if c == 'b' {
        Some(control_char(8))
    } else if c == 'f' {
        Some(control_char(12))
    } else if c == '/' {
        Some('/')
    } else {
        None
    }
}

pub open spec fn hex_value(c: char) -> Option<int> {
    let u = c as u32;
    if 48 <= u <= 57 {
        Some(u - 48)
    } else if 97 <= u <= 102 {
        Some(u - 87)
    } else if 65 <= u <= 70 {
        Some(u - 55)
    } else {
        None
    }
}

/// Reads the body of a JSON string from position `i` up to its closing quote: the text
/// and the position after the quote.
#[verifier::opaque]
pub open spec fn parse_string_body(s: Seq<char>, i: int) -> Option<(Seq<char>, int)>
    decreases s.len() - i,
{
    if i < 0 || i >= s.len() {
        None
    } else if s[i] == '"' {
        Some((Seq::empty(), i + 1))
    } else if s[i] == '\\' {
        if i + 1 < s.len() && (s[i + 1] == '"' || s[i + 1] == '\\') {
            match parse_string_body(s, i + 2) {
                Some((t, j)) => Some((seq![s[i + 1]] + t, j)),
                None => None,
            }
        } else if i + 1 < s.len() && short_escape(s[i + 1]) is Some {
            match parse_string_body(s, i + 2) {
                Some((t, j)) => Some((seq![short_escape(s[i + 1])->0] + t, j)),
                None => None,
            }
        } else if i + 5 < s.len() && s[i + 1] == 'u' && s[i + 2] == '0' && s[i + 3] == '0' && hex_value(s[i + 4]) is Some
            && hex_value(s[i + 5]) is Some && hex_value(s[i + 4])->0 < 2 {
            match parse_string_body(s, i + 6) {
                Some((t, j)) => Some(
                    (seq![control_char(16 * hex_value(s[i + 4])->0 + hex_value(s[i + 5])->0)] + t, j),
                ),
                None => None,
            }
        } else {
            None
        }
    } else if (s[i] as u32) < 32 {
        None
    } else {
        match parse_string_body(s, i + 1) {
            Some((t, j)) => Some((seq![s[i]] + t, j)),
            None => None,
        }
    }
}

pub open spec fn is_digit(c: char) -> bool {
    48 <= (c as u32) <= 57
}

/// Value of a run of decimal digits.
pub open spec fn digits_value(d: Seq<char>) -> int
    decreases d.len(),
{
    if d.len() == 0 {
        0
    } else {
        digits_value(d.drop_last()) * 10 + ((d.last() as u32) - 48)
    }
}

/// The first position at or after `i` that does not hold a digit.
pub open spec fn digit_run_end(s: Seq<char>, i: int) -> int
    decreases s.len() - i,
{
    if 0 <= i < s.len() && is_digit(s[i]) {
        digit_run_end(s, i + 1)
    } else {
        i
    }
}

/// Reads an `i64` written in decimal (an optional `-`, then 1 to 19 digits) at `i`: the
/// value and the position after it.
pub open spec fn parse_int(s: Seq<char>, i: int) -> Option<(int, int)> {
    let neg = 0 <= i < s.len() && s[i] == '-';
    let start = if neg { i + 1 } else { i };
    let end = digit_run_end(s, start);
    let v = digits_value(s.subrange(start, end));
    let value = if neg { -v } else { v };
    if start < end && end - start <= 19 && i64::MIN <= value <= i64::MAX {
        Some((value, end))
    } else {
        None
    }
}

/// Whether `lit` stands in `s` at `i`.
pub open spec fn has_at(s: Seq<char>, i: int, lit: Seq<char>) -> bool {
    0 <= i && i + lit.len() <= s.len() && s.subrange(i, i + lit.len()) == lit
}

/// Reads `key` and then a JSON string.
pub open spec fn keyed_string(s: Seq<char>, i: int, key: Seq<char>) -> Option<(Seq<char>, int)> {
    let q = i + key.len();
    if has_at(s, i, key) && q < s.len() && s[q] == '"' {
        parse_string_body(s, q + 1)
    } else {
        None
    }
}

/// Reads `key` and then an integer.
pub open spec fn keyed_int(s: Seq<char>, i: int, key: Seq<char>) -> Option<(int, int)> {
    if has_at(s, i, key) {
        parse_int(s, i + key.len())
    } else {
        None
    }
}

/// The fields of a stored token (access token, token type, lifetime, refresh token,
/// creation time), if `s` holds one.
pub open spec fn token_fields(s: Seq<char>) -> Option<(Seq<char>, Seq<char>, int, Seq<char>, int)> {
    match keyed_string(s, 0, "{\"access_token\":"@) {
        None => None,
        Some((access, p1)) => match keyed_string(s, p1, ",\"token_type\":"@) {
            None => None,
            Some((kind, p2)) => match keyed_int(s, p2, ",\"expires_in\":"@) {
                None => None,
                Some((expires, p3)) => match keyed_string(s, p3, ",\"refresh_token\":"@) {
                    None => None,
                    Some((refresh, p4)) => match keyed_int(s, p4, ",\"created_at\":"@) {
                        None => None,
                        Some((created, p5)) => if has_at(s, p5, "}"@) && p5 + 1 == s.len() {
                            Some((access, kind, expires, refresh, created))
                        } else {
                            None
                        },
                    },
                },
            },
        },
    }
}

pub open spec fn fields_of(t: AccessToken) -> (Seq<char>, Seq<char>, int, Seq<char>, int) {
    (t.access_token@, t.token_type@, t.expires_in as int, t.refresh_token@, t.created_at as int)
}

// ---- the round trip ----
proof fn lemma_hex_char_value(d: int)
    requires
        0 <= d < 16,
    ensures
        hex_value(hex_char(d)) == Some(d),
{
    if d == 0 {} else if d == 1 {} else if d == 2 {} else if d == 3 {} else if d == 4 {} else if d == 5 {}
    else if d == 6 {} else if d == 7 {} else if d == 8 {} else if d == 9 {} else if d == 10 {}
    else if d == 11 {} else if d == 12 {} else if d == 13 {} else if d == 14 {} else {}
}

proof fn lemma_digit_char_value(d: int)
    requires
        0 <= d < 10,
    ensures
        (digit_char(d) as u32) == 48 + d,
        is_digit(digit_char(d)),
{
    if d == 0 {} else if d == 1 {} else if d == 2 {} else if d == 3 {} else if d == 4 {} else if d == 5 {}
    else if d == 6 {} else if d == 7 {} else if d == 8 {} else {}
}

proof fn lemma_control_char(c: char)
    requires
        (c as u32) < 32,
    ensures
        control_char((c as u32) as int) == c,
{
    reveal_strlit("\u{0}\u{1}\u{2}\u{3}\u{4}\u{5}\u{6}\u{7}\u{8}\u{9}\u{a}\u{b}\u{c}\u{d}\u{e}\u{f}\u{10}\u{11}\u{12}\u{13}\u{14}\u{15}\u{16}\u{17}\u{18}\u{19}\u{1a}\u{1b}\u{1c}\u{1d}\u{1e}\u{1f}");
}

/// An escaped string followed by a quote reads back as itself.
proof fn lemma_parse_escaped(p: Seq<char>, x: Seq<char>, r: Seq<char>)
    ensures
        parse_string_body(p + escaped(x) + seq!['"'] + r, p.len() as int) == Some(
            (x, (p.len() + escaped(x).len() + 1) as int),
        ),
    decreases x.len(),
{
    reveal(parse_string_body);
    let s = p + escaped(x) + seq!['"'] + r;
    let i = p.len() as int;
    if x.len() == 0 {
        assert(escaped(x) =~= Seq::<char>::empty());
        assert(s[i] == '"');
    } else {
        let c = x[0];
        let x2 = x.drop_first();
        let e = esc_char(c);
        let p2 = p + e;
        assert(escaped(x) == e + escaped(x2));
        assert(s =~= p2 + escaped(x2) + seq!['"'] + r);
        lemma_parse_escaped(p2, x2, r);
        assert(x =~= seq![c] + x2);
        assert forall|k: int| 0 <= k < e.len() implies s[i + k] == e[k] by {
            assert(s[i + k] == (p2 + escaped(x2) + seq!['"'] + r)[i + k]);
        }
        if c == '"' {
            assert(s[i] == '\\' && s[i + 1] == '"');
        } else if c == '\\' {
            assert(s[i] == '\\' && s[i + 1] == '\\');
        } else if (c as u32) < 32 {
            let k = (c as u32) as int;
            lemma_hex_char_value(k / 16);
            lemma_hex_char_value(k % 16);
            lemma_control_char(c);
            assert(s[i] == '\\' && s[i + 1] == 'u' && s[i + 2] == '0' && s[i + 3] == '0');
            assert(s[i + 4] == hex_char(k / 16) && s[i + 5] == hex_char(k % 16));
            assert(16 * (k / 16) + k % 16 == k);
        } else {
            assert(s[i] == c);
        }
    }
}

pub open spec fn pow10(k: nat) -> nat
    decreases k,
{
    if k == 0 {
        1
    } else {
        10 * pow10((k - 1) as nat)
    }
}

proof fn lemma_digits(n: nat)
    ensures
        digits_value(digits(n)) == n,
        digits(n).len() >= 1,
        forall|k: int| 0 <= k < digits(n).len() ==> is_digit(#[trigger] digits(n)[k]),
        forall|m: nat| n < pow10(m) && m >= 1 ==> digits(n).len() <= m,
    decreases n,
{
    if n < 10 {
        lemma_digit_char_value(n as int);
        assert(digits(n) == seq![digit_char(n as int)]);
        assert(digits(n).drop_last() =~= Seq::<char>::empty());
        assert(digits_value(Seq::<char>::empty()) == 0);
        assert forall|m: nat| n < pow10(m) && m >= 1 implies digits(n).len() <= m by {}
    } else {
        lemma_digits(n / 10);
        lemma_digit_char_value((n % 10) as int);
        let d = digits(n);
        assert(d.drop_last() =~= digits(n / 10));
        assert(digits_value(d) == (n / 10) as int * 10 + (n % 10) as int);
        assert forall|k: int| 0 <= k < d.len() implies is_digit(#[trigger] d[k]) by {
            if k < d.len() - 1 {
                assert(d[k] == digits(n / 10)[k]);
            }
        }
        assert forall|m: nat| n < pow10(m) && m >= 1 implies d.len() <= m by {
            if m == 1 {
                assert(pow10(1) == 10) by {
                    assert(pow10(0) == 1);
                }
            } else {
                let m1 = (m - 1) as nat;
                assert(pow10(m) == 10 * pow10(m1));
                assert((n / 10) < pow10(m1)) by (nonlinear_arith)
                    requires n < 10 * pow10(m1);
            }
        }
    }
}

proof fn lemma_run_end(s: Seq<char>, j: int, end: int)
    requires
        0 <= j <= end <= s.len(),
        forall|k: int| j <= k < end ==> is_digit(#[trigger] s[k]),
        end == s.len() || !is_digit(s[end]),
    ensures
        digit_run_end(s, j) == end,
    decreases end - j,
{
    if j < end {
        lemma_run_end(s, j + 1, end);
    }
}

/// An integer's text followed by a non-digit reads back as the integer.
proof fn lemma_parse_int(p: Seq<char>, v: int, r: Seq<char>)
    requires
        i64::MIN <= v <= i64::MAX,
        r.len() > 0,
        !is_digit(r[0]),
    ensures
        parse_int(p + int_text(v) + r, p.len() as int) == Some((v, (p.len() + int_text(v).len()) as int)),
{
    let s = p + int_text(v) + r;
    let i = p.len() as int;
    let n: nat = if v < 0 { (-v) as nat } else { v as nat };
    let d = digits(n);
    lemma_digits(n);
    reveal_with_fuel(pow10, 20);
    assert(pow10(19) == 10000000000000000000);
    let start = if v < 0 { i + 1 } else { i };
    let end = start + d.len();
    if v < 0 {
        assert(s =~= (p + seq!['-']) + d + r);
        assert(s[i] == '-');
    } else {
        assert(s =~= p + d + r);
        assert(s[i] == d[0]);
        assert(is_digit(d[0]));
    }
    assert forall|k: int| start <= k < end implies is_digit(#[trigger] s[k]) by {
        assert(s[k] == d[k - start]);
    }
    assert(s[end] == r[0]);
    lemma_run_end(s, start, end);
    assert(s.subrange(start, end) =~= d);
}

proof fn lemma_has_at(a: Seq<char>, b: Seq<char>, c: Seq<char>)
    ensures
        has_at(a + b + c, a.len() as int, b),
{
    assert((a + b + c).subrange(a.len() as int, (a.len() + b.len()) as int) =~= b);
}

proof fn lemma_string_step(q: Seq<char>, k: Seq<char>, x: Seq<char>, r: Seq<char>)
    ensures
        keyed_string(q + k + json_string(x) + r, q.len() as int, k) == Some(
            (x, (q.len() + k.len() + json_string(x).len()) as int),
        ),
{
    let s = q + k + json_string(x) + r;
    lemma_has_at(q, k, json_string(x) + r);
    assert(q + k + (json_string(x) + r) =~= s);
    assert(s[(q.len() + k.len()) as int] == '"');
    assert(s =~= (q + k + seq!['"']) + escaped(x) + seq!['"'] + r);
    lemma_parse_escaped(q + k + seq!['"'], x, r);
}

proof fn lemma_int_step(q: Seq<char>, k: Seq<char>, v: int, r: Seq<char>)
    requires
        i64::MIN <= v <= i64::MAX,
        r.len() > 0,
        !is_digit(r[0]),
    ensures
        keyed_int(q + k + int_text(v) + r, q.len() as int, k) == Some(
            (v, (q.len() + k.len() + int_text(v).len()) as int),
        ),
{
    let s = q + k + int_text(v) + r;
    lemma_has_at(q, k, int_text(v) + r);
    assert(q + k + (int_text(v) + r) =~= s);
    assert(s =~= (q + k) + int_text(v) + r);
    lemma_parse_int(q + k, v, r);
}

/// Reading the stored text of a token gives back every field of the token.
#[verifier::rlimit(100)]
#[verifier::spinoff_prover]
pub proof fn lemma_token_round_trip(t: AccessToken)
    ensures
        token_fields(token_text(t)) == Some(fields_of(t)),
{
    let k1 = "{\"access_token\":"@;
    let k2 = ",\"token_type\":"@;
    let k3 = ",\"expires_in\":"@;
    let k4 = ",\"refresh_token\":"@;
    let k5 = ",\"created_at\":"@;
    let k6 = "}"@;
    reveal_strlit(",\"refresh_token\":");
    reveal_strlit("}");
    let j1 = json_string(t.access_token@);
    let j2 = json_string(t.token_type@);
    let j4 = json_string(t.refresh_token@);
    let i3 = int_text(t.expires_in as int);
    let i5 = int_text(t.created_at as int);
    let s = token_text(t);
    let q1 = k1 + j1;
    let q2 = q1 + k2 + j2;
    let q3 = q2 + k3 + i3;
    let q4 = q3 + k4 + j4;
    let q5 = q4 + k5 + i5;
    assert(s =~= Seq::<char>::empty() + k1 + j1 + (k2 + j2 + k3 + i3 + k4 + j4 + k5 + i5 + k6));
    lemma_string_step(Seq::empty(), k1, t.access_token@, k2 + j2 + k3 + i3 + k4 + j4 + k5 + i5 + k6);
    assert(s =~= q1 + k2 + j2 + (k3 + i3 + k4 + j4 + k5 + i5 + k6));
    lemma_string_step(q1, k2, t.token_type@, k3 + i3 + k4 + j4 + k5 + i5 + k6);
    assert(s =~= q2 + k3 + i3 + (k4 + j4 + k5 + i5 + k6));
    assert((k4 + j4 + k5 + i5 + k6)[0] == ',');
    lemma_int_step(q2, k3, t.expires_in as int, k4 + j4 + k5 + i5 + k6);
    assert(s =~= q3 + k4 + j4 + (k5 + i5 + k6));
    lemma_string_step(q3, k4, t.refresh_token@, k5 + i5 + k6);
    assert(s =~= q4 + k5 + i5 + k6);
    assert(k6[0] == '}');
    lemma_int_step(q4, k5, t.created_at as int, k6);
    lemma_has_at(q5, k6, Seq::empty());
    assert(q5 + k6 + Seq::<char>::empty() =~= s);
}

// ---- writing ----
proof fn lemma_escaped_push(x: Seq<char>, c: char)
    ensures
        escaped(x.push(c)) == escaped(x) + esc_char(c),
    decreases x.len(),
{
    if x.len() == 0 {
        assert(x.push(c).drop_first() =~= Seq::<char>::empty());
        assert(escaped(x.push(c)) =~= esc_char(c) + escaped(Seq::<char>::empty()));
        assert(escaped(x) =~= Seq::<char>::empty());
        assert(escaped(x.push(c)) =~= escaped(x) + esc_char(c));
    } else {
        assert(x.push(c).drop_first() =~= x.drop_first().push(c));
        lemma_escaped_push(x.drop_first(), c);
        assert(escaped(x.push(c)) =~= escaped(x) + esc_char(c));
    }
}

fn hex_str(d: u32) -> (r: &'static str)
    requires
        d < 16,
    ensures
        r@ == seq![hex_char(d as int)],
{
    let all = "0123456789abcdef";
    proof {
        reveal_strlit("0123456789abcdef");
    }
    let r = all.substring_char(d as usize, d as usize + 1);
    assert(r@ =~= seq![hex_char(d as int)]);
    r
}

fn digit_str(d: u64) -> (r: &'static str)
    requires
        d < 10,
    ensures
        r@ == seq![digit_char(d as int)],
{
    let all = "0123456789";
    proof {
        reveal_strlit("0123456789");
    }
    let r = all.substring_char(d as usize, d as usize + 1);
    assert(r@ =~= seq![digit_char(d as int)]);
    r
}

fn control_str(k: u32) -> (r: &'static str)
    requires
        k < 32,
    ensures
        r@ == seq![control_char(k as int)],
{
    let all = "\u{0}\u{1}\u{2}\u{3}\u{4}\u{5}\u{6}\u{7}\u{8}\u{9}\u{a}\u{b}\u{c}\u{d}\u{e}\u{f}\u{10}\u{11}\u{12}\u{13}\u{14}\u{15}\u{16}\u{17}\u{18}\u{19}\u{1a}\u{1b}\u{1c}\u{1d}\u{1e}\u{1f}";
    proof {
        reveal_strlit("\u{0}\u{1}\u{2}\u{3}\u{4}\u{5}\u{6}\u{7}\u{8}\u{9}\u{a}\u{b}\u{c}\u{d}\u{e}\u{f}\u{10}\u{11}\u{12}\u{13}\u{14}\u{15}\u{16}\u{17}\u{18}\u{19}\u{1a}\u{1b}\u{1c}\u{1d}\u{1e}\u{1f}");
    }
    let r = all.substring_char(k as usize, k as usize + 1);
    assert(r@ =~= seq![control_char(k as int)]);
    r
}

/// Appends `s` escaped for a JSON string.
fn append_escaped(out: &mut String, s: &str)
    ensures
        final(out)@ == old(out)@ + escaped(s@),
{
    let ghost start = out@;
    let n = s.unicode_len();
    let mut i: usize = 0;
    while i < n
        invariant
            i <= n,
            n == s@.len(),
            out@ == start + escaped(s@.subrange(0, i as int)),
        decreases n - i,
    {
        let c = s.get_char(i);
        proof {
            lemma_escaped_push(s@.subrange(0, i as int), c);
            assert(s@.subrange(0, i + 1) =~= s@.subrange(0, i as int).push(c));
        }
        let ghost before = out@;
        if c == '"' {
            proof {
                reveal_strlit("\\\"");
            }
            out.append("\\\"");
            assert(out@ =~= before + esc_char(c));
        } else if c == '\\' {
            proof {
                reveal_strlit("\\\\");
            }
            out.append("\\\\");
            assert(out@ =~= before + esc_char(c));
        } else if (c as u32) < 32 {
            proof {
                reveal_strlit("\\u00");
            }
            out.append("\\u00");
            out.append(hex_str(c as u32 / 16));
            out.append(hex_str(c as u32 % 16));
            assert(out@ =~= before + esc_char(c));
        } else {
            out.append(s.substring_char(i, i + 1));
            assert(out@ =~= before + esc_char(c));
        }
        i = i + 1;
        assert(out@ =~= start + escaped(s@.subrange(0, i as int)));
    }
    assert(s@.subrange(0, n as int) =~= s@);
}

/// Appends `s` as a JSON string.
fn append_json_string(out: &mut String, s: &str)
    ensures
        final(out)@ == old(out)@ + json_string(s@),
{
    let ghost start = out@;
    proof {
        reveal_strlit("\"");
    }
    out.append("\"");
    append_escaped(out, s);
    out.append("\"");
    assert(out@ =~= start + json_string(s@));
}

pub(crate) fn append_digits(out: &mut String, n: u64)
    ensures
        final(out)@ == old(out)@ + digits(n as nat),
    decreases n,
{
    let ghost start = out@;
    if n >= 10 {
        append_digits(out, n / 10);
    }
    out.append(digit_str(n % 10));
    proof {
        if n >= 10 {
            assert(out@ =~= start + digits(n as nat));
        } else {
            assert(out@ =~= start + digits(n as nat));
        }
    }
}

fn append_int(out: &mut String, v: i64)
    ensures
        final(out)@ == old(out)@ + int_text(v as int),
{
    let ghost start = out@;
    if v < 0 {
        proof {
            reveal_strlit("-");
        }
        out.append("-");
        let magnitude: u64 = (-(v as i128)) as u64;
        append_digits(out, magnitude);
        assert(out@ =~= start + int_text(v as int));
    } else {
        append_digits(out, v as u64);
    }
}

/// The stored text of a token.
pub fn encode_token(t: &AccessToken) -> (r: String)
    ensures
        r@ == token_text(*t),
{
    let mut out = String::from_str("{\"access_token\":");
    append_json_string(&mut out, t.access_token.as_str());
    out.append(",\"token_type\":");
    append_json_string(&mut out, t.token_type.as_str());
    out.append(",\"expires_in\":");
    append_int(&mut out, t.expires_in);
    out.append(",\"refresh_token\":");
    append_json_string(&mut out, t.refresh_token.as_str());
    out.append(",\"created_at\":");
    append_int(&mut out, t.created_at);
    out.append("}");
    assert(out@ =~= token_text(*t));
    out
}

// ---- reading, executable ----
fn short_escape_str(c: char) -> (r: Option<&'static str>)
    ensures
        r is Some <==> short_escape(c) is Some,
        r is Some ==> r->0@ == seq![short_escape(c)->0],
{
    if c == 'n' {
        Some(control_str(10))
    } else if c == 't' {
        Some(control_str(9))
    } else if c == 'r' {
        Some(control_str(13))
    } else if c == 'b' {
        Some(control_str(8))
    } else if c == 'f' {
        Some(control_str(12))
    } else if c == '/' {
        proof {
            reveal_strlit("/");
        }
        let r = "/";
        assert(r@ =~= seq!['/']);
        Some(r)
    } else {
        None
    }
}

fn hex_val(c: char) -> (r: Option<u32>)
    ensures
        r is Some <==> hex_value(c) is Some,
        r is Some ==> r->0 as int == hex_value(c)->0,
{
    let u = c as u32;
    if 48 <= u && u <= 57 {
        Some(u - 48)
    } else if 97 <= u && u <= 102 {
        Some(u - 87)
    } else if 65 <= u && u <= 70 {
        Some(u - 55)
    } else {
        None
    }
}

fn read_string_body(s: &str, n: usize, i: usize) -> (r: Option<(String, usize)>)
    requires
        n == s@.len(),
    ensures
        match parse_string_body(s@, i as int) {
            Some((t, j)) => r is Some && (r->0).0@ == t && (r->0).1 == j,
            None => r is None,
        },
{
    let mut out = String::new();
    let mut j: usize = i;
    loop
        invariant
            i <= j,
            n == s@.len(),
            parse_string_body(s@, i as int) == match parse_string_body(s@, j as int) {
                Some((t, k)) => Some((out@ + t, k)),
                None => None,
            },
        decreases n - j,
    {
        proof {
            reveal(parse_string_body);
        }
        if j >= n {
            return None;
        }
        let c = s.get_char(j);
        let ghost before = out@;
        if c == '"' {
            assert(out@ + Seq::<char>::empty() =~= out@);
            return Some((out, j + 1));
        } else if c == '\\' {
            if j + 1 < n {
                let c1 = s.get_char(j + 1);
                if c1 == '"' || c1 == '\\' {
                    out.append(s.substring_char(j + 1, j + 2));
                    proof {
                        assert(out@ =~= before + seq![c1]);
                        match parse_string_body(s@, j + 2) {
                            Some((t, k)) => {
                                assert(before + (seq![c1] + t) =~= out@ + t);
                            },
                            None => {},
                        }
                    }
                    j = j + 2;
                    continue;
                }
                match short_escape_str(c1) {
                    Some(text) => {
                        out.append(text);
                        proof {
                            let ch = short_escape(c1)->0;
                            assert(out@ =~= before + seq![ch]);
                            match parse_string_body(s@, j + 2) {
                                Some((t, k)) => {
                                    assert(before + (seq![ch] + t) =~= out@ + t);
                                },
                                None => {},
                            }
                        }
                        j = j + 2;
                        continue;
                    },
                    None => {},
                }
            }
            if n - j > 5 && s.get_char(j + 1) == 'u' && s.get_char(j + 2) == '0' && s.get_char(j + 3) == '0' {
                let high = hex_val(s.get_char(j + 4));
                let low = hex_val(s.get_char(j + 5));
                match (high, low) {
                    (Some(h), Some(l)) => {
                        if h < 2 {
                            out.append(control_str(16 * h + l));
                            proof {
                                let ch = control_char(16 * hex_value(s@[j + 4])->0 + hex_value(s@[j + 5])->0);
                                assert(out@ =~= before + seq![ch]);
                                match parse_string_body(s@, j + 6) {
                                    Some((t, k)) => {
                                        assert(before + (seq![ch] + t) =~= out@ + t);
                                    },
                                    None => {},
                                }
                            }
                            j = j + 6;
                            continue;
                        }
                    },
                    _ => {},
                }
            }
            return None;
        } else if (c as u32) < 32 {
            return None;
        } else {
            out.append(s.substring_char(j, j + 1));
            proof {
                assert(out@ =~= before + seq![c]);
                match parse_string_body(s@, j + 1) {
                    Some((t, k)) => {
                        assert(before + (seq![c] + t) =~= out@ + t);
                    },
                    None => {},
                }
            }
            j = j + 1;
        }
    }
}

proof fn lemma_run_end_after(s: Seq<char>, i: int)
    requires
        0 <= i,
    ensures
        digit_run_end(s, i) >= i,
    decreases s.len() - i,
{
    if 0 <= i < s.len() && is_digit(s[i]) {
        lemma_run_end_after(s, i + 1);
    }
}

proof fn lemma_pow10_grows(a: nat, b: nat)
    requires
        a <= b,
    ensures
        pow10(a) <= pow10(b),
        pow10(a) >= 1,
    decreases b,
{
    if a < b {
        lemma_pow10_grows(a, (b - 1) as nat);
    } else if a > 0 {
        lemma_pow10_grows((a - 1) as nat, (a - 1) as nat);
    }
}

fn read_int(s: &str, n: usize, i: usize) -> (r: Option<(i64, usize)>)
    requires
        n == s@.len(),
    ensures
        match parse_int(s@, i as int) {
            Some((v, j)) => r is Some && (r->0).0 == v && (r->0).1 == j,
            None => r is None,
        },
{
    if i > n {
        return None;
    }
    let neg = i < n && s.get_char(i) == '-';
    let start: usize = if neg { i + 1 } else { i };
    let mut acc: u64 = 0;
    let mut j: usize = start;
    proof {
        assert(s@.subrange(start as int, start as int) =~= Seq::<char>::empty());
        reveal_with_fuel(pow10, 20);
        assert(pow10(19) == 10000000000000000000);
    }
    loop
        invariant
            start <= j <= n,
            n == s@.len(),
            start == (if neg { i + 1 } else { i as int }),
            neg == (0 <= i < s@.len() && s@[i as int] == '-'),
            j - start <= 19,
            acc == digits_value(s@.subrange(start as int, j as int)),
            acc < pow10((j - start) as nat),
            pow10(19) == 10000000000000000000,
            digit_run_end(s@, start as int) == digit_run_end(s@, j as int),
        ensures
            start <= j <= n,
            j - start <= 19,
            acc == digits_value(s@.subrange(start as int, j as int)),
            digit_run_end(s@, start as int) == j,
        decreases n - j,
    {
        if j >= n {
            break;
        }
        let c = s.get_char(j);
        if !(48 <= c as u32 && c as u32 <= 57) {
            break;
        }
        if j - start == 19 {
            proof {
                lemma_run_end_after(s@, j + 1);
            }
            return None;
        }
        proof {
            let k = (j - start) as nat;
            lemma_pow10_grows(k + 1, 19);
            assert(pow10(k + 1) == 10 * pow10(k));
            assert(acc * 10 + (c as u32 - 48) < pow10(k + 1)) by (nonlinear_arith)
                requires acc < pow10(k), (c as u32 - 48) < 10, pow10(k + 1) == 10 * pow10(k);
            assert(s@.subrange(start as int, j + 1).drop_last() =~= s@.subrange(start as int, j as int));
        }
        acc = acc * 10 + (c as u32 - 48) as u64;
        j = j + 1;
    }
    if j == start {
        return None;
    }
    if neg {
        if acc > 9223372036854775808 {
            return None;
        }
        Some(((-(acc as i128)) as i64, j))
    } else {
        if acc > 9223372036854775807 {
            return None;
        }
        Some((acc as i64, j))
    }
}

/// Whether `lit` stands in `s` at `i`.
fn text_at(s: &str, n: usize, i: usize, lit: &str) -> (r: bool)
    requires
        n == s@.len(),
    ensures
        r == has_at(s@, i as int, lit@),
{
    let k = lit.unicode_len();
    if i > n || k > n - i {
        return false;
    }
    let piece = String::from_str(s.substring_char(i, i + k));
    let wanted = String::from_str(lit);
    piece == wanted
}

fn read_keyed_string(s: &str, n: usize, i: usize, key: &str) -> (r: Option<(String, usize)>)
    requires
        n == s@.len(),
    ensures
        match keyed_string(s@, i as int, key@) {
            Some((t, j)) => r is Some && (r->0).0@ == t && (r->0).1 == j,
            None => r is None,
        },
{
    if !text_at(s, n, i, key) {
        return None;
    }
    let q = i + key.unicode_len();
    if q >= n || s.get_char(q) != '"' {
        return None;
    }
    read_string_body(s, n, q + 1)
}

fn read_keyed_int(s: &str, n: usize, i: usize, key: &str) -> (r: Option<(i64, usize)>)
    requires
        n == s@.len(),
    ensures
        match keyed_int(s@, i as int, key@) {
            Some((v, j)) => r is Some && (r->0).0 == v && (r->0).1 == j,
            None => r is None,
        },
{
    if !text_at(s, n, i, key) {
        return None;
    }
    read_int(s, n, i + key.unicode_len())
}

/// The token stored in `s`, if `s` is the stored text of one.
pub fn decode_token(s: &str) -> (r: Option<AccessToken>)
    ensures
        match token_fields(s@) {
            Some(f) => r is Some && fields_of(r->0) == f,
            None => r is None,
        },
{
    let n = s.unicode_len();
    let (access_token, p1) = match read_keyed_string(s, n, 0, "{\"access_token\":") {
        Some(x) => x,
        None => {
            return None;
        },
    };
    let (token_type, p2) = match read_keyed_string(s, n, p1, ",\"token_type\":") {
        Some(x) => x,
        None => {
            return None;
        },
    };
    let (expires_in, p3) = match read_keyed_int(s, n, p2, ",\"expires_in\":") {
        Some(x) => x,
        None => {
            return None;
        },
    };
    let (refresh_token, p4) = match read_keyed_string(s, n, p3, ",\"refresh_token\":") {
        Some(x) => x,
        None => {
            return None;
        },
    };
    let (created_at, p5) = match read_keyed_int(s, n, p4, ",\"created_at\":") {
        Some(x) => x,
        None => {
            return None;
        },
    };
    if p5 >= n || !text_at(s, n, p5, "}") || p5 + 1 != n {
        return None;
    }
    Some(AccessToken { access_token, token_type, expires_in, refresh_token, created_at })
}

} // verus!
