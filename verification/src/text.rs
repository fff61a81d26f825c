//! Character and string helpers shared by the header model and the codec:
//! ASCII case folding, whitespace handling, and decimal numerals.

use vstd::prelude::*;

verus! {

/// The whitespace characters that separate request-line tokens and are
/// trimmed from header names and values: the Unicode White_Space set, as
/// `str::trim` and `str::split_whitespace` know it.
pub open spec fn is_ws_char(c: char) -> bool {
    c == ' ' || ('\u{9}' <= c && c <= '\u{D}') || c == '\u{85}' || c == '\u{A0}' || c
        == '\u{1680}' || ('\u{2000}' <= c && c <= '\u{200A}') || c == '\u{2028}' || c == '\u{2029}'
        || c == '\u{202F}' || c == '\u{205F}' || c == '\u{3000}'
}

pub open spec fn is_digit_char(c: char) -> bool {
    '0' <= c && c <= '9'
}

/// Numeric value of a decimal digit character.
pub open spec fn digit_val(c: char) -> int {
    c as int - '0' as int
}

/// ASCII lower-casing of one character; other characters are unchanged.
pub open spec fn lower_char(c: char) -> char {
    if 'A' <= c && c <= 'Z' {
        (c as u32 + 32) as char
    } else {
        c
    }
}

/// ASCII lower-casing of a character sequence.
pub open spec fn lower_seq(s: Seq<char>) -> Seq<char> {
    Seq::new(s.len(), |i: int| lower_char(s[i]))
}

pub fn char_is_ws(c: char) -> (r: bool)
    ensures
        r == is_ws_char(c),
{
    c == ' ' || ('\u{9}' <= c && c <= '\u{D}') || c == '\u{85}' || c == '\u{A0}' || c
        == '\u{1680}' || ('\u{2000}' <= c && c <= '\u{200A}') || c == '\u{2028}' || c == '\u{2029}'
        || c == '\u{202F}' || c == '\u{205F}' || c == '\u{3000}'
}

pub fn char_to_lower(c: char) -> (r: char)
    ensures
        r == lower_char(c),
{
    if 'A' <= c && c <= 'Z' {
        ((c as u8) + 32) as char
    } else {
        c
    }
}

/// Whether two strings are equal.
pub fn str_eq(a: &str, b: &str) -> (r: bool)
    ensures
        r == (a@ == b@),
{
    let a_len = a.unicode_len();
    let b_len = b.unicode_len();
    if a_len != b_len {
        return false;
    }
    let mut i: usize = 0;
    while i < a_len
        invariant
            a_len == a@.len(),
            b_len == b@.len(),
            a_len == b_len,
            i <= a_len,
            forall|j: int| 0 <= j < i ==> a@[j] == b@[j],
        decreases a_len - i,
    {
        if a.get_char(i) != b.get_char(i) {
            return false;
        }
        i = i + 1;
    }
    proof {
        assert(a@ =~= b@);
    }
    true
}

/// Whether two strings are equal up to ASCII case.
pub fn str_eq_ignore_case(a: &str, b: &str) -> (r: bool)
    ensures
        r == (lower_seq(a@) == lower_seq(b@)),
{
    let a_len = a.unicode_len();
    let b_len = b.unicode_len();
    if a_len != b_len {
        proof {
            assert(lower_seq(a@).len() != lower_seq(b@).len());
        }
        return false;
    }
    let mut i: usize = 0;
    while i < a_len
        invariant
            a_len == a@.len(),
            b_len == b@.len(),
            a_len == b_len,
            i <= a_len,
            forall|j: int| 0 <= j < i ==> lower_char(a@[j]) == lower_char(b@[j]),
        decreases a_len - i,
    {
        if char_to_lower(a.get_char(i)) != char_to_lower(b.get_char(i)) {
            proof {
                assert(lower_seq(a@)[i as int] != lower_seq(b@)[i as int]);
            }
            return false;
        }
        i = i + 1;
    }
    proof {
        assert(lower_seq(a@) =~= lower_seq(b@));
    }
    true
}

/// The input without its leading whitespace.
pub open spec fn drop_leading_ws(s: Seq<char>) -> Seq<char>
    decreases s.len(),
{
    if s.len() > 0 && is_ws_char(s[0]) {
        drop_leading_ws(s.drop_first())
    } else {
        s
    }
}

/// The input without its trailing whitespace.
pub open spec fn drop_trailing_ws(s: Seq<char>) -> Seq<char>
    decreases s.len(),
{
    if s.len() > 0 && is_ws_char(s.last()) {
        drop_trailing_ws(s.drop_last())
    } else {
        s
    }
}

/// The input without surrounding whitespace.
pub open spec fn spec_trim(s: Seq<char>) -> Seq<char> {
    drop_trailing_ws(drop_leading_ws(s))
}

/// Trims surrounding whitespace, as a new string.
pub fn trim(s: &str) -> (r: String)
    ensures
        r@ == spec_trim(s@),
{
    let len = s.unicode_len();
    proof {
        assert(s@.skip(0) =~= s@);
    }
    let mut a: usize = 0;
    while a < len && char_is_ws(s.get_char(a))
        invariant
            len == s@.len(),
            a <= len,
            drop_leading_ws(s@) == drop_leading_ws(s@.skip(a as int)),
        decreases len - a,
    {
        proof {
            assert(s@.skip(a as int).drop_first() =~= s@.skip(a as int + 1));
        }
        a = a + 1;
    }
    proof {
        assert(drop_leading_ws(s@.skip(a as int)) == s@.skip(a as int));
    }
    // s@.skip(a) holds no leading whitespace now; trim its tail
    let mut b: usize = len;
    while b > a && char_is_ws(s.get_char(b - 1))
        invariant
            len == s@.len(),
            a <= b <= len,
            drop_leading_ws(s@) == s@.skip(a as int),
            drop_trailing_ws(s@.skip(a as int)) == drop_trailing_ws(s@.subrange(a as int, b as int)),
        decreases b,
    {
        proof {
            assert(s@.subrange(a as int, b as int).drop_last() =~= s@.subrange(
                a as int,
                b as int - 1,
            ));
        }
        b = b - 1;
    }
    proof {
        assert(drop_trailing_ws(s@.subrange(a as int, b as int)) == s@.subrange(
            a as int,
            b as int,
        ));
    }
    let sub = s.substring_char(a, b);
    String::from_str(sub)
}

/// Index of the first occurrence of `c`, if any.
pub fn find_char(s: &str, c: char) -> (r: Option<usize>)
    ensures
        match r {
            Some(i) => i < s@.len() && s@[i as int] == c && forall|j: int|
                0 <= j < i ==> s@[j] != c,
            None => forall|j: int| 0 <= j < s@.len() ==> s@[j] != c,
        },
{
    let len = s.unicode_len();
    let mut i: usize = 0;
    while i < len
        invariant
            len == s@.len(),
            i <= len,
            forall|j: int| 0 <= j < i ==> s@[j] != c,
        decreases len - i,
    {
        if s.get_char(i) == c {
            return Some(i);
        }
        i = i + 1;
    }
    None
}

/// Index of the first occurrence of `c` in `s`, if any.
pub open spec fn spec_find(s: Seq<char>, c: char) -> Option<int>
    decreases s.len(),
{
    if s.len() == 0 {
        None
    } else if s[0] == c {
        Some(0)
    } else {
        match spec_find(s.drop_first(), c) {
            Some(i) => Some(i + 1),
            None => None,
        }
    }
}

/// `spec_find` returns the first occurrence: nothing before it matches.
pub proof fn lemma_spec_find(s: Seq<char>, c: char)
    ensures
        match spec_find(s, c) {
            Some(i) => 0 <= i < s.len() && s[i] == c && forall|j: int| 0 <= j < i ==> s[j] != c,
            None => forall|j: int| 0 <= j < s.len() ==> s[j] != c,
        },
    decreases s.len(),
{
    if s.len() > 0 && s[0] != c {
        lemma_spec_find(s.drop_first(), c);
        match spec_find(s.drop_first(), c) {
            Some(i) => {
                assert(s.drop_first()[i] == s[i + 1]);
                assert forall|j: int| 0 <= j < i + 1 implies s[j] != c by {
                    if j > 0 {
                        assert(s.drop_first()[j - 1] == s[j]);
                    }
                }
            },
            None => {
                assert forall|j: int| 0 <= j < s.len() implies s[j] != c by {
                    if j > 0 {
                        assert(s.drop_first()[j - 1] == s[j]);
                    }
                }
            },
        }
    }
}

// ---- whitespace-separated tokens ----

/// The tokens of `s` after `cur`, a token under construction, is extended
/// by the characters of `s`: whitespace closes `cur`, anything else grows it.
pub open spec fn tokens_rec(s: Seq<char>, cur: Seq<char>) -> Seq<Seq<char>>
    decreases s.len(),
{
    if s.len() == 0 {
        if cur.len() == 0 {
            seq![]
        } else {
            seq![cur]
        }
    } else if is_ws_char(s[0]) {
        if cur.len() == 0 {
            tokens_rec(s.drop_first(), seq![])
        } else {
            seq![cur] + tokens_rec(s.drop_first(), seq![])
        }
    } else {
        tokens_rec(s.drop_first(), cur.push(s[0]))
    }
}

/// The maximal whitespace-free tokens of `s`, in order.
pub open spec fn spec_tokens(s: Seq<char>) -> Seq<Seq<char>> {
    tokens_rec(s, seq![])
}

/// A whitespace-free prefix is absorbed whole into the token under
/// construction.
proof fn lemma_tokens_rec_token(t: Seq<char>, rest: Seq<char>, cur: Seq<char>)
    requires
        forall|i: int| 0 <= i < t.len() ==> !is_ws_char(t[i]),
    ensures
        tokens_rec(t + rest, cur) == tokens_rec(rest, cur + t),
    decreases t.len(),
{
    if t.len() == 0 {
        assert(t + rest =~= rest);
        assert(cur + t =~= cur);
    } else {
        assert((t + rest)[0] == t[0]);
        assert((t + rest).drop_first() =~= t.drop_first() + rest);
        assert(forall|i: int|
            0 <= i < t.drop_first().len() ==> t.drop_first()[i] == t[i + 1] && !is_ws_char(
                t.drop_first()[i],
            ));
        lemma_tokens_rec_token(t.drop_first(), rest, cur.push(t[0]));
        assert(cur.push(t[0]) + t.drop_first() =~= cur + t);
    }
}

/// A space closes the token under construction.
proof fn lemma_tokens_rec_space(rest: Seq<char>, cur: Seq<char>)
    requires
        cur.len() > 0,
    ensures
        tokens_rec(" "@ + rest, cur) == seq![cur] + tokens_rec(rest, Seq::<char>::empty()),
{
    reveal_strlit(" ");
    assert((" "@ + rest)[0] == ' ');
    assert((" "@ + rest).drop_first() =~= rest);
}

/// A line terminator closes the last token and adds nothing after it.
proof fn lemma_tokens_rec_crlf(cur: Seq<char>)
    requires
        cur.len() > 0,
    ensures
        tokens_rec("\r\n"@, cur) == seq![cur],
{
    reveal_strlit("\r\n");
    let s = "\r\n"@;
    assert(s.len() == 2 && s[0] == '\r' && s[1] == '\n');
    let s1 = s.drop_first();
    assert(s1 =~= seq!['\n']);
    assert(s1.drop_first() =~= Seq::<char>::empty());
    assert(tokens_rec(s, cur) =~= seq![cur] + tokens_rec(s1, Seq::<char>::empty()));
    assert(tokens_rec(s1, Seq::<char>::empty()) == tokens_rec(
        s1.drop_first(),
        Seq::<char>::empty(),
    ));
    assert(seq![cur] + Seq::<Seq<char>>::empty() =~= seq![cur]);
}

/// A well-formed request line `"<METHOD> <PATH> <VERSION>\r\n"` -- three
/// whitespace-free tokens separated by single spaces -- splits into
/// exactly those three tokens.
pub proof fn lemma_request_line_tokens(m: Seq<char>, p: Seq<char>, v: Seq<char>)
    requires
        m.len() > 0,
        p.len() > 0,
        v.len() > 0,
        forall|i: int| 0 <= i < m.len() ==> !is_ws_char(m[i]),
        forall|i: int| 0 <= i < p.len() ==> !is_ws_char(p[i]),
        forall|i: int| 0 <= i < v.len() ==> !is_ws_char(v[i]),
    ensures
        spec_tokens(m + " "@ + p + " "@ + v + "\r\n"@) == seq![m, p, v],
{
    let t3 = "\r\n"@;
    let t2v = v + t3;
    let t2 = " "@ + t2v;
    let t1p = p + t2;
    let t1 = " "@ + t1p;
    let line = m + " "@ + p + " "@ + v + "\r\n"@;
    assert(line =~= m + t1);
    assert(Seq::<char>::empty() + m =~= m);
    lemma_tokens_rec_token(m, t1, Seq::<char>::empty());
    lemma_tokens_rec_space(t1p, m);
    lemma_tokens_rec_token(p, t2, Seq::<char>::empty());
    assert(Seq::<char>::empty() + p =~= p);
    lemma_tokens_rec_space(t2v, p);
    lemma_tokens_rec_token(v, t3, Seq::<char>::empty());
    assert(Seq::<char>::empty() + v =~= v);
    lemma_tokens_rec_crlf(v);
    assert(seq![m] + (seq![p] + seq![v]) =~= seq![m, p, v]);
}

/// Splits a string into its whitespace-separated tokens.
pub fn split_ws(s: &str) -> (r: Vec<String>)
    ensures
        r.deep_view() == spec_tokens(s@),
{
    let len = s.unicode_len();
    let mut out: Vec<String> = Vec::new();
    proof {
        assert(s@.skip(0) =~= s@);
        assert(out.deep_view() + tokens_rec(s@, Seq::<char>::empty()) =~= spec_tokens(s@));
    }
    let mut i: usize = 0;
    let mut start: usize = 0;
    let mut in_token: bool = false;
    while i < len
        invariant
            len == s@.len(),
            i <= len,
            in_token ==> start < i,
            out.deep_view() + tokens_rec(
                s@.skip(i as int),
                if in_token {
                    s@.subrange(start as int, i as int)
                } else {
                    Seq::<char>::empty()
                },
            ) == spec_tokens(s@),
        decreases len - i,
    {
        let ghost cur: Seq<char> = if in_token {
            s@.subrange(start as int, i as int)
        } else {
            Seq::<char>::empty()
        };
        proof {
            assert(s@.skip(i as int)[0] == s@[i as int]);
            assert(s@.skip(i as int).drop_first() =~= s@.skip(i as int + 1));
        }
        let c = s.get_char(i);
        if char_is_ws(c) {
            if in_token {
                let tok = s.substring_char(start, i);
                out.push(String::from_str(tok));
                in_token = false;
                proof {
                    assert(out.deep_view() =~= out.deep_view().subrange(
                        0,
                        out.deep_view().len() - 1,
                    ).push(cur));
                    assert(out.deep_view() + tokens_rec(s@.skip(i as int + 1), Seq::<char>::empty())
                        =~= (out.deep_view().subrange(0, out.deep_view().len() - 1) + (seq![cur]
                        + tokens_rec(s@.skip(i as int + 1), Seq::<char>::empty()))));
                }
            }
        } else {
            if !in_token {
                start = i;
                in_token = true;
            }
            proof {
                assert(s@.subrange(start as int, i as int + 1) =~= (if start < i {
                    s@.subrange(start as int, i as int)
                } else {
                    Seq::<char>::empty()
                }).push(s@[i as int]));
            }
        }
        i = i + 1;
    }
    proof {
        assert(s@.skip(len as int) =~= Seq::<char>::empty());
    }
    if in_token {
        let tok = s.substring_char(start, len);
        out.push(String::from_str(tok));
        proof {
            let ghost cur: Seq<char> = s@.subrange(start as int, len as int);
            assert(out.deep_view() =~= out.deep_view().subrange(
                0,
                out.deep_view().len() - 1,
            ).push(cur));
        }
    }
    out
}

// ---- decimal numerals ----

pub open spec fn all_digits(s: Seq<char>) -> bool {
    forall|i: int| 0 <= i < s.len() ==> is_digit_char(s[i])
}

/// Value of a string of decimal digits, most significant first.
pub open spec fn dec_val(s: Seq<char>) -> int
    decreases s.len(),
{
    if s.len() == 0 {
        0
    } else {
        dec_val(s.drop_last()) * 10 + digit_val(s.last())
    }
}

pub open spec fn digit_char(d: int) -> char {
    (d + 48) as char
}

/// The digits of a decimal numeral: everything after one optional leading
/// `+`, which `str::parse` for unsigned integers also allows.
pub open spec fn spec_digits(s: Seq<char>) -> Seq<char> {
    if s.len() > 0 && s[0] == '+' {
        s.drop_first()
    } else {
        s
    }
}

/// Whether `s` is a decimal numeral worth at most `max`: one optional
/// leading `+`, then at least one digit, naming a value that fits.
pub open spec fn spec_numeral_ok(s: Seq<char>, max: int) -> bool {
    spec_digits(s).len() > 0 && all_digits(spec_digits(s)) && dec_val(spec_digits(s)) <= max
}

/// The value a decimal numeral names.
pub open spec fn spec_numeral_val(s: Seq<char>) -> int {
    dec_val(spec_digits(s))
}

/// Decimal numeral of `n`, without leading zeros (except for 0 itself).
pub open spec fn spec_dec(n: int) -> Seq<char>
    decreases n,
{
    if n < 10 {
        seq![digit_char(n)]
    } else {
        spec_dec(n / 10).push(digit_char(n % 10))
    }
}

pub proof fn lemma_dec_val_nonneg(s: Seq<char>)
    requires
        all_digits(s),
    ensures
        dec_val(s) >= 0,
    decreases s.len(),
{
    if s.len() > 0 {
        assert(all_digits(s.drop_last()));
        lemma_dec_val_nonneg(s.drop_last());
    }
}

/// A digit string is worth at least any of its prefixes.
pub proof fn lemma_dec_val_prefix(s: Seq<char>, k: int)
    requires
        all_digits(s),
        0 <= k <= s.len(),
    ensures
        dec_val(s.take(k)) <= dec_val(s),
    decreases s.len() - k,
{
    if k < s.len() {
        lemma_dec_val_prefix(s, k + 1);
        assert(s.take(k + 1).drop_last() =~= s.take(k));
        assert(all_digits(s.take(k)));
        lemma_dec_val_nonneg(s.take(k));
        assert(dec_val(s.take(k + 1)) == dec_val(s.take(k)) * 10 + digit_val(s.take(k + 1).last()));
    } else {
        assert(s.take(k) =~= s);
    }
}

/// Parses a non-negative decimal integer, allowing one leading `+` as
/// `str::parse` does; `None` when the digits are missing, a non-digit
/// appears, or the value is above `usize::MAX`.
pub fn parse_usize(s: &str) -> (r: Option<usize>)
    ensures
        r is Some <==> spec_numeral_ok(s@, usize::MAX as int),
        r matches Some(v) ==> v == spec_numeral_val(s@),
{
    let len = s.unicode_len();
    if len == 0 {
        return None;
    }
    let start: usize = if s.get_char(0) == '+' {
        1
    } else {
        0
    };
    if start == len {
        return None;
    }
    let ghost d = spec_digits(s@);
    proof {
        assert(d =~= s@.skip(start as int));
        assert(s@.subrange(start as int, start as int) =~= Seq::<char>::empty());
    }
    let mut acc: usize = 0;
    let mut i: usize = start;
    while i < len
        invariant
            len == s@.len(),
            start <= i <= len,
            start < len,
            d == s@.skip(start as int),
            d == spec_digits(s@),
            forall|j: int| start <= j < i ==> is_digit_char(s@[j]),
            acc == dec_val(s@.subrange(start as int, i as int)),
        decreases len - i,
    {
        let c = s.get_char(i);
        if c < '0' || c > '9' {
            proof {
                assert(d[i - start as int] == s@[i as int]);
            }
            return None;
        }
        let dv: u8 = (c as u8) - 48;
        proof {
            assert(s@.subrange(start as int, i as int + 1).drop_last() =~= s@.subrange(
                start as int,
                i as int,
            ));
            assert(s@.subrange(start as int, i as int + 1).last() == s@[i as int]);
        }
        if acc > (usize::MAX - dv as usize) / 10 {
            proof {
                let m = (usize::MAX - dv) as int;
                vstd::arithmetic::div_mod::lemma_fundamental_div_mod(m, 10);
                assert(acc * 10 + dv > usize::MAX);
                if all_digits(d) {
                    lemma_dec_val_prefix(d, i as int + 1 - start);
                    assert(d.take(i as int + 1 - start) =~= s@.subrange(
                        start as int,
                        i as int + 1,
                    ));
                }
            }
            return None;
        }
        acc = acc * 10 + dv as usize;
        i = i + 1;
    }
    proof {
        assert(s@.subrange(start as int, len as int) =~= d);
        assert(forall|j: int| 0 <= j < d.len() ==> d[j] == s@[j + start]);
    }
    Some(acc)
}

/// As `parse_usize`, bounded by `u16::MAX`; used for port numbers.
pub fn parse_u16(s: &str) -> (r: Option<u16>)
    ensures
        r is Some <==> spec_numeral_ok(s@, u16::MAX as int),
        r matches Some(v) ==> v == spec_numeral_val(s@),
{
    proof {
        if spec_numeral_ok(s@, u16::MAX as int) {
            lemma_dec_val_nonneg(spec_digits(s@));
        }
    }
    match parse_usize(s) {
        Some(v) => if v <= 65535 {
            Some(v as u16)
        } else {
            None
        },
        None => None,
    }
}

/// A decimal numeral names the number it was rendered from: digits only,
/// never empty, and reading it back gives the value.
pub proof fn lemma_dec_round_trip(n: int)
    requires
        n >= 0,
    ensures
        all_digits(spec_dec(n)),
        spec_dec(n).len() > 0,
        dec_val(spec_dec(n)) == n,
    decreases n,
{
    if n < 10 {
        assert(spec_dec(n) =~= seq![digit_char(n)]);
        assert(seq![digit_char(n)].drop_last() =~= Seq::<char>::empty());
        assert(is_digit_char(digit_char(n)));
        assert(dec_val(Seq::<char>::empty()) == 0);
        assert(seq![digit_char(n)].last() == digit_char(n));
        assert(dec_val(seq![digit_char(n)]) == dec_val(seq![digit_char(n)].drop_last()) * 10
            + digit_val(seq![digit_char(n)].last()));
        assert(dec_val(spec_dec(n)) == digit_val(digit_char(n)));
    } else {
        lemma_dec_round_trip(n / 10);
        vstd::arithmetic::div_mod::lemma_fundamental_div_mod(n, 10);
        let s = spec_dec(n);
        assert(s == spec_dec(n / 10).push(digit_char(n % 10)));
        assert(s.drop_last() =~= spec_dec(n / 10));
        assert(s.last() == digit_char(n % 10));
        assert(is_digit_char(digit_char(n % 10)));
        assert(all_digits(s));
        assert(dec_val(s) == dec_val(spec_dec(n / 10)) * 10 + digit_val(digit_char(n % 10)));
    }
}

fn digit_str(d: u8) -> (r: &'static str)
    requires
        d < 10,
    ensures
        r@ =~= seq![digit_char(d as int)],
{
    proof {
        reveal_strlit("0");
        reveal_strlit("1");
        reveal_strlit("2");
        reveal_strlit("3");
        reveal_strlit("4");
        reveal_strlit("5");
        reveal_strlit("6");
        reveal_strlit("7");
        reveal_strlit("8");
        reveal_strlit("9");
    }
    match d {
        0 => "0",
        1 => "1",
        2 => "2",
        3 => "3",
        4 => "4",
        5 => "5",
        6 => "6",
        7 => "7",
        8 => "8",
        _ => "9",
    }
}

/// Renders `n` as its decimal numeral.
pub fn usize_to_string(n: usize) -> (r: String)
    ensures
        r@ == spec_dec(n as int),
    decreases n,
{
    if n < 10 {
        String::from_str(digit_str(n as u8))
    } else {
        let mut front = usize_to_string(n / 10);
        front.append(digit_str((n % 10) as u8));
        proof {
            assert(spec_dec(n as int) =~= spec_dec(n as int / 10) + seq![
                digit_char(n as int % 10),
            ]);
        }
        front
    }
}

} // verus!
