//! Character-level text handling: whitespace, trimming, splitting, decimal
//! numbers and substring search, each against its own specification.

use vstd::prelude::*;

verus! {

/// `char::is_whitespace`: the Unicode `White_Space` property.
pub open spec fn is_ws(c: char) -> bool {
    ||| ('\u{9}' <= c && c <= '\u{d}')
    ||| c == ' '
    ||| c == '\u{85}'
    ||| c == '\u{a0}'
    ||| c == '\u{1680}'
    ||| ('\u{2000}' <= c && c <= '\u{200a}')
    ||| c == '\u{2028}'
    ||| c == '\u{2029}'
    ||| c == '\u{202f}'
    ||| c == '\u{205f}'
    ||| c == '\u{3000}'
}

pub fn is_whitespace(c: char) -> (b: bool)
    ensures
        b == is_ws(c),
{
    ('\u{9}' <= c && c <= '\u{d}') || c == ' ' || c == '\u{85}' || c == '\u{a0}' || c == '\u{1680}'
        || ('\u{2000}' <= c && c <= '\u{200a}') || c == '\u{2028}' || c == '\u{2029}' || c
        == '\u{202f}' || c == '\u{205f}' || c == '\u{3000}'
}

/// The characters of a string, one by one.
pub fn chars_of(s: &str) -> (v: Vec<char>)
    ensures
        v@ == s@,
{
    let n = s.unicode_len();
    let mut v: Vec<char> = Vec::new();
    let mut i: usize = 0;
    while i < n
        invariant
            n == s@.len(),
            i <= n,
            v@ == s@.take(i as int),
        decreases n - i,
    {
        let c = s.get_char(i);
        v.push(c);
        assert(s@.take(i + 1) == s@.take(i as int).push(c));
        i = i + 1;
    }
    assert(s@.take(n as int) == s@);
    v
}

// ── trimming ────────────────────────────────────────────────────────────────

pub open spec fn trim_start(s: Seq<char>) -> Seq<char>
    decreases s.len(),
{
    if s.len() > 0 && is_ws(s[0]) {
        trim_start(s.drop_first())
    } else {
        s
    }
}

pub open spec fn trim_end(s: Seq<char>) -> Seq<char>
    decreases s.len(),
{
    if s.len() > 0 && is_ws(s.last()) {
        trim_end(s.drop_last())
    } else {
        s
    }
}

/// `str::trim`: leading and trailing whitespace removed.
pub open spec fn trim(s: Seq<char>) -> Seq<char> {
    trim_end(trim_start(s))
}

/// Returns `s` without leading and trailing whitespace.
pub fn trimmed(s: &str) -> (r: String)
    ensures
        r@ == trim(s@),
{
    let v = chars_of(s);
    let n = v.len();
    let mut i: usize = 0;
    assert(s@.subrange(0, n as int) == s@);
    while i < n && is_whitespace(v[i])
        invariant
            v@ == s@,
            n == v@.len(),
            i <= n,
            trim_start(s@) == trim_start(s@.subrange(i as int, n as int)),
        decreases n - i,
    {
        assert(s@.subrange(i as int, n as int).drop_first() == s@.subrange(i + 1, n as int));
        i = i + 1;
    }
    assert(trim_start(s@) == s@.subrange(i as int, n as int));
    let mut j: usize = n;
    while j > i && is_whitespace(v[j - 1])
        invariant
            v@ == s@,
            n == v@.len(),
            i <= j <= n,
            trim(s@) == trim_end(s@.subrange(i as int, j as int)),
        decreases j,
    {
        assert(s@.subrange(i as int, j as int).drop_last() == s@.subrange(i as int, j - 1));
        j = j - 1;
    }
    s.substring_char(i, j).to_string()
}

// ── splitting on whitespace ─────────────────────────────────────────────────

/// Scanning `s` with the word `cur` pending: the words still to come.
pub open spec fn words_from(s: Seq<char>, cur: Seq<char>) -> Seq<Seq<char>>
    decreases s.len(),
{
    let pending = if cur.len() > 0 {
        seq![cur]
    } else {
        Seq::<Seq<char>>::empty()
    };
    if s.len() == 0 {
        pending
    } else if is_ws(s[0]) {
        pending + words_from(s.drop_first(), Seq::<char>::empty())
    } else {
        words_from(s.drop_first(), cur.push(s[0]))
    }
}

/// `str::split_whitespace`: the maximal non-empty runs of non-whitespace.
pub open spec fn words(s: Seq<char>) -> Seq<Seq<char>> {
    words_from(s, Seq::<char>::empty())
}

/// The whitespace-separated words of `s`, in order.
pub fn split_whitespace(s: &str) -> (r: Vec<String>)
    ensures
        r@.len() == words(s@).len(),
        forall|k: int| 0 <= k < r@.len() ==> #[trigger] r@[k]@ == words(s@)[k],
{
    let v = chars_of(s);
    let n = v.len();
    let mut out: Vec<String> = Vec::new();
    let ghost mut out_view: Seq<Seq<char>> = Seq::empty();
    let mut start: usize = 0;
    let mut i: usize = 0;
    assert(s@.subrange(0, n as int) == s@);
    assert(s@.subrange(0, 0) == Seq::<char>::empty());
    assert(out_view + words(s@) == words(s@));
    while i < n
        invariant
            v@ == s@,
            n == v@.len(),
            start <= i <= n,
            out@.len() == out_view.len(),
            forall|k: int| 0 <= k < out@.len() ==> #[trigger] out@[k]@ == out_view[k],
            words(s@) == out_view + words_from(
                s@.subrange(i as int, n as int),
                s@.subrange(start as int, i as int),
            ),
        decreases n - i,
    {
        let ghost rest = s@.subrange(i as int, n as int);
        let ghost cur = s@.subrange(start as int, i as int);
        assert(rest.drop_first() == s@.subrange(i + 1, n as int));
        if is_whitespace(v[i]) {
            if start < i {
                let w = s.substring_char(start, i).to_string();
                out.push(w);
                proof {
                    out_view = out_view.push(cur);
                }
            }
            assert(s@.subrange(i + 1, i + 1) == Seq::<char>::empty());
            i = i + 1;
            start = i;
        } else {
            assert(s@.subrange(start as int, i + 1) == cur.push(s@[i as int]));
            i = i + 1;
        }
    }
    if start < n {
        let w = s.substring_char(start, n).to_string();
        out.push(w);
        proof {
            out_view = out_view.push(s@.subrange(start as int, n as int));
        }
    }
    assert(words(s@) == out_view);
    out
}

// ── decimal numbers ─────────────────────────────────────────────────────────

pub open spec fn is_digit(c: char) -> bool {
    '0' <= c && c <= '9'
}

pub open spec fn digit_value(c: char) -> nat {
    (c as int - '0' as int) as nat
}

/// The number a sequence of decimal digits denotes.
pub open spec fn digits_value(s: Seq<char>) -> nat
    decreases s.len(),
{
    if s.len() == 0 {
        0
    } else {
        digits_value(s.drop_last()) * 10 + digit_value(s.last())
    }
}

/// What follows an optional leading `+`.
pub open spec fn unsigned_body(s: Seq<char>) -> Seq<char> {
    if s.len() > 0 && s[0] == '+' {
        s.drop_first()
    } else {
        s
    }
}

/// `u64::from_str`: an optional `+`, then one or more ASCII digits whose
/// value fits in 64 bits.
pub open spec fn parse_u64(s: Seq<char>) -> Option<u64> {
    let body = unsigned_body(s);
    if body.len() > 0 && (forall|k: int| 0 <= k < body.len() ==> is_digit(#[trigger] body[k]))
        && digits_value(body) <= u64::MAX {
        Some(digits_value(body) as u64)
    } else {
        None
    }
}

proof fn lemma_digits_value_grows(s: Seq<char>, c: char)
    requires
        is_digit(c),
    ensures
        digits_value(s.push(c)) == digits_value(s) * 10 + digit_value(c),
        digits_value(s.push(c)) >= digits_value(s),
{
    assert(s.push(c).drop_last() == s);
}

proof fn lemma_digits_value_prefix_bound(s: Seq<char>, i: int)
    requires
        0 <= i <= s.len(),
        forall|k: int| 0 <= k < s.len() ==> is_digit(#[trigger] s[k]),
    ensures
        digits_value(s.take(i)) <= digits_value(s),
    decreases s.len() - i,
{
    if i < s.len() {
        lemma_digits_value_prefix_bound(s, i + 1);
        assert(s.take(i + 1) == s.take(i).push(s[i]));
        lemma_digits_value_grows(s.take(i), s[i]);
    } else {
        assert(s.take(i) == s);
    }
}

/// Parses a decimal `u64` exactly as `u64::from_str` accepts it.
pub fn parse_u64_str(s: &str) -> (r: Option<u64>)
    ensures
        r == parse_u64(s@),
{
    let v = chars_of(s);
    let n = v.len();
    let mut i: usize = 0;
    if n > 0 && v[0] == '+' {
        i = 1;
    }
    let ghost body = unsigned_body(s@);
    assert(body == s@.subrange(i as int, n as int));
    if i == n {
        return None;
    }
    let mut acc: u64 = 0;
    let mut j: usize = i;
    assert(s@.subrange(i as int, i as int) == Seq::<char>::empty());
    while j < n
        invariant
            v@ == s@,
            n == v@.len(),
            i <= j <= n,
            i < n,
            body == s@.subrange(i as int, n as int),
            body == unsigned_body(s@),
            forall|k: int| i <= k < j ==> is_digit(#[trigger] s@[k]),
            acc == digits_value(s@.subrange(i as int, j as int)),
        decreases n - j,
    {
        let c = v[j];
        if !('0' <= c && c <= '9') {
            assert(body[j - i] == c);
            assert(!is_digit(body[j - i]));
            return None;
        }
        let d = (c as u32 - '0' as u32) as u64;
        assert(s@.subrange(i as int, j + 1) == s@.subrange(i as int, j as int).push(c));
        proof {
            lemma_digits_value_grows(s@.subrange(i as int, j as int), c);
        }
        if acc > (u64::MAX - d) / 10 {
            assert(acc * 10 + d > u64::MAX) by (nonlinear_arith)
                requires
                    acc > (u64::MAX - d) / 10,
                    d < 10,
            ;
            proof {
                assert(forall|k: int| 0 <= k < j + 1 - i ==> is_digit(#[trigger] s@.subrange(i as int, j + 1)[k]));
                if forall|k: int| 0 <= k < body.len() ==> is_digit(#[trigger] body[k]) {
                    lemma_digits_value_prefix_bound(body, j + 1 - i);
                    assert(body.take(j + 1 - i) == s@.subrange(i as int, j + 1));
                }
            }
            return None;
        }
        acc = acc * 10 + d;
        j = j + 1;
    }
    assert(s@.subrange(i as int, n as int) == body);
    Some(acc)
}

/// The decimal digit character of a value below ten.
pub open spec fn digit_char(d: nat) -> char {
    (d + '0' as nat) as char
}

/// The decimal representation of `n` (no sign, no leading zeros).
pub open spec fn decimal(n: nat) -> Seq<char>
    decreases n,
{
    if n < 10 {
        seq![digit_char(n)]
    } else {
        decimal(n / 10).push(digit_char(n % 10))
    }
}

proof fn lemma_decimal_digits(n: nat)
    ensures
        decimal(n).len() > 0,
        forall|k: int| 0 <= k < decimal(n).len() ==> is_digit(#[trigger] decimal(n)[k]),
        digits_value(decimal(n)) == n,
    decreases n,
{
    let c = digit_char(n % 10);
    assert(digit_value(c) == n % 10);
    if n < 10 {
        let d = decimal(n);
        assert(d.drop_last() =~= Seq::<char>::empty());
        assert(n % 10 == n);
        assert(digits_value(d) == digits_value(d.drop_last()) * 10 + digit_value(d.last()));
    } else {
        lemma_decimal_digits(n / 10);
        let d = decimal(n);
        assert(d.drop_last() =~= decimal(n / 10));
        assert(d.last() == c);
        assert(digits_value(d) == digits_value(decimal(n / 10)) * 10 + digit_value(c));
        assert((n / 10) * 10 + n % 10 == n);
        assert forall|k: int| 0 <= k < d.len() implies is_digit(#[trigger] d[k]) by {
            if k < d.len() - 1 {
                assert(d[k] == decimal(n / 10)[k]);
            }
        }
    }
}

/// Reading the decimal of `n` back as a `u64` gives `n`.
pub proof fn lemma_parse_decimal(n: nat)
    requires
        n <= u64::MAX,
    ensures
        parse_u64(decimal(n)) == Some(n as u64),
{
    lemma_decimal_digits(n);
    assert(is_digit(decimal(n)[0]));
    assert(unsigned_body(decimal(n)) == decimal(n));
}

fn digit_str(d: u64) -> (s: &'static str)
    requires
        d < 10,
    ensures
        s@ == seq![digit_char(d as nat)],
{
    proof {
        reveal_strlit("0");
        reveal_strlit("1");
        reveal_strlit("2");
        reveal_strlit("3");
        reveal_strlit("4");
        reveal_strlit("5");
        reveal_strlit("6");
        reveal_strlit("7");
        reveal_strlit("8");
        reveal_strlit("9");
    }
    if d == 0 {
        "0"
    } else if d == 1 {
        "1"
    } else if d == 2 {
        "2"
    } else if d == 3 {
        "3"
    } else if d == 4 {
        "4"
    } else if d == 5 {
        "5"
    } else if d == 6 {
        "6"
    } else if d == 7 {
        "7"
    } else if d == 8 {
        "8"
    } else {
        "9"
    }
}

/// `n` written in decimal, as `to_string` prints an unsigned integer.
pub fn decimal_string(n: u64) -> (s: String)
    ensures
        s@ == decimal(n as nat),
    decreases n,
{
    if n < 10 {
        String::from_str(digit_str(n))
    } else {
        let mut s = decimal_string(n / 10);
        s.append(digit_str(n % 10));
        s
    }
}

// ── substring search ────────────────────────────────────────────────────────

/// `needle` occurs somewhere in `hay`.
pub open spec fn contains_seq(hay: Seq<char>, needle: Seq<char>) -> bool {
    exists|i: int|
        0 <= i && i + needle.len() <= hay.len() && #[trigger] hay.subrange(i, i + needle.len())
            == needle
}

/// `str::contains` for a string pattern.
pub fn contains_str(hay: &str, needle: &str) -> (b: bool)
    ensures
        b == contains_seq(hay@, needle@),
{
    let h = chars_of(hay);
    let p = chars_of(needle);
    let hn = h.len();
    let pn = p.len();
    if pn > hn {
        return false;
    }
    let mut i: usize = 0;
    while i <= hn - pn
        invariant
            h@ == hay@,
            p@ == needle@,
            hn == h@.len(),
            pn == p@.len(),
            pn <= hn,
            i <= hn - pn + 1,
            forall|k: int| 0 <= k < i ==> #[trigger] hay@.subrange(k, k + pn) != needle@,
        decreases hn - pn + 1 - i,
    {
        let mut j: usize = 0;
        while j < pn && h[i + j] == p[j]
            invariant
                h@ == hay@,
                p@ == needle@,
                hn == h@.len(),
                pn == p@.len(),
                i + pn <= hn,
                j <= pn,
                forall|k: int| 0 <= k < j ==> h@[i + k] == p@[k],
            decreases pn - j,
        {
            j = j + 1;
        }
        if j == pn {
            assert(hay@.subrange(i as int, i + pn) == needle@);
            return true;
        }
        assert(hay@.subrange(i as int, i + pn)[j as int] != needle@[j as int]);
        i = i + 1;
    }
    proof {
        assert forall|k: int|
            0 <= k && k + needle@.len() <= hay@.len() implies #[trigger] hay@.subrange(
            k,
            k + needle@.len(),
        ) != needle@ by {
            assert(k < i);
        }
    }
    false
}

} // verus!

verus! {

/// The result of `str::to_lowercase`: the Unicode lowercase mapping of `s`.
pub uninterp spec fn lowercase(s: Seq<char>) -> Seq<char>;

/// Calls `str::to_lowercase`; the result is named `lowercase` of the input.
#[verifier::external_body]
pub(crate) fn to_lowercase(s: &str) -> (r: String)
    ensures
        r@ == lowercase(s@),
{
    s.to_lowercase()
}

/// The character view of an optional string.
pub open spec fn opt_view(o: Option<String>) -> Option<Seq<char>> {
    match o {
        Some(s) => Some(s@),
        None => None,
    }
}

} // verus!

verus! {

/// Scanning `s` with the segment `cur` pending: the `\n`-separated segments.
pub open spec fn segments_from(s: Seq<char>, cur: Seq<char>) -> Seq<Seq<char>>
    decreases s.len(),
{
    if s.len() == 0 {
        seq![cur]
    } else if s[0] == '\n' {
        seq![cur] + segments_from(s.drop_first(), Seq::<char>::empty())
    } else {
        segments_from(s.drop_first(), cur.push(s[0]))
    }
}

/// The pieces of `s` between line feeds (a trailing line feed leaves a final
/// empty piece).
pub open spec fn segments(s: Seq<char>) -> Seq<Seq<char>> {
    segments_from(s, Seq::<char>::empty())
}

/// Splits `s` at every line feed.
pub fn split_lines(s: &str) -> (r: Vec<String>)
    ensures
        r@.len() == segments(s@).len(),
        forall|k: int| 0 <= k < r@.len() ==> #[trigger] r@[k]@ == segments(s@)[k],
{
    let v = chars_of(s);
    let n = v.len();
    let mut out: Vec<String> = Vec::new();
    let ghost mut out_view: Seq<Seq<char>> = Seq::empty();
    let mut start: usize = 0;
    let mut i: usize = 0;
    assert(s@.subrange(0, n as int) == s@);
    assert(s@.subrange(0, 0) == Seq::<char>::empty());
    assert(out_view + segments(s@) == segments(s@));
    while i < n
        invariant
            v@ == s@,
            n == v@.len(),
            start <= i <= n,
            out@.len() == out_view.len(),
            forall|k: int| 0 <= k < out@.len() ==> #[trigger] out@[k]@ == out_view[k],
            segments(s@) == out_view + segments_from(
                s@.subrange(i as int, n as int),
                s@.subrange(start as int, i as int),
            ),
        decreases n - i,
    {
        let ghost rest = s@.subrange(i as int, n as int);
        let ghost cur = s@.subrange(start as int, i as int);
        assert(rest.drop_first() == s@.subrange(i + 1, n as int));
        if v[i] == '\n' {
            let w = s.substring_char(start, i).to_string();
            out.push(w);
            proof {
                out_view = out_view.push(cur);
            }
            assert(s@.subrange(i + 1, i + 1) == Seq::<char>::empty());
            i = i + 1;
            start = i;
        } else {
            assert(s@.subrange(start as int, i + 1) == cur.push(s@[i as int]));
            i = i + 1;
        }
    }
    let w = s.substring_char(start, n).to_string();
    out.push(w);
    proof {
        out_view = out_view.push(s@.subrange(start as int, n as int));
        assert(s@.subrange(n as int, n as int) == Seq::<char>::empty());
    }
    assert(segments(s@) == out_view);
    out
}

/// The text `String::from_utf8_lossy` makes of `bytes`: valid UTF-8 decoded,
/// each invalid sequence replaced by U+FFFD.
pub uninterp spec fn utf8_lossy(bytes: Seq<u8>) -> Seq<char>;

/// Calls `String::from_utf8_lossy`. Valid UTF-8 comes back as the text it
/// encodes; for other input the result is named `utf8_lossy` of the bytes.
#[verifier::external_body]
pub(crate) fn from_utf8_lossy(bytes: &[u8]) -> (r: String)
    ensures
        r@ == utf8_lossy(bytes@),
        vstd::utf8::valid_utf8(bytes@) ==> r@ == vstd::utf8::decode_utf8(bytes@),
{
    String::from_utf8_lossy(bytes).into_owned()
}


/// `n` written in decimal with a leading `-` when negative.
pub open spec fn signed_decimal(n: int) -> Seq<char> {
    if n < 0 {
        "-"@ + decimal((-n) as nat)
    } else {
        decimal(n as nat)
    }
}

/// `n` written in decimal, as `to_string` prints a signed integer.
pub fn signed_decimal_string(n: i64) -> (s: String)
    ensures
        s@ == signed_decimal(n as int),
{
    if n < 0 {
        let magnitude: u64 = if n == i64::MIN {
            9223372036854775808u64
        } else {
            (-n) as u64
        };
        let mut s = String::from_str("-");
        let d = decimal_string(magnitude);
        s.append(d.as_str());
        s
    } else {
        decimal_string(n as u64)
    }
}

} // verus!
