//! Text helpers: views of optional strings and string lists, comparison, trimming,
//! decimal numbers, and splitting a `host:port` address.

use vstd::prelude::*;
use vstd::string::*;

verus! {

/// The text of an optional string.
pub open spec fn opt_view(o: Option<String>) -> Option<Seq<char>> {
    match o {
        Some(s) => Some(s@),
        None => None,
    }
}

/// The texts of a list of strings.
pub open spec fn texts_view(v: Seq<String>) -> Seq<Seq<char>> {
    v.map_values(|s: String| s@)
}

/// Copies an optional string.
pub fn copy_opt(o: &Option<String>) -> (r: Option<String>)
    ensures
        opt_view(r) == opt_view(*o),
{
    match o {
        Some(s) => Some(s.clone()),
        None => None,
    }
}

/// Whether two texts are equal, compared character by character.
pub fn same_text(a: &str, b: &str) -> (r: bool)
    ensures
        r == (a@ == b@),
{
    let n = a.unicode_len();
    if n != b.unicode_len() {
        return false;
    }
    let mut i: usize = 0;
    while i < n
        invariant
            n == a@.len(),
            n == b@.len(),
            i <= n,
            forall|k: int| 0 <= k < i ==> a@[k] == b@[k],
        decreases n - i,
    {
        if a.get_char(i) != b.get_char(i) {
            return false;
        }
        i = i + 1;
    }
    assert(a@ =~= b@);
    true
}

/// Whether `c` is whitespace in Unicode's `White_Space` property, which is what `str::trim`
/// removes: U+0009 to U+000D, U+0020, U+0085, U+00A0, U+1680, U+2000 to U+200A, U+2028,
/// U+2029, U+202F, U+205F and U+3000.
pub open spec fn is_white_space(c: char) -> bool {
    ||| ('\u{9}' <= c && c <= '\u{d}')
    ||| c == ' '
    ||| c == '\u{85}'
    ||| c == '\u{a0}'
    ||| c == '\u{1680}'
    ||| ('\u{2000}' <= c && c <= '\u{200a}')
    ||| c == '\u{2028}'
    ||| c == '\u{2029}'
    ||| c == '\u{202f}'
    ||| c == '\u{205f}'
    ||| c == '\u{3000}'
}

/// `text` without its leading whitespace.
pub open spec fn trim_start_text(text: Seq<char>) -> Seq<char>
    decreases text.len(),
{
    if text.len() > 0 && is_white_space(text[0]) {
        trim_start_text(text.skip(1))
    } else {
        text
    }
}

/// `text` without its trailing whitespace.
pub open spec fn trim_end_text(text: Seq<char>) -> Seq<char>
    decreases text.len(),
{
    if text.len() > 0 && is_white_space(text.last()) {
        trim_end_text(text.drop_last())
    } else {
        text
    }
}

/// `text` without its leading and trailing whitespace, as `str::trim` leaves it.
pub open spec fn trimmed(text: Seq<char>) -> Seq<char> {
    trim_end_text(trim_start_text(text))
}

proof fn lemma_trim_start(t: Seq<char>)
    ensures
        exists|k: int|
            0 <= k <= t.len() && #[trigger] t.skip(k) == trim_start_text(t) && forall|i: int|
                0 <= i < k ==> is_white_space(t[i]),
        trim_start_text(t).len() > 0 ==> !is_white_space(trim_start_text(t)[0]),
    decreases t.len(),
{
    if t.len() > 0 && is_white_space(t[0]) {
        lemma_trim_start(t.skip(1));
        let k = choose|k: int|
            0 <= k <= t.skip(1).len() && #[trigger] t.skip(1).skip(k) == trim_start_text(t.skip(1))
                && forall|i: int| 0 <= i < k ==> is_white_space(t.skip(1)[i]);
        assert(t.skip(1).skip(k) =~= t.skip(k + 1));
        assert forall|i: int| 0 <= i < k + 1 implies is_white_space(t[i]) by {
            if i > 0 {
                assert(t[i] == t.skip(1)[i - 1]);
            }
        }
    } else {
        assert(t.skip(0) =~= t);
    }
}

proof fn lemma_trim_end(t: Seq<char>)
    ensures
        exists|k: int|
            0 <= k <= t.len() && #[trigger] t.take(k) == trim_end_text(t) && forall|i: int|
                k <= i < t.len() ==> is_white_space(t[i]),
        trim_end_text(t).len() > 0 ==> !is_white_space(trim_end_text(t).last()),
    decreases t.len(),
{
    if t.len() > 0 && is_white_space(t.last()) {
        lemma_trim_end(t.drop_last());
        let k = choose|k: int|
            0 <= k <= t.drop_last().len() && #[trigger] t.drop_last().take(k) == trim_end_text(
                t.drop_last(),
            ) && forall|i: int| k <= i < t.drop_last().len() ==> is_white_space(t.drop_last()[i]);
        assert(t.drop_last().take(k) =~= t.take(k));
        assert forall|i: int| k <= i < t.len() implies is_white_space(t[i]) by {
            if i < t.len() - 1 {
                assert(t[i] == t.drop_last()[i]);
            }
        }
    } else {
        assert(t.take(t.len() as int) =~= t);
    }
}

/// Trimming removes whitespace from both ends and nothing else: the text is some whitespace,
/// then the trimmed text, then some whitespace, and the trimmed text neither starts nor ends
/// with whitespace.
pub proof fn law_trim_removes_only_edge_white_space(t: Seq<char>)
    ensures
        trimmed(t).len() > 0 ==> !is_white_space(trimmed(t)[0]) && !is_white_space(
            trimmed(t).last(),
        ),
        exists|i: int, j: int|
            0 <= i <= j <= t.len() && #[trigger] t.subrange(i, j) == trimmed(t) && (forall|k: int|
                0 <= k < i ==> is_white_space(t[k])) && (forall|k: int|
                j <= k < t.len() ==> is_white_space(t[k])),
{
    lemma_trim_start(t);
    let s = trim_start_text(t);
    let i = choose|k: int|
        0 <= k <= t.len() && #[trigger] t.skip(k) == s && forall|m: int|
            0 <= m < k ==> is_white_space(t[m]);
    lemma_trim_end(s);
    let j = choose|k: int|
        0 <= k <= s.len() && #[trigger] s.take(k) == trim_end_text(s) && forall|m: int|
            k <= m < s.len() ==> is_white_space(s[m]);
    assert(t.subrange(i, i + j) =~= trimmed(t));
    assert forall|k: int| i + j <= k < t.len() implies is_white_space(t[k]) by {
        assert(t[k] == s[k - i]);
    }
    if trimmed(t).len() > 0 {
        assert(trimmed(t)[0] == s[0]);
    }
}

fn white_space(c: char) -> (r: bool)
    ensures
        r == is_white_space(c),
{
    ('\u{9}' <= c && c <= '\u{d}') || c == ' ' || c == '\u{85}' || c == '\u{a0}' || c == '\u{1680}'
        || ('\u{2000}' <= c && c <= '\u{200a}') || c == '\u{2028}' || c == '\u{2029}' || c
        == '\u{202f}' || c == '\u{205f}' || c == '\u{3000}'
}

/// `text` without leading and trailing whitespace (see `trimmed`); it is a contiguous part
/// of `text`.
pub fn trim_text(text: &str) -> (r: &str)
    ensures
        r@ == trimmed(text@),
        exists|i: int, j: int| 0 <= i <= j <= text@.len() && r@ == text@.subrange(i, j),
{
    let len = text.unicode_len();
    let mut start: usize = 0;
    assert(text@.skip(0) =~= text@);
    while start < len && white_space(text.get_char(start))
        invariant
            start <= len,
            len == text@.len(),
            trim_start_text(text@) == trim_start_text(text@.skip(start as int)),
        decreases len - start,
    {
        assert(text@.skip(start as int).skip(1) =~= text@.skip(start + 1));
        start = start + 1;
    }
    assert(trim_start_text(text@) == text@.skip(start as int)) by {
        if start < len {
            assert(text@.skip(start as int)[0] == text@[start as int]);
        }
    }
    let mut end: usize = len;
    while end > start && white_space(text.get_char(end - 1))
        invariant
            start <= end <= len,
            len == text@.len(),
            trimmed(text@) == trim_end_text(text@.subrange(start as int, end as int)),
        decreases end,
    {
        assert(text@.subrange(start as int, end as int).drop_last() =~= text@.subrange(
            start as int,
            end - 1,
        ));
        end = end - 1;
    }
    assert(trimmed(text@) == text@.subrange(start as int, end as int)) by {
        let rest = text@.subrange(start as int, end as int);
        if end > start {
            assert(rest.last() == text@[end - 1]);
        }
        assert(text@.skip(start as int).subrange(0, (len - start) as int) =~= text@.skip(
            start as int,
        ));
        assert(text@.skip(start as int) =~= text@.subrange(start as int, len as int));
    }
    text.substring_char(start, end)
}

/// The character that stands for the decimal digit `d`.
pub open spec fn digit_char(d: nat) -> char {
    (d + 48) as char
}

/// Whether `c` is one of the ASCII digits `0` to `9`.
pub open spec fn is_digit(c: char) -> bool {
    '0' <= c && c <= '9'
}

/// The shortest decimal representation of `n`, without sign.
pub open spec fn decimal(n: nat) -> Seq<char>
    decreases n,
{
    if n < 10 {
        seq![digit_char(n)]
    } else {
        decimal(n / 10).push(digit_char(n % 10))
    }
}

/// The decimal representation of `n`, with a leading `-` when `n` is negative.
pub open spec fn signed_decimal(n: int) -> Seq<char> {
    if n < 0 {
        seq!['-'] + decimal((-n) as nat)
    } else {
        decimal(n as nat)
    }
}

fn digit_text(d: u64) -> (r: &'static str)
    requires
        d < 10,
    ensures
        r@ == seq![digit_char(d as nat)],
{
    proof {
        reveal_strlit("0");
        reveal_strlit("1");
        reveal_strlit("2");
        reveal_strlit("3");
        reveal_strlit("4");
        reveal_strlit("5");
        reveal_strlit("6");
        reveal_strlit("7");
        reveal_strlit("8");
        reveal_strlit("9");
    }
    if d == 0 {
        "0"
    } else if d == 1 {
        "1"
    } else if d == 2 {
        "2"
    } else if d == 3 {
        "3"
    } else if d == 4 {
        "4"
    } else if d == 5 {
        "5"
    } else if d == 6 {
        "6"
    } else if d == 7 {
        "7"
    } else if d == 8 {
        "8"
    } else {
        "9"
    }
}

/// Appends the decimal representation of `n` to `out`.
pub fn push_decimal(out: &mut String, n: u64)
    ensures
        final(out)@ == old(out)@ + decimal(n as nat),
    decreases n,
{
    let ghost start = out@;
    if n >= 10 {
        push_decimal(out, n / 10);
    }
    out.append(digit_text(n % 10));
    assert(out@ =~= start + decimal(n as nat));
}

/// Appends the decimal representation of `n`, with a `-` in front when it is negative.
pub fn push_signed_decimal(out: &mut String, n: i32)
    ensures
        final(out)@ == old(out)@ + signed_decimal(n as int),
{
    if n < 0 {
        let ghost start = out@;
        out.append("-");
        let magnitude: i64 = -(n as i64);
        push_decimal(out, magnitude as u64);
        proof {
            reveal_strlit("-");
            assert(out@ =~= start + signed_decimal(n as int));
        }
    } else {
        push_decimal(out, n as u64);
    }
}

/// The value of a sequence of decimal digits, most significant first (0 when empty).
pub open spec fn digits_value(s: Seq<char>) -> nat
    decreases s.len(),
{
    if s.len() == 0 {
        0
    } else {
        digits_value(s.drop_last()) * 10 + ((s.last() as int - 48) as nat)
    }
}

/// Whether every character of `s` is an ASCII digit.
pub open spec fn all_digits(s: Seq<char>) -> bool {
    forall|i: int| 0 <= i < s.len() ==> #[trigger] is_digit(s[i])
}

/// The digits that follow an optional leading `+`.
pub open spec fn unsigned_digits(s: Seq<char>) -> Seq<char> {
    if s.len() > 0 && s[0] == '+' {
        s.skip(1)
    } else {
        s
    }
}

/// What reading `s` as a port number gives: an optional `+`, then one or more ASCII digits
/// whose value fits in 16 bits, as `u16::from_str` reads it; `None` for anything else.
pub open spec fn port_number(s: Seq<char>) -> Option<u16> {
    let digits = unsigned_digits(s);
    if digits.len() > 0 && all_digits(digits) && digits_value(digits) <= 65535 {
        Some(digits_value(digits) as u16)
    } else {
        None
    }
}

/// Reads `s` as a port number (see `port_number`).
pub fn parse_port(s: &str) -> (r: Option<u16>)
    ensures
        r == port_number(s@),
{
    let len = s.unicode_len();
    let mut start: usize = 0;
    if len > 0 && s.get_char(0) == '+' {
        start = 1;
    }
    let ghost digits = unsigned_digits(s@);
    assert(digits =~= s@.subrange(start as int, len as int));
    if start >= len {
        return None;
    }
    let mut value: u32 = 0;
    let mut too_large = false;
    let mut i: usize = start;
    while i < len
        invariant
            start <= i <= len,
            len == s@.len(),
            digits == s@.subrange(start as int, len as int),
            digits == unsigned_digits(s@),
            all_digits(digits.take(i - start)),
            too_large ==> digits_value(digits.take(i - start)) > 65535,
            !too_large ==> value == digits_value(digits.take(i - start)),
            value <= 65535,
        decreases len - i,
    {
        let c = s.get_char(i);
        if c < '0' || c > '9' {
            assert(digits[i - start] == c);
            assert(!is_digit(digits[i - start]));
            assert(!all_digits(digits));
            return None;
        }
        let ghost prefix = digits.take(i - start);
        let ghost next = digits.take(i + 1 - start);
        assert(next.drop_last() =~= prefix);
        assert(next.last() == c);
        let d: u32 = (c as u32) - 48;
        if !too_large {
            let v = value * 10 + d;
            if v > 65535 {
                too_large = true;
            } else {
                value = v;
            }
        }
        assert(all_digits(next)) by {
            assert forall|k: int| 0 <= k < next.len() implies #[trigger] is_digit(next[k]) by {
                if k < prefix.len() {
                    assert(next[k] == prefix[k]);
                }
            }
        }
        i = i + 1;
    }
    assert(digits.take(len - start) =~= digits);
    if too_large {
        None
    } else {
        Some(value as u16)
    }
}

/// The position of the last `c` in `s`, or -1 when `c` does not occur.
pub open spec fn last_index_of(s: Seq<char>, c: char) -> int
    decreases s.len(),
{
    if s.len() == 0 {
        -1
    } else if s.last() == c {
        s.len() - 1
    } else {
        last_index_of(s.drop_last(), c)
    }
}

/// How an address `host[:port]` is split: at its last `:` when the text after it reads as a
/// port number, into the part before it and that port; otherwise the whole text and no port.
pub open spec fn host_and_port(raw: Seq<char>) -> (Seq<char>, Option<u16>) {
    let i = last_index_of(raw, ':');
    if i >= 0 && port_number(raw.skip(i + 1)) is Some {
        (raw.take(i), port_number(raw.skip(i + 1)))
    } else {
        (raw, None)
    }
}

/// An address joined back from a host and an optional port: `host:port`, or the host alone.
pub open spec fn joined_address(host: Seq<char>, port: Option<u16>) -> Seq<char> {
    match port {
        Some(p) => host + seq![':'] + decimal(p as nat),
        None => host,
    }
}

/// Splits an address `host[:port]` (see `host_and_port`).
pub fn split_host_port(raw: &str) -> (r: (String, Option<u16>))
    ensures
        (r.0@, r.1) == host_and_port(raw@),
{
    let len = raw.unicode_len();
    let mut i: usize = len;
    while i > 0
        invariant
            i <= len,
            len == raw@.len(),
            forall|k: int| i <= k < len ==> raw@[k] != ':',
        ensures
            i <= len,
            forall|k: int| i <= k < len ==> raw@[k] != ':',
            i > 0 ==> raw@[i - 1] == ':',
        decreases i,
    {
        if raw.get_char(i - 1) == ':' {
            break;
        }
        i = i - 1;
    }
    proof {
        lemma_last_index_of_is(raw@, ':', i as int - 1);
    }
    if i > 0 {
        let tail = raw.substring_char(i, len);
        assert(tail@ =~= raw@.skip(i as int));
        match parse_port(tail) {
            Some(port) => {
                let head = raw.substring_char(0, i - 1);
                assert(head@ =~= raw@.take(i - 1));
                return (head.to_owned(), Some(port));
            },
            None => {},
        }
    }
    (raw.to_owned(), None)
}

proof fn lemma_last_index_of_is(s: Seq<char>, c: char, i: int)
    requires
        -1 <= i < s.len(),
        i >= 0 ==> s[i] == c,
        forall|k: int| i < k < s.len() ==> s[k] != c,
    ensures
        last_index_of(s, c) == i,
    decreases s.len(),
{
    if s.len() > 0 && s.last() != c {
        assert forall|k: int| i < k < s.drop_last().len() implies s.drop_last()[k] != c by {
            assert(s.drop_last()[k] == s[k]);
        }
        lemma_last_index_of_is(s.drop_last(), c, i);
    }
}

/// Joins a host and an optional port back into an address (see `joined_address`).
pub fn join_host_port(host: &str, port: Option<u16>) -> (r: String)
    ensures
        r@ == joined_address(host@, port),
{
    let mut out = host.to_owned();
    match port {
        Some(p) => {
            out.append(":");
            push_decimal(&mut out, p as u64);
            proof {
                reveal_strlit(":");
                assert(out@ =~= joined_address(host@, port));
            }
        },
        None => {},
    }
    out
}

proof fn lemma_decimal_reads_back(n: nat)
    ensures
        decimal(n).len() > 0,
        all_digits(decimal(n)),
        digits_value(decimal(n)) == n,
    decreases n,
{
    if n >= 10 {
        lemma_decimal_reads_back(n / 10);
        let d = decimal(n);
        assert(d.drop_last() =~= decimal(n / 10));
        assert(d.last() as int == (n % 10) + 48);
        assert(n == (n / 10) * 10 + n % 10);
        assert(digits_value(d) == digits_value(d.drop_last()) * 10 + ((d.last() as int - 48) as nat));
        assert forall|i: int| 0 <= i < d.len() implies #[trigger] is_digit(d[i]) by {
            if i < d.len() - 1 {
                assert(d[i] == decimal(n / 10)[i]);
            }
        }
    } else {
        let d = decimal(n);
        assert(d.drop_last() =~= Seq::<char>::empty());
        assert(d.last() as int == n + 48);
        assert(digits_value(d) == digits_value(d.drop_last()) * 10 + ((d.last() as int - 48) as nat));
    }
}

/// A port written in decimal reads back as the same port.
pub proof fn law_port_round_trip(port: u16)
    ensures
        port_number(decimal(port as nat)) == Some(port),
{
    lemma_decimal_reads_back(port as nat);
    let d = decimal(port as nat);
    assert(is_digit(d[0]));
    assert(unsigned_digits(d) == d);
}

/// Splitting an address joined from a host and a port gives back that host and that port,
/// whatever the host holds (colons included).
pub proof fn law_split_of_joined(host: Seq<char>, port: u16)
    ensures
        host_and_port(joined_address(host, Some(port))) == (host, Some(port)),
{
    let d = decimal(port as nat);
    let s = host + seq![':'] + d;
    assert(s == joined_address(host, Some(port)));
    lemma_decimal_reads_back(port as nat);
    assert forall|k: int| host.len() < k < s.len() implies s[k] != ':' by {
        assert(s[k] == d[k - host.len() - 1]);
        assert(is_digit(d[k - host.len() - 1]));
    }
    lemma_last_index_of_is(s, ':', host.len() as int);
    assert(s.skip(host.len() as int + 1) =~= d);
    assert(s.take(host.len() as int) =~= host);
    law_port_round_trip(port);
}

/// Splitting, joining and splitting again gives what the first split gave.
pub proof fn law_split_is_stable(raw: Seq<char>)
    ensures
        host_and_port(joined_address(host_and_port(raw).0, host_and_port(raw).1))
            == host_and_port(raw),
{
    let (host, port) = host_and_port(raw);
    match port {
        Some(p) => law_split_of_joined(host, p),
        None => {},
    }
}

} // verus!
