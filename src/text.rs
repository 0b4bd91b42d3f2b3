//! Text helpers over the characters of a string: decimal numbers, literal
//! comparison, and the URL lines of an input file.
use vstd::prelude::*;

verus! {

pub open spec fn is_digit_char(c: char) -> bool {
    '0' <= c <= '9'
}

/// The value of a string of decimal digits.
pub open spec fn digits_value(s: Seq<char>) -> nat
    decreases s.len(),
{
    if s.len() == 0 {
        0
    } else {
        digits_value(s.drop_last()) * 10 + (s.last() as nat - '0' as nat) as nat
    }
}

/// The digits of an unsigned number's text: an optional leading `+` is
/// allowed and dropped.
pub open spec fn unsigned_digits(s: Seq<char>) -> Seq<char> {
    if s.len() > 0 && s[0] == '+' {
        s.drop_first()
    } else {
        s
    }
}

/// `s` is an unsigned decimal number: an optional `+`, then one or more digits.
pub open spec fn is_unsigned_text(s: Seq<char>) -> bool {
    &&& unsigned_digits(s).len() > 0
    &&& forall|i: int| 0 <= i < unsigned_digits(s).len() ==> is_digit_char(#[trigger] unsigned_digits(s)[i])
}

proof fn lemma_digits_value_grows(s: Seq<char>, k: int)
    requires
        0 <= k <= s.len(),
        forall|i: int| 0 <= i < s.len() ==> is_digit_char(#[trigger] s[i]),
    ensures
        digits_value(s.take(k)) <= digits_value(s),
    decreases s.len() - k,
{
    if k < s.len() {
        lemma_digits_value_grows(s, k + 1);
        assert(s.take(k + 1).drop_last() == s.take(k));
    } else {
        assert(s.take(k) == s);
    }
}

/// Reads an unsigned decimal number, as `u64::from_str` does: `None` for text
/// that is no such number or for a value above `u64::MAX`.
pub fn parse_u64(s: &str) -> (r: Option<u64>)
    ensures
        r is Some <==> is_unsigned_text(s@) && digits_value(unsigned_digits(s@)) <= u64::MAX,
        r is Some ==> r->0 == digits_value(unsigned_digits(s@)),
{
    let n = s.unicode_len();
    let mut start: usize = 0;
    if n > 0 && s.get_char(0) == '+' {
        start = 1;
    }
    let ghost d = unsigned_digits(s@);
    assert(d =~= s@.skip(start as int));
    if start >= n {
        assert(d.len() == 0);
        return None;
    }
    let mut i: usize = start;
    while i < n
        invariant
            start <= i <= n,
            n == s@.len(),
            d == s@.skip(start as int),
            d == unsigned_digits(s@),
            d.len() == n - start,
            forall|j: int| 0 <= j < i - start ==> is_digit_char(#[trigger] d[j]),
        decreases n - i,
    {
        let c = s.get_char(i);
        assert(c == d[i - start]);
        if !('0' <= c && c <= '9') {
            assert(!is_digit_char(d[i - start]));
            assert(!is_unsigned_text(s@));
            return None;
        }
        i = i + 1;
    }
    let mut value: u64 = 0;
    let mut i: usize = start;
    while i < n
        invariant
            start <= i <= n,
            n == s@.len(),
            d == s@.skip(start as int),
            d == unsigned_digits(s@),
            d.len() == n - start,
            d.len() > 0,
            forall|j: int| 0 <= j < d.len() ==> is_digit_char(#[trigger] d[j]),
            value == digits_value(d.take(i - start)),
        decreases n - i,
    {
        let c = s.get_char(i);
        assert(c == d[i - start]);
        assert(is_digit_char(d[i - start]));
        let digit = (c as u32 - '0' as u32) as u64;
        assert(d.take(i - start + 1).drop_last() == d.take(i - start));
        assert(d.take(i - start + 1).last() == c);
        if value > (u64::MAX - digit) / 10 {
            proof {
                assert(digits_value(d.take(i - start + 1)) == value * 10 + digit);
                assert(value * 10 + digit > u64::MAX) by (nonlinear_arith)
                    requires value > (u64::MAX - digit) / 10, digit <= 9;
                lemma_digits_value_grows(d, i - start + 1);
                assert(digits_value(d) > u64::MAX);
                assert(digits_value(unsigned_digits(s@)) > u64::MAX);
            }
            return None;
        }
        assert(value * 10 + digit <= u64::MAX) by (nonlinear_arith)
            requires value <= (u64::MAX - digit) / 10, digit <= 9;
        value = value * 10 + digit;
        i = i + 1;
    }
    assert(d.take(d.len() as int) == d);
    Some(value)
}

/// Whether `s` holds exactly the characters of `lit`.
pub fn text_is(s: &str, lit: &str) -> (r: bool)
    ensures
        r == (s@ == lit@),
{
    let n = s.unicode_len();
    if n != lit.unicode_len() {
        return false;
    }
    let mut i: usize = 0;
    while i < n
        invariant
            i <= n,
            n == s@.len(),
            n == lit@.len(),
            forall|j: int| 0 <= j < i ==> s@[j] == lit@[j],
        decreases n - i,
    {
        if s.get_char(i) != lit.get_char(i) {
            return false;
        }
        i = i + 1;
    }
    assert(s@ =~= lit@);
    true
}

/// Unicode's White_Space characters.
pub open spec fn is_white_space(c: char) -> bool {
    ||| '\u{9}' <= c <= '\u{d}'
    ||| c == ' '
    ||| c == '\u{85}'
    ||| c == '\u{a0}'
    ||| c == '\u{1680}'
    ||| '\u{2000}' <= c <= '\u{200a}'
    ||| c == '\u{2028}'
    ||| c == '\u{2029}'
    ||| c == '\u{202f}'
    ||| c == '\u{205f}'
    ||| c == '\u{3000}'
}

pub fn white_space(c: char) -> (r: bool)
    ensures
        r == is_white_space(c),
{
    ('\u{9}' <= c && c <= '\u{d}') || c == ' ' || c == '\u{85}' || c == '\u{a0}' || c == '\u{1680}'
        || ('\u{2000}' <= c && c <= '\u{200a}') || c == '\u{2028}' || c == '\u{2029}' || c
        == '\u{202f}' || c == '\u{205f}' || c == '\u{3000}'
}

/// The index of the first line feed in `s`, or its length if it has none.
pub open spec fn newline_index(s: Seq<char>) -> nat
    decreases s.len(),
{
    if s.len() == 0 || s[0] == '\n' {
        0
    } else {
        1 + newline_index(s.drop_first())
    }
}

/// A line of the input file is a URL unless it starts with `#` or holds
/// nothing but white space.
pub open spec fn is_url_line(l: Seq<char>) -> bool {
    &&& !(l.len() > 0 && l[0] == '#')
    &&& exists|i: int| 0 <= i < l.len() && !is_white_space(#[trigger] l[i])
}

/// The first line of `s` (non-empty): the text up to the first line feed,
/// with a carriage return just before that line feed left out.
pub open spec fn first_line(s: Seq<char>) -> Seq<char> {
    let k = newline_index(s) as int;
    if k < s.len() && k > 0 && s[k - 1] == '\r' {
        s.take(k - 1)
    } else {
        s.take(k)
    }
}

/// What follows the first line of `s` (non-empty) and its line feed.
pub open spec fn after_first_line(s: Seq<char>) -> Seq<char> {
    let k = newline_index(s) as int;
    if k < s.len() {
        s.skip(k + 1)
    } else {
        Seq::empty()
    }
}

/// The URL lines of the text `s`, in order.
pub open spec fn url_lines(s: Seq<char>) -> Seq<Seq<char>>
    decreases s.len(),
{
    if s.len() == 0 {
        Seq::empty()
    } else {
        let rest = url_lines(after_first_line(s));
        if is_url_line(first_line(s)) {
            seq![first_line(s)] + rest
        } else {
            rest
        }
    }
}

proof fn lemma_newline_index(s: Seq<char>, k: int)
    requires
        0 <= k <= s.len(),
        forall|j: int| 0 <= j < k ==> #[trigger] s[j] != '\n',
        k == s.len() || s[k] == '\n',
    ensures
        newline_index(s) == k,
    decreases k,
{
    if k > 0 {
        lemma_newline_index(s.drop_first(), k - 1);
    }
}

fn line_is_url(s: &str, from: usize, to: usize) -> (r: bool)
    requires
        from <= to <= s@.len(),
    ensures
        r == is_url_line(s@.subrange(from as int, to as int)),
{
    let ghost l = s@.subrange(from as int, to as int);
    if from < to && s.get_char(from) == '#' {
        return false;
    }
    let mut i: usize = from;
    while i < to
        invariant
            from <= i <= to <= s@.len(),
            l == s@.subrange(from as int, to as int),
            !(l.len() > 0 && l[0] == '#'),
            forall|j: int| 0 <= j < i - from ==> is_white_space(#[trigger] l[j]),
        decreases to - i,
    {
        if !white_space(s.get_char(i)) {
            assert(!is_white_space(l[i - from]));
            return true;
        }
        i = i + 1;
    }
    false
}

/// The URLs listed in the text of an input file: its lines, each without its
/// line ending, that neither start with `#` nor hold only white space.
pub fn urls_from_text(text: &str) -> (urls: Vec<String>)
    ensures
        urls@.map_values(|u: String| u@) == url_lines(text@),
{
    let n = text.unicode_len();
    let mut urls: Vec<String> = Vec::new();
    let mut pos: usize = 0;
    assert(text@.skip(0) =~= text@);
    assert(urls@.map_values(|u: String| u@) + url_lines(text@) =~= url_lines(text@));
    while pos < n
        invariant
            pos <= n,
            n == text@.len(),
            url_lines(text@) == urls@.map_values(|u: String| u@) + url_lines(text@.skip(pos as int)),
        decreases n - pos,
    {
        let ghost rest = text@.skip(pos as int);
        let mut k: usize = pos;
        while k < n && text.get_char(k) != '\n'
            invariant
                pos <= k <= n,
                n == text@.len(),
                rest == text@.skip(pos as int),
                forall|j: int| pos <= j < k ==> #[trigger] text@[j] != '\n',
            decreases n - k,
        {
            k = k + 1;
        }
        proof {
            assert forall|j: int| 0 <= j < k - pos implies #[trigger] rest[j] != '\n' by {
                assert(rest[j] == text@[pos + j]);
            }
            lemma_newline_index(rest, k - pos);
        }
        let mut end: usize = k;
        if k < n && k > pos && text.get_char(k - 1) == '\r' {
            end = k - 1;
        }
        assert(first_line(rest) =~= text@.subrange(pos as int, end as int));
        let ghost before = urls@.map_values(|u: String| u@);
        if line_is_url(text, pos, end) {
            let line = String::from_str(text.substring_char(pos, end));
            urls.push(line);
            assert(urls@.map_values(|u: String| u@) =~= before + seq![first_line(rest)]);
        }
        if k < n {
            assert(after_first_line(rest) =~= text@.skip(k + 1));
            pos = k + 1;
        } else {
            assert(after_first_line(rest) =~= text@.skip(n as int));
            pos = n;
        }
    }
    assert(text@.skip(n as int) =~= Seq::<char>::empty());
    assert(urls@.map_values(|u: String| u@) + Seq::<Seq<char>>::empty() =~= urls@.map_values(|u: String| u@));
    urls
}

} // verus!
