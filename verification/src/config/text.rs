use vstd::prelude::*;
use vstd::string::*;

verus! {

/// A character of the Unicode `White_Space` property: the characters that
/// `str::trim` removes from both ends of a line.
pub open spec fn is_white_space(c: char) -> bool {
    ||| ('\u{9}' <= c && c <= '\u{d}')
    ||| c == ' '
    ||| c == '\u{85}'
    ||| c == '\u{a0}'
    ||| c == '\u{1680}'
    ||| ('\u{2000}' <= c && c <= '\u{200a}')
    ||| c == '\u{2028}'
    ||| c == '\u{2029}'
    ||| c == '\u{202f}'
    ||| c == '\u{205f}'
    ||| c == '\u{3000}'
}

/// `s` without its leading white space.
pub open spec fn trim_start(s: Seq<char>) -> Seq<char>
    decreases s.len(),
{
    if s.len() > 0 && is_white_space(s[0]) {
        trim_start(s.drop_first())
    } else {
        s
    }
}

/// `s` without its trailing white space.
pub open spec fn trim_end(s: Seq<char>) -> Seq<char>
    decreases s.len(),
{
    if s.len() > 0 && is_white_space(s.last()) {
        trim_end(s.drop_last())
    } else {
        s
    }
}

/// `s` without white space at either end.
pub open spec fn trimmed(s: Seq<char>) -> Seq<char> {
    trim_end(trim_start(s))
}

pub open spec fn is_ascii_digit(c: char) -> bool {
    '0' <= c && c <= '9'
}

pub open spec fn is_ascii_alphanumeric(c: char) -> bool {
    ||| is_ascii_digit(c)
    ||| ('A' <= c && c <= 'Z')
    ||| ('a' <= c && c <= 'z')
}

/// A printable ASCII character other than the space: `'!'` to `'~'`.
pub open spec fn is_ascii_graphic(c: char) -> bool {
    '!' <= c && c <= '~'
}

pub open spec fn all_alphanumeric(s: Seq<char>) -> bool {
    forall|i: int| 0 <= i < s.len() ==> is_ascii_alphanumeric(#[trigger] s[i])
}

pub open spec fn all_graphic(s: Seq<char>) -> bool {
    forall|i: int| 0 <= i < s.len() ==> is_ascii_graphic(#[trigger] s[i])
}

pub open spec fn all_digits(s: Seq<char>) -> bool {
    forall|i: int| 0 <= i < s.len() ==> is_ascii_digit(#[trigger] s[i])
}

pub open spec fn has_no_colon(s: Seq<char>) -> bool {
    forall|i: int| 0 <= i < s.len() ==> #[trigger] s[i] != ':'
}

/// The two parts of `s` around its first `':'`: what precedes it, and what
/// follows it (`None` where `s` holds no `':'`).
pub open spec fn split_at_colon(s: Seq<char>) -> (Seq<char>, Option<Seq<char>>)
    decreases s.len(),
{
    if s.len() == 0 {
        (s, None)
    } else if s[0] == ':' {
        (Seq::empty(), Some(s.drop_first()))
    } else {
        let rest = split_at_colon(s.drop_first());
        (seq![s[0]] + rest.0, rest.1)
    }
}

/// The number that the decimal digits `s` write.
pub open spec fn decimal_value(s: Seq<char>) -> nat
    decreases s.len(),
{
    if s.len() == 0 {
        0
    } else {
        decimal_value(s.drop_last()) * 10 + ((s.last() as u32) - ('0' as u32)) as nat
    }
}

/// The digits of an unsigned number in text: one leading `'+'` is allowed.
pub open spec fn unsigned_digits(s: Seq<char>) -> Seq<char> {
    if s.len() > 0 && s[0] == '+' {
        s.drop_first()
    } else {
        s
    }
}

/// What `u16::from_str` gives: the value of an optional `'+'` followed by one
/// or more decimal digits, where that value fits in 16 bits.
pub open spec fn parse_u16(s: Seq<char>) -> Option<u16> {
    let d = unsigned_digits(s);
    if d.len() > 0 && all_digits(d) && decimal_value(d) <= 0xffff {
        Some(decimal_value(d) as u16)
    } else {
        None
    }
}

/// Whether `c` has the Unicode `White_Space` property.
pub fn white_space(c: char) -> (r: bool)
    ensures
        r == is_white_space(c),
{
    ('\u{9}' <= c && c <= '\u{d}') || c == ' ' || c == '\u{85}' || c == '\u{a0}' || c == '\u{1680}'
        || ('\u{2000}' <= c && c <= '\u{200a}') || c == '\u{2028}' || c == '\u{2029}' || c
        == '\u{202f}' || c == '\u{205f}' || c == '\u{3000}'
}

proof fn lemma_trim_start_step(s: Seq<char>, a: int)
    requires
        0 <= a < s.len(),
        is_white_space(s[a]),
    ensures
        trim_start(s.skip(a)) == trim_start(s.skip(a + 1)),
{
    assert(s.skip(a).drop_first() =~= s.skip(a + 1));
}

proof fn lemma_trim_end_step(s: Seq<char>, a: int, b: int)
    requires
        0 <= a < b <= s.len(),
        is_white_space(s[b - 1]),
    ensures
        trim_end(s.subrange(a, b)) == trim_end(s.subrange(a, b - 1)),
{
    assert(s.subrange(a, b).drop_last() =~= s.subrange(a, b - 1));
}

/// The line `s` without white space at either end, as `str::trim` gives it.
pub fn trim(s: &str) -> (r: String)
    ensures
        r@ == trimmed(s@),
{
    let n = s.unicode_len();
    let mut a: usize = 0;
    assert(s@.skip(0) =~= s@);
    while a < n && white_space(s.get_char(a))
        invariant
            a <= n,
            n == s@.len(),
            trim_start(s@) == trim_start(s@.skip(a as int)),
        decreases n - a,
    {
        proof {
            lemma_trim_start_step(s@, a as int);
        }
        a = a + 1;
    }
    assert(trim_start(s@) == s@.subrange(a as int, n as int)) by {
        assert(s@.skip(a as int) =~= s@.subrange(a as int, n as int));
    }
    let mut b: usize = n;
    while b > a && white_space(s.get_char(b - 1))
        invariant
            a <= b <= n,
            n == s@.len(),
            trim_end(s@.subrange(a as int, n as int)) == trim_end(s@.subrange(a as int, b as int)),
        decreases b,
    {
        proof {
            lemma_trim_end_step(s@, a as int, b as int);
        }
        b = b - 1;
    }
    String::from_str(s.substring_char(a, b))
}

proof fn lemma_split_at_colon(s: Seq<char>, k: int)
    requires
        0 <= k <= s.len(),
        has_no_colon(s.take(k)),
        k < s.len() ==> s[k] == ':',
    ensures
        split_at_colon(s) == (if k < s.len() {
            (s.take(k), Some(s.skip(k + 1)))
        } else {
            (s, None::<Seq<char>>)
        }),
    decreases k,
{
    if k == 0 {
        if s.len() > 0 {
            assert(s.take(0) =~= Seq::<char>::empty());
            assert(s.drop_first() =~= s.skip(1));
        }
    } else {
        let t = s.drop_first();
        assert(t.take(k - 1) =~= s.take(k).drop_first());
        assert(s.take(k)[0] == s[0]);
        lemma_split_at_colon(t, k - 1);
        if k < s.len() {
            assert(seq![s[0]] + t.take(k - 1) =~= s.take(k));
            assert(t.skip(k) =~= s.skip(k + 1));
        } else {
            assert(seq![s[0]] + t =~= s);
        }
    }
}

/// Splits `s` at its first `':'`, as `s.splitn(2, ':')` does: the part
/// before it, and the part after it where there is one.
pub fn split_at_first_colon(s: &str) -> (r: (String, Option<String>))
    ensures
        r.0@ == split_at_colon(s@).0,
        r.1.deep_view() == split_at_colon(s@).1,
{
    let n = s.unicode_len();
    let mut k: usize = 0;
    while k < n && s.get_char(k) != ':'
        invariant
            k <= n,
            n == s@.len(),
            has_no_colon(s@.take(k as int)),
        decreases n - k,
    {
        assert(s@.take(k + 1) =~= s@.take(k as int).push(s@[k as int]));
        k = k + 1;
    }
    proof {
        lemma_split_at_colon(s@, k as int);
    }
    if k < n {
        let head = String::from_str(s.substring_char(0, k));
        let tail = String::from_str(s.substring_char(k + 1, n));
        assert(s@.subrange(0, k as int) =~= s@.take(k as int));
        assert(s@.subrange(k + 1, n as int) =~= s@.skip(k + 1));
        (head, Some(tail))
    } else {
        assert(s@.subrange(0, n as int) =~= s@);
        (String::from_str(s.substring_char(0, n)), None)
    }
}

proof fn lemma_decimal_value_grows(s: Seq<char>, c: char)
    requires
        is_ascii_digit(c),
    ensures
        decimal_value(s.push(c)) >= decimal_value(s) * 10,
        decimal_value(s.push(c)) == decimal_value(s) * 10 + ((c as u32) - ('0' as u32)),
{
    assert(s.push(c).drop_last() =~= s);
}

/// Reads a port number as `u16::from_str` does: `None` where `s` is not an
/// optional `'+'` followed by decimal digits whose value fits in 16 bits.
pub fn parse_port(s: &str) -> (r: Option<u16>)
    ensures
        r == parse_u16(s@),
{
    let n = s.unicode_len();
    let mut start: usize = 0;
    if n > 0 && s.get_char(0) == '+' {
        start = 1;
    }
    let ghost d = unsigned_digits(s@);
    assert(d =~= s@.skip(start as int));
    if start == n {
        return None;
    }
    let mut i: usize = start;
    let mut value: u32 = 0;
    while i < n
        invariant
            start <= i <= n,
            n == s@.len(),
            d =~= s@.skip(start as int),
            d == unsigned_digits(s@),
            all_digits(s@.subrange(start as int, i as int)),
            value <= 0x10000,
            value == (if decimal_value(s@.subrange(start as int, i as int)) <= 0xffff {
                decimal_value(s@.subrange(start as int, i as int))
            } else {
                0x10000
            }),
        decreases n - i,
    {
        let c = s.get_char(i);
        if !('0' <= c && c <= '9') {
            assert(d[i - start] == c);
            assert(!is_ascii_digit(d[i - start]));
            assert(!all_digits(d));
            return None;
        }
        let ghost prefix = s@.subrange(start as int, i as int);
        assert(s@.subrange(start as int, i + 1) =~= prefix.push(c));
        proof {
            lemma_decimal_value_grows(prefix, c);
        }
        let digit: u32 = (c as u32) - ('0' as u32);
        if value <= 0xffff {
            value = value * 10 + digit;
            if value > 0x10000 {
                value = 0x10000;
            }
        }
        i = i + 1;
    }
    assert(s@.subrange(start as int, n as int) =~= d);
    if value <= 0xffff {
        Some(value as u16)
    } else {
        None
    }
}

/// Whether every character of `s` is an ASCII letter or digit.
pub fn is_all_alphanumeric(s: &str) -> (r: bool)
    ensures
        r == all_alphanumeric(s@),
{
    let n = s.unicode_len();
    let mut i: usize = 0;
    while i < n
        invariant
            i <= n,
            n == s@.len(),
            forall|j: int| 0 <= j < i ==> is_ascii_alphanumeric(#[trigger] s@[j]),
        decreases n - i,
    {
        let c = s.get_char(i);
        if !(('0' <= c && c <= '9') || ('A' <= c && c <= 'Z') || ('a' <= c && c <= 'z')) {
            return false;
        }
        i = i + 1;
    }
    true
}

/// Whether every character of `s` is a printable ASCII character other than
/// the space.
pub fn is_all_graphic(s: &str) -> (r: bool)
    ensures
        r == all_graphic(s@),
{
    let n = s.unicode_len();
    let mut i: usize = 0;
    while i < n
        invariant
            i <= n,
            n == s@.len(),
            forall|j: int| 0 <= j < i ==> is_ascii_graphic(#[trigger] s@[j]),
        decreases n - i,
    {
        let c = s.get_char(i);
        if !('!' <= c && c <= '~') {
            return false;
        }
        i = i + 1;
    }
    true
}

/// Splitting at the first `':'` loses nothing: the part before holds no
/// `':'`, and where there is a part after, the text is the part before, the
/// `':'`, and the part after; else the part before is the whole text.
pub proof fn lemma_split_rejoins(s: Seq<char>)
    ensures
        has_no_colon(split_at_colon(s).0),
        match split_at_colon(s).1 {
            Some(rest) => s == split_at_colon(s).0 + seq![':'] + rest,
            None => split_at_colon(s).0 == s,
        },
    decreases s.len(),
{
    if s.len() > 0 {
        if s[0] == ':' {
            assert(s =~= Seq::<char>::empty() + seq![':'] + s.drop_first());
        } else {
            let t = s.drop_first();
            lemma_split_rejoins(t);
            let h = seq![s[0]] + split_at_colon(t).0;
            assert forall|i: int| 0 <= i < h.len() implies #[trigger] h[i] != ':' by {
                if i > 0 {
                    assert(h[i] == split_at_colon(t).0[i - 1]);
                }
            }
            match split_at_colon(t).1 {
                Some(rest) => {
                    assert(s =~= seq![s[0]] + t);
                    assert(h + seq![':'] + rest =~= seq![s[0]] + (split_at_colon(t).0 + seq![':']
                        + rest));
                },
                None => {
                    assert(h =~= s);
                },
            }
        }
    }
}

proof fn lemma_trim_start_shape(s: Seq<char>)
    ensures
        trim_start(s).len() == 0 || !is_white_space(trim_start(s)[0]),
    decreases s.len(),
{
    if s.len() > 0 && is_white_space(s[0]) {
        lemma_trim_start_shape(s.drop_first());
    }
}

proof fn lemma_trim_end_shape(s: Seq<char>)
    ensures
        trim_end(s) == s.take(trim_end(s).len() as int),
        trim_end(s).len() <= s.len(),
        trim_end(s).len() == 0 || !is_white_space(trim_end(s).last()),
    decreases s.len(),
{
    if s.len() > 0 && is_white_space(s.last()) {
        lemma_trim_end_shape(s.drop_last());
        let n = trim_end(s).len() as int;
        assert(s.drop_last().take(n) =~= s.take(n));
    } else {
        assert(s.take(s.len() as int) =~= s);
    }
}

/// Trimming a second time changes nothing: a trimmed line neither starts nor
/// ends with white space.
pub proof fn lemma_trim_idempotent(s: Seq<char>)
    ensures
        trimmed(trimmed(s)) == trimmed(s),
        trimmed(s).len() == 0 || (!is_white_space(trimmed(s)[0]) && !is_white_space(
            trimmed(s).last(),
        )),
{
    let a = trim_start(s);
    let t = trim_end(a);
    lemma_trim_start_shape(s);
    lemma_trim_end_shape(a);
    if t.len() > 0 {
        assert(t[0] == a[0]);
    }
    assert(trim_start(t) == t);
    assert(trim_end(t) == t);
}

} // verus!
