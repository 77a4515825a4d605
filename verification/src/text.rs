//! Character-level helpers: white space, decimal numerals and lowercase hexadecimal.

use vstd::prelude::*;

verus! {

/// `String::push` appends one character to the end of the string.
pub assume_specification[ String::push ](s: &mut String, c: char)
    ensures
        final(s)@ == old(s)@.push(c),
;

/// The views of both sides of a result of texts.
pub open spec fn result_view(result: Result<String, String>) -> Result<Seq<char>, Seq<char>> {
    match result {
        Ok(text) => Ok(text@),
        Err(words) => Err(words@),
    }
}

/// Whether `c` carries the Unicode `White_Space` property.
pub open spec fn is_whitespace_char(c: char) -> bool {
    let n = c as u32;
    ||| 0x09 <= n <= 0x0d
    ||| n == 0x20
    ||| n == 0x85
    ||| n == 0xa0
    ||| n == 0x1680
    ||| 0x2000 <= n <= 0x200a
    ||| n == 0x2028
    ||| n == 0x2029
    ||| n == 0x202f
    ||| n == 0x205f
    ||| n == 0x3000
}

/// A text is blank when every character of it is white space; the empty text is blank.
pub open spec fn is_blank(s: Seq<char>) -> bool {
    forall|i: int| 0 <= i < s.len() ==> is_whitespace_char(#[trigger] s[i])
}

/// Decides [`is_whitespace_char`].
pub fn is_whitespace(c: char) -> (r: bool)
    ensures
        r == is_whitespace_char(c),
{
    let n: u32 = c as u32;
    (0x09 <= n && n <= 0x0d) || n == 0x20 || n == 0x85 || n == 0xa0 || n == 0x1680 || (0x2000 <= n
        && n <= 0x200a) || n == 0x2028 || n == 0x2029 || n == 0x202f || n == 0x205f || n == 0x3000
}

/// Decides [`is_blank`] for a string slice.
pub fn is_blank_text(s: &str) -> (r: bool)
    ensures
        r == is_blank(s@),
{
    let mut blank = true;
    for c in it: s.chars()
        invariant
            it.seq() == s@,
            blank == (forall|j: int| 0 <= j < it.index() ==> is_whitespace_char(#[trigger] s@[j])),
    {
        blank = blank && is_whitespace(c);
    }
    blank
}

/// The character that writes the value `d` of one hexadecimal digit, in lower
/// case. Up to nine it is the decimal digit.
pub open spec fn hex_digit(d: int) -> char {
    if d == 0 {
        '0'
    } else if d == 1 {
        '1'
    } else if d == 2 {
        '2'
    } else if d == 3 {
        '3'
    } else if d == 4 {
        '4'
    } else if d == 5 {
        '5'
    } else if d == 6 {
        '6'
    } else if d == 7 {
        '7'
    } else if d == 8 {
        '8'
    } else if d == 9 {
        '9'
    } else if d == 10 {
        'a'
    } else if d == 11 {
        'b'
    } else if d == 12 {
        'c'
    } else if d == 13 {
        'd'
    } else if d == 14 {
        'e'
    } else {
        'f'
    }
}

/// Whether `c` is one of `0`-`9` or `a`-`f`.
pub open spec fn is_lower_hex(c: char) -> bool {
    exists|d: int| 0 <= d < 16 && c == #[trigger] hex_digit(d)
}

/// Two characters per byte, the high half first.
pub open spec fn hex_encoding(bytes: Seq<u8>) -> Seq<char> {
    Seq::new(
        2 * bytes.len(),
        |i: int|
            if i % 2 == 0 {
                hex_digit(bytes[i / 2] as int / 16)
            } else {
                hex_digit(bytes[i / 2] as int % 16)
            },
    )
}

/// The decimal numeral of `n`, without sign or leading zeros.
pub open spec fn decimal_digits(n: nat) -> Seq<char>
    decreases n,
{
    if n < 10 {
        seq![hex_digit(n as int)]
    } else {
        decimal_digits(n / 10).push(hex_digit((n % 10) as int))
    }
}

/// Different digit values are written by different characters.
pub proof fn lemma_hex_digit_injective(a: int, b: int)
    requires
        0 <= a < 16,
        0 <= b < 16,
        hex_digit(a) == hex_digit(b),
    ensures
        a == b,
{
}

/// A hexadecimal encoding has two characters per byte and consists of lowercase
/// hexadecimal digits only.
pub proof fn lemma_hex_encoding_shape(bytes: Seq<u8>)
    ensures
        hex_encoding(bytes).len() == 2 * bytes.len(),
        forall|i: int| 0 <= i < 2 * bytes.len() ==> is_lower_hex(#[trigger] hex_encoding(bytes)[i]),
{
    assert forall|i: int| 0 <= i < 2 * bytes.len() implies is_lower_hex(
        #[trigger] hex_encoding(bytes)[i],
    ) by {
        let b = bytes[i / 2] as int;
        if i % 2 == 0 {
            assert(hex_encoding(bytes)[i] == hex_digit(b / 16));
        } else {
            assert(hex_encoding(bytes)[i] == hex_digit(b % 16));
        }
    }
}

/// Different byte strings have different hexadecimal encodings.
pub proof fn lemma_hex_encoding_injective(a: Seq<u8>, b: Seq<u8>)
    requires
        hex_encoding(a) == hex_encoding(b),
    ensures
        a == b,
{
    assert(hex_encoding(a).len() == 2 * a.len());
    assert(hex_encoding(b).len() == 2 * b.len());
    assert(a.len() == b.len());
    assert forall|k: int| 0 <= k < a.len() implies a[k] == b[k] by {
        let x = a[k] as int;
        let y = b[k] as int;
        assert(hex_encoding(a)[2 * k] == hex_digit(x / 16));
        assert(hex_encoding(b)[2 * k] == hex_digit(y / 16));
        assert(hex_encoding(a)[2 * k + 1] == hex_digit(x % 16));
        assert(hex_encoding(b)[2 * k + 1] == hex_digit(y % 16));
        lemma_hex_digit_injective(x / 16, y / 16);
        lemma_hex_digit_injective(x % 16, y % 16);
    }
    assert(a =~= b);
}

/// The character of one hexadecimal digit.
pub fn hex_digit_char(d: u8) -> (c: char)
    requires
        d < 16,
    ensures
        c == hex_digit(d as int),
{
    if d == 0 {
        '0'
    } else if d == 1 {
        '1'
    } else if d == 2 {
        '2'
    } else if d == 3 {
        '3'
    } else if d == 4 {
        '4'
    } else if d == 5 {
        '5'
    } else if d == 6 {
        '6'
    } else if d == 7 {
        '7'
    } else if d == 8 {
        '8'
    } else if d == 9 {
        '9'
    } else if d == 10 {
        'a'
    } else if d == 11 {
        'b'
    } else if d == 12 {
        'c'
    } else if d == 13 {
        'd'
    } else if d == 14 {
        'e'
    } else {
        'f'
    }
}

/// Writes `bytes` in lowercase hexadecimal.
pub fn to_hex(bytes: &[u8]) -> (s: String)
    ensures
        s@ == hex_encoding(bytes@),
{
    let mut out = String::new();
    let mut i: usize = 0;
    while i < bytes.len()
        invariant
            i <= bytes.len(),
            out@ == hex_encoding(bytes@.take(i as int)),
        decreases bytes.len() - i,
    {
        let b: u8 = bytes[i];
        out.push(hex_digit_char(b / 16));
        out.push(hex_digit_char(b % 16));
        i += 1;
        assert(out@ =~= hex_encoding(bytes@.take(i as int)));
    }
    assert(bytes@.take(i as int) =~= bytes@);
    out
}

/// Appends the decimal numeral of `n` to `out`.
pub fn push_decimal(out: &mut String, n: u128)
    ensures
        final(out)@ == old(out)@ + decimal_digits(n as nat),
    decreases n,
{
    if n >= 10 {
        push_decimal(out, n / 10);
    }
    let d: u8 = (n % 10) as u8;
    out.push(hex_digit_char(d));
    assert(out@ =~= old(out)@ + decimal_digits(n as nat));
}

/// Writes `n` as a decimal numeral.
pub fn to_decimal(n: u128) -> (s: String)
    ensures
        s@ == decimal_digits(n as nat),
{
    let mut out = String::new();
    push_decimal(&mut out, n);
    assert(out@ =~= decimal_digits(n as nat));
    out
}

/// `s` without the white space at its start.
pub open spec fn trim_start_of(s: Seq<char>) -> Seq<char>
    decreases s.len(),
{
    if s.len() > 0 && is_whitespace_char(s[0]) {
        trim_start_of(s.drop_first())
    } else {
        s
    }
}

/// `s` without the white space at its end.
pub open spec fn trim_end_of(s: Seq<char>) -> Seq<char>
    decreases s.len(),
{
    if s.len() > 0 && is_whitespace_char(s.last()) {
        trim_end_of(s.drop_last())
    } else {
        s
    }
}

/// `s` without the white space at its start and at its end.
pub open spec fn trimmed(s: Seq<char>) -> Seq<char> {
    trim_end_of(trim_start_of(s))
}

/// Trimming the start of a text skips its leading white space, up to the
/// first character that is none.
pub proof fn lemma_trim_start_skips(s: Seq<char>, k: int)
    requires
        0 <= k <= s.len(),
        forall|j: int| 0 <= j < k ==> is_whitespace_char(#[trigger] s[j]),
        k == s.len() || !is_whitespace_char(s[k]),
    ensures
        trim_start_of(s) == s.skip(k),
    decreases k,
{
    if k == 0 {
        assert(s.skip(0) =~= s);
    } else {
        let rest = s.drop_first();
        assert(is_whitespace_char(s[0]));
        assert forall|j: int| 0 <= j < k - 1 implies is_whitespace_char(#[trigger] rest[j]) by {
            assert(rest[j] == s[j + 1]);
        }
        lemma_trim_start_skips(rest, k - 1);
        assert(rest.skip(k - 1) =~= s.skip(k));
    }
}

/// Trimming the end of a text keeps it up to its last character that is no
/// white space.
pub proof fn lemma_trim_end_takes(s: Seq<char>, m: int)
    requires
        0 <= m <= s.len(),
        forall|j: int| m <= j < s.len() ==> is_whitespace_char(#[trigger] s[j]),
        m == 0 || !is_whitespace_char(s[m - 1]),
    ensures
        trim_end_of(s) == s.take(m),
    decreases s.len() - m,
{
    if m == s.len() {
        assert(s.take(m) =~= s);
    } else {
        let rest = s.drop_last();
        assert(is_whitespace_char(s[s.len() - 1]));
        assert forall|j: int| m <= j < rest.len() implies is_whitespace_char(#[trigger] rest[j]) by {
            assert(rest[j] == s[j]);
        }
        lemma_trim_end_takes(rest, m);
        assert(rest.take(m) =~= s.take(m));
    }
}

/// A blank text trims to the empty text, and only a blank text does.
pub proof fn lemma_trimmed_empty_iff_blank(s: Seq<char>)
    ensures
        trimmed(s).len() == 0 <==> is_blank(s),
    decreases s.len(),
{
    if s.len() > 0 && is_whitespace_char(s[0]) {
        let rest = s.drop_first();
        lemma_trimmed_empty_iff_blank(rest);
        if is_blank(rest) {
            assert forall|i: int| 0 <= i < s.len() implies is_whitespace_char(#[trigger] s[i]) by {
                if i > 0 {
                    assert(s[i] == rest[i - 1]);
                }
            }
        }
        if is_blank(s) {
            assert forall|i: int| 0 <= i < rest.len() implies is_whitespace_char(
                #[trigger] rest[i],
            ) by {
                assert(rest[i] == s[i + 1]);
            }
        }
    } else if s.len() > 0 {
        lemma_trim_end_keeps_first(s);
    }
}

/// Trimming the end of a text whose first character is no white space leaves
/// that character in place.
pub proof fn lemma_trim_end_keeps_first(s: Seq<char>)
    requires
        s.len() > 0,
        !is_whitespace_char(s[0]),
    ensures
        trim_end_of(s).len() > 0,
    decreases s.len(),
{
    if is_whitespace_char(s.last()) {
        let rest = s.drop_last();
        assert(rest.len() > 0);
        assert(rest[0] == s[0]);
        lemma_trim_end_keeps_first(rest);
    }
}

/// `s` without the white space at its start and at its end.
pub fn trim(s: &str) -> (t: String)
    ensures
        t@ == trimmed(s@),
{
    let mut chars: Vec<char> = Vec::new();
    for c in it: s.chars()
        invariant
            it.seq() == s@,
            chars@ == s@.take(it.index()),
    {
        chars.push(c);
        assert(chars@ =~= s@.take(it.index() + 1));
    }
    assert(chars@ =~= s@);
    let mut start: usize = 0;
    while start < chars.len() && is_whitespace(chars[start])
        invariant
            start <= chars.len(),
            forall|j: int| 0 <= j < start ==> is_whitespace_char(#[trigger] chars@[j]),
        decreases chars.len() - start,
    {
        start += 1;
    }
    let mut end: usize = chars.len();
    while end > start && is_whitespace(chars[end - 1])
        invariant
            start <= end <= chars.len(),
            forall|j: int| end <= j < chars.len() ==> is_whitespace_char(#[trigger] chars@[j]),
        decreases end,
    {
        end -= 1;
    }
    let mut out = String::new();
    let mut i: usize = start;
    while i < end
        invariant
            start <= i <= end <= chars.len(),
            out@ == chars@.subrange(start as int, i as int),
        decreases end - i,
    {
        out.push(chars[i]);
        i += 1;
        assert(out@ =~= chars@.subrange(start as int, i as int));
    }
    proof {
        let tail = chars@.skip(start as int);
        lemma_trim_start_skips(chars@, start as int);
        assert forall|j: int| end - start <= j < tail.len() implies is_whitespace_char(
            #[trigger] tail[j],
        ) by {
            assert(tail[j] == chars@[j + start]);
        }
        if end > start {
            assert(tail[end - start - 1] == chars@[end - 1]);
        }
        lemma_trim_end_takes(tail, end - start);
        assert(tail.take(end - start) =~= chars@.subrange(start as int, end as int));
    }
    out
}

} // verus!
