//! Text in the shapes that DNS-SD names take: dots, labels, suffixes and
//! decimal numbers.

use vstd::prelude::*;
use vstd::string::*;
use vstd::utf8::*;

verus! {

/// The position of the first `x` in `s`, or the length of `s` without one.
pub open spec fn first_index<T>(s: Seq<T>, x: T) -> nat
    decreases s.len(),
{
    if s.len() == 0 || s[0] == x {
        0
    } else {
        1 + first_index(s.drop_first(), x)
    }
}

/// `s` without the dots at its end.
pub open spec fn trim_end_dots(s: Seq<char>) -> Seq<char>
    decreases s.len(),
{
    if s.len() > 0 && s.last() == '.' {
        trim_end_dots(s.drop_last())
    } else {
        s
    }
}

/// Whether `short` is `full` without the dots at its end: what is missing are dots,
/// and no dot is left at the end.
pub open spec fn strips_dots(full: Seq<char>, short: Seq<char>) -> bool {
    &&& short.is_prefix_of(full)
    &&& forall|i: int| short.len() <= i < full.len() ==> full[i] == '.'
    &&& short.len() > 0 ==> short.last() != '.'
}

/// `s` without the dots at its start.
pub open spec fn trim_start_dots(s: Seq<char>) -> Seq<char>
    decreases s.len(),
{
    if s.len() > 0 && s[0] == '.' {
        trim_start_dots(s.drop_first())
    } else {
        s
    }
}

/// The part of `s` that ends where `suffix` starts, if `s` ends with `suffix`.
pub open spec fn without_suffix(s: Seq<char>, suffix: Seq<char>) -> Option<Seq<char>> {
    if suffix.is_suffix_of(s) {
        Some(s.take(s.len() - suffix.len()))
    } else {
        None
    }
}

/// The decimal digit for `d`.
pub open spec fn digit(d: nat) -> char {
    ('0' as u32 + d) as char
}

/// `n` in decimal, without leading zeros.
pub open spec fn decimal(n: nat) -> Seq<char>
    decreases n,
{
    if n < 10 {
        seq![digit(n)]
    } else {
        decimal(n / 10).push(digit(n % 10))
    }
}

/// `n` in decimal, with a minus sign in front when it is negative.
pub open spec fn signed_decimal(n: int) -> Seq<char> {
    if n < 0 {
        seq!['-'] + decimal((-n) as nat)
    } else {
        decimal(n as nat)
    }
}

/// A position with `x` at it (or at the end) and no `x` before it is the first.
pub proof fn lemma_first_index<T>(s: Seq<T>, x: T, i: int)
    requires
        0 <= i <= s.len(),
        forall|j: int| 0 <= j < i ==> s[j] != x,
        i < s.len() ==> s[i] == x,
    ensures
        first_index(s, x) == i,
    decreases s.len(),
{
    if s.len() > 0 && s[0] != x {
        let rest = s.drop_first();
        assert forall|j: int| 0 <= j < i - 1 implies rest[j] != x by {
            assert(rest[j] == s[j + 1]);
        }
        lemma_first_index(rest, x, i - 1);
    }
}

/// What the first index is: nothing before it equals `x`, and it holds `x` or
/// is the end.
pub proof fn lemma_first_index_holds<T>(s: Seq<T>, x: T)
    ensures
        first_index(s, x) <= s.len(),
        first_index(s, x) < s.len() ==> s[first_index(s, x) as int] == x,
        forall|j: int| 0 <= j < first_index(s, x) ==> s[j] != x,
    decreases s.len(),
{
    if s.len() > 0 && s[0] != x {
        let rest = s.drop_first();
        lemma_first_index_holds(rest, x);
        assert forall|j: int| 0 <= j < first_index(s, x) implies s[j] != x by {
            if j > 0 {
                assert(s[j] == rest[j - 1]);
            }
        }
    }
}

/// What is cut off at the end is the longest run of dots there.
pub proof fn lemma_trim_end_dots(s: Seq<char>, end: int)
    requires
        0 <= end <= s.len(),
        forall|j: int| end <= j < s.len() ==> s[j] == '.',
        end > 0 ==> s[end - 1] != '.',
    ensures
        trim_end_dots(s) == s.take(end),
    decreases s.len(),
{
    if end < s.len() {
        lemma_trim_end_dots(s.drop_last(), end);
        assert(s.drop_last().take(end) =~= s.take(end));
    } else {
        assert(s.take(end) =~= s);
    }
}

/// What is cut off at the start is the longest run of dots there.
pub proof fn lemma_trim_start_dots(s: Seq<char>, start: int)
    requires
        0 <= start <= s.len(),
        forall|j: int| 0 <= j < start ==> s[j] == '.',
        start < s.len() ==> s[start] != '.',
    ensures
        trim_start_dots(s) == s.skip(start),
    decreases s.len(),
{
    if start > 0 {
        let rest = s.drop_first();
        assert forall|j: int| 0 <= j < start - 1 implies rest[j] == '.' by {
            assert(rest[j] == s[j + 1]);
        }
        lemma_trim_start_dots(rest, start - 1);
        assert(rest.skip(start - 1) =~= s.skip(start));
    } else {
        assert(s.skip(start) =~= s);
    }
}

/// Trimming only ever removes dots from the end of a name, removes all of them,
/// and does nothing the second time.
pub proof fn law_trim_dot(s: Seq<char>)
    ensures
        trim_end_dots(s).is_prefix_of(s),
        forall|i: int| trim_end_dots(s).len() <= i < s.len() ==> s[i] == '.',
        trim_end_dots(s).len() > 0 ==> trim_end_dots(s).last() != '.',
        trim_end_dots(trim_end_dots(s)) == trim_end_dots(s),
        strips_dots(s, trim_end_dots(s)),
    decreases s.len(),
{
    if s.len() > 0 && s.last() == '.' {
        law_trim_dot(s.drop_last());
        let t = trim_end_dots(s);
        assert forall|i: int| t.len() <= i < s.len() implies s[i] == '.' by {
            if i < s.len() - 1 {
                assert(s.drop_last()[i] == s[i]);
            }
        }
        assert(t =~= s.take(t.len() as int)) by {
            assert(t =~= s.drop_last().take(t.len() as int));
        }
    } else {
        assert(s =~= s.take(s.len() as int));
    }
}

/// Text without an ASCII character encodes to bytes without its byte.
pub proof fn lemma_no_ascii_byte(text: Seq<char>, c: char, byte: u8)
    requires
        byte < 0x80,
        c as u32 == byte,
        !text.contains(c),
    ensures
        forall|j: int| 0 <= j < encode_utf8(text).len() ==> encode_utf8(text)[j] != byte,
    decreases text.len(),
{
    if text.len() > 0 {
        let rest = text.drop_first();
        assert(!rest.contains(c)) by {
            if rest.contains(c) {
                let k = choose|k: int| 0 <= k < rest.len() && rest[k] == c;
                assert(text[k + 1] == c);
            }
        }
        lemma_no_ascii_byte(rest, c, byte);
        assert(text[0] != c);
        let scalar = text[0] as u32;
        char_is_scalar(text[0]);
        char_u32_cast(text[0], scalar);
        char_is_scalar(c);
        char_u32_cast(c, c as u32);
        lemma_scalar_without_byte(scalar, byte);
        let head = encode_scalar(scalar);
        let tail = encode_utf8(rest);
        assert forall|j: int| 0 <= j < encode_utf8(text).len() implies encode_utf8(text)[j]
            != byte by {
            if j < head.len() {
                assert((head + tail)[j] == head[j]);
            } else {
                assert((head + tail)[j] == tail[j - head.len()]);
            }
        }
    }
}

/// Text with an ASCII character encodes to bytes with its byte.
pub proof fn lemma_ascii_byte(text: Seq<char>, c: char, byte: u8)
    requires
        byte < 0x80,
        c as u32 == byte,
        text.contains(c),
    ensures
        encode_utf8(text).contains(byte),
    decreases text.len(),
{
    let rest = text.drop_first();
    let head = encode_scalar(text[0] as u32);
    let tail = encode_utf8(rest);
    if text[0] == c {
        let scalar = c as u32;
        assert(scalar < 0x80 && scalar == byte as u32 ==> (scalar & 0x7f) as u8 == byte)
            by (bit_vector);
        assert((head + tail)[0] == byte);
    } else {
        let k = choose|k: int| 0 <= k < text.len() && text[k] == c;
        assert(rest[k - 1] == c);
        lemma_ascii_byte(rest, c, byte);
        let j = choose|j: int| 0 <= j < tail.len() && tail[j] == byte;
        assert((head + tail)[head.len() + j] == byte);
    }
}

/// The bytes of a scalar do not hold the byte of another, ASCII, scalar.
proof fn lemma_scalar_without_byte(scalar: u32, b: u8)
    requires
        b < 0x80,
        scalar != b,
    ensures
        forall|j: int| 0 <= j < encode_scalar(scalar).len() ==> encode_scalar(scalar)[j] != b,
{
    assert(scalar <= 0x7f && scalar != b as u32 ==> (scalar & 0x7f) as u8 != b) by (bit_vector);
    assert(b < 0x80 ==> (0xC0u8 | ((scalar >> 6) & 0x1F) as u8) != b) by (bit_vector);
    assert(b < 0x80 ==> (0xE0u8 | ((scalar >> 12) & 0x0F) as u8) != b) by (bit_vector);
    assert(b < 0x80 ==> (0xF0u8 | ((scalar >> 18) & 0x7) as u8) != b) by (bit_vector);
    assert(b < 0x80 ==> (0x80u8 | (scalar & 0x3F) as u8) != b) by (bit_vector);
    assert(b < 0x80 ==> (0x80u8 | ((scalar >> 6) & 0x3F) as u8) != b) by (bit_vector);
    assert(b < 0x80 ==> (0x80u8 | ((scalar >> 12) & 0x3F) as u8) != b) by (bit_vector);
}

/// The characters of `s`.
pub(crate) fn chars_of(s: &str) -> (chars: Vec<char>)
    ensures
        chars@ == s@,
{
    let mut chars: Vec<char> = Vec::new();
    for c in it: s.chars()
        invariant
            it.seq() == s@,
            chars@ == s@.take(it.index() as int),
    {
        chars.push(c);
    }
    chars
}

/// Strips the dots at the end of a name (names may be reported fully
/// qualified).
pub fn trim_dot(s: &str) -> (trimmed: String)
    ensures
        trimmed@ == trim_end_dots(s@),
{
    let chars = chars_of(s);
    let mut end: usize = chars.len();
    while end > 0 && chars[end - 1] == '.'
        invariant
            chars@ == s@,
            end <= chars.len(),
            forall|j: int| end <= j < chars.len() ==> chars[j] == '.',
        decreases end,
    {
        end = end - 1;
    }
    proof {
        lemma_trim_end_dots(s@, end as int);
    }
    s.substring_char(0, end).to_owned()
}

/// `s` without the dots at its start.
pub(crate) fn trim_start(s: &str) -> (trimmed: String)
    ensures
        trimmed@ == trim_start_dots(s@),
{
    let chars = chars_of(s);
    let mut start: usize = 0;
    while start < chars.len() && chars[start] == '.'
        invariant
            chars@ == s@,
            start <= chars.len(),
            forall|j: int| 0 <= j < start ==> chars[j] == '.',
        decreases chars.len() - start,
    {
        start = start + 1;
    }
    proof {
        lemma_trim_start_dots(s@, start as int);
        assert(s@.skip(start as int) =~= s@.subrange(start as int, s@.len() as int));
    }
    s.substring_char(start, chars.len()).to_owned()
}

/// The position of the first `c` at or after `from`, or the number of
/// characters without one.
pub(crate) fn find_char(chars: &Vec<char>, c: char, from: usize) -> (index: usize)
    requires
        from <= chars@.len(),
    ensures
        index == from + first_index(chars@.skip(from as int), c),
        index <= chars@.len(),
{
    let mut i: usize = from;
    while i < chars.len() && chars[i] != c
        invariant
            from <= i <= chars.len(),
            forall|j: int| from <= j < i ==> chars[j] != c,
        decreases chars.len() - i,
    {
        i = i + 1;
    }
    proof {
        let rest = chars@.skip(from as int);
        assert forall|j: int| 0 <= j < i - from implies rest[j] != c by {
            assert(rest[j] == chars@[from + j]);
        }
        lemma_first_index(rest, c, i - from);
    }
    i
}

/// The part of `s` before `suffix`, if `s` ends with `suffix`.
pub(crate) fn strip_suffix(s: &str, suffix: &str) -> (stripped: Option<String>)
    ensures
        stripped.deep_view() == without_suffix(s@, suffix@),
{
    let chars = chars_of(s);
    let tail = chars_of(suffix);
    if tail.len() > chars.len() {
        return None;
    }
    let start: usize = chars.len() - tail.len();
    let mut i: usize = 0;
    while i < tail.len()
        invariant
            chars@ == s@,
            tail@ == suffix@,
            start + tail.len() == chars.len(),
            i <= tail.len(),
            forall|j: int| 0 <= j < i ==> chars[start + j] == tail[j],
        decreases tail.len() - i,
    {
        if chars[start + i] != tail[i] {
            assert(s@.subrange(start as int, s@.len() as int)[i as int] == s@[start + i]);
            return None;
        }
        i = i + 1;
    }
    assert(s@.subrange(start as int, s@.len() as int) =~= suffix@);
    assert(s@.take(start as int) =~= s@.subrange(0, start as int));
    Some(s.substring_char(0, start).to_owned())
}

/// Whether two strings hold the same characters.
pub(crate) fn same_text(a: &str, b: &str) -> (same: bool)
    ensures
        same == (a@ == b@),
{
    a.to_owned() == b.to_owned()
}

/// `a` followed by `b`.
pub(crate) fn concat(a: &str, b: &str) -> (joined: String)
    ensures
        joined@ == a@ + b@,
{
    let mut joined = a.to_owned();
    joined.append(b);
    joined
}

/// The text of a decimal digit.
fn digit_text(d: u64) -> (text: &'static str)
    requires
        d < 10,
    ensures
        text@ == seq![digit(d as nat)],
{
    proof {
        reveal_strlit("0");
        reveal_strlit("1");
        reveal_strlit("2");
        reveal_strlit("3");
        reveal_strlit("4");
        reveal_strlit("5");
        reveal_strlit("6");
        reveal_strlit("7");
        reveal_strlit("8");
        reveal_strlit("9");
    }
    match d {
        0 => "0",
        1 => "1",
        2 => "2",
        3 => "3",
        4 => "4",
        5 => "5",
        6 => "6",
        7 => "7",
        8 => "8",
        _ => "9",
    }
}

/// `n` in decimal.
pub(crate) fn decimal_text(n: u64) -> (text: String)
    ensures
        text@ == decimal(n as nat),
    decreases n,
{
    if n < 10 {
        digit_text(n).to_owned()
    } else {
        let mut text = decimal_text(n / 10);
        text.append(digit_text(n % 10));
        text
    }
}

/// `n` in decimal, with its sign.
pub(crate) fn signed_decimal_text(n: i32) -> (text: String)
    ensures
        text@ == signed_decimal(n as int),
{
    if n < 0 {
        proof {
            reveal_strlit("-");
        }
        let magnitude: u64 = (-(n as i64)) as u64;
        assert("-"@ =~= seq!['-']);
        concat("-", decimal_text(magnitude).as_str())
    } else {
        decimal_text(n as u64)
    }
}

/// The number that decimal digits stand for.
pub open spec fn number(digits: Seq<char>) -> int
    decreases digits.len(),
{
    if digits.len() == 0 {
        0
    } else {
        10 * number(digits.drop_last()) + (digits.last() as int - '0' as int)
    }
}

/// Decimal text is made of digits, reads back as its number, and has no zero in
/// front unless it is the zero.
pub proof fn law_decimal(n: nat)
    ensures
        number(decimal(n)) == n,
        decimal(n).len() > 0,
        n > 0 ==> decimal(n)[0] != '0',
        forall|i: int| 0 <= i < decimal(n).len() ==> '0' <= #[trigger] decimal(n)[i] <= '9',
    decreases n,
{
    if n < 10 {
        assert(decimal(n).drop_last() =~= Seq::empty());
        assert(number(Seq::empty()) == 0);
    } else {
        law_decimal(n / 10);
        let before = decimal(n / 10);
        assert(decimal(n).drop_last() =~= before);
        assert(decimal(n)[0] == before[0]);
        assert forall|i: int| 0 <= i < decimal(n).len() implies '0' <= #[trigger] decimal(n)[i]
            <= '9' by {
            if i < before.len() {
                assert(decimal(n)[i] == before[i]);
            }
        }
    }
}

/// A negative number is a minus sign and its magnitude; any other is its digits.
pub proof fn law_signed_decimal(n: int)
    ensures
        n >= 0 ==> number(signed_decimal(n)) == n && signed_decimal(n)[0] != '-',
        n < 0 ==> signed_decimal(n)[0] == '-' && number(signed_decimal(n).skip(1)) == -n,
{
    if n < 0 {
        law_decimal((-n) as nat);
        assert(signed_decimal(n).skip(1) =~= decimal((-n) as nat));
    } else {
        law_decimal(n as nat);
    }
}

/// A suffix comes off exactly if it is there, and nothing else with it.
pub proof fn law_without_suffix(s: Seq<char>, suffix: Seq<char>)
    ensures
        match without_suffix(s, suffix) {
            Some(rest) => rest + suffix == s,
            None => forall|rest: Seq<char>| #[trigger] (rest + suffix) != s,
        },
{
    match without_suffix(s, suffix) {
        Some(rest) => {
            assert(rest + suffix =~= s);
        },
        None => {
            assert forall|rest: Seq<char>| #[trigger] (rest + suffix) != s by {
                if rest + suffix == s {
                    assert(s.subrange(rest.len() as int, s.len() as int) =~= suffix);
                }
            }
        },
    }
}

} // verus!
