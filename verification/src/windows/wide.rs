//! Wide strings: text as UTF-16, with a NUL behind it.

use vstd::prelude::*;
use vstd::utf8::*;
use widestring::U16CString;

use crate::text::{decimal, first_index, lemma_first_index, lemma_first_index_holds};

verus! {

/// The UTF-16 units of a character: one, or a surrogate pair.
pub open spec fn utf16_char(c: char) -> Seq<u16> {
    let scalar = c as u32;
    if scalar < 0x10000 {
        seq![scalar as u16]
    } else {
        let offset = scalar - 0x10000;
        seq![(0xD800 + offset / 0x400) as u16, (0xDC00 + offset % 0x400) as u16]
    }
}

/// Text as UTF-16.
pub open spec fn utf16(s: Seq<char>) -> Seq<u16>
    decreases s.len(),
{
    if s.len() == 0 {
        Seq::empty()
    } else {
        utf16_char(s[0]) + utf16(s.drop_first())
    }
}

/// `s` as a wide string, NUL included: none if it holds a NUL that is not the only
/// one, at its end.
pub open spec fn wide_string(s: Seq<char>) -> Option<Seq<u16>> {
    let units = utf16(s);
    let position = first_index(units, 0u16);
    if position == units.len() {
        Some(units.push(0u16))
    } else if position == units.len() - 1 {
        Some(units)
    } else {
        None
    }
}

/// Why `s` is not a wide string.
pub open spec fn wide_string_error(s: Seq<char>) -> Seq<char> {
    "invalid nul value found at position "@ + decimal(first_index(utf16(s), 0u16))
}

/// Encodes text as a wide string with widestring's `U16CString::from_str`.
///
/// What is taken on trust: text without a NUL is encoded as UTF-16 and terminated;
/// text with a single NUL at its end counts as terminated already; any other NUL is
/// refused, with a message that gives the position of the first.
#[verifier::external_body]
pub(crate) fn encode_wide(s: &str) -> (encoded: Result<Vec<u16>, String>)
    ensures
        match encoded {
            Ok(units) => wide_string(s@) == Some(units@),
            Err(reason) => wide_string(s@) is None && reason@ == wide_string_error(s@),
        },
{
    U16CString::from_str(s).map(|wide| wide.into_vec_with_nul()).map_err(|error| error.to_string())
}

/// Decodes UTF-16 with `String::from_utf16`.
///
/// What is taken on trust: the text is the one that encodes to these units, and
/// there is none only if no text does.
#[verifier::external_body]
fn decode_utf16(units: &[u16]) -> (decoded: Option<String>)
    ensures
        match decoded {
            Some(text) => utf16(text@) == units@,
            None => forall|s: Seq<char>| #[trigger] utf16(s) != units@,
        },
{
    String::from_utf16(units).ok()
}

/// The text that encodes to `units`, if there is one.
pub open spec fn text_of(units: Seq<u16>) -> Option<Seq<char>> {
    if exists|s: Seq<char>| #[trigger] utf16(s) == units {
        Some(choose|s: Seq<char>| #[trigger] utf16(s) == units)
    } else {
        None
    }
}

/// The text that a wide string stands for: nothing for a null pointer, and nothing
/// for units that are not UTF-16.
pub open spec fn pwstr_text(p: Option<Seq<u16>>) -> Seq<char> {
    match p {
        Some(units) => match text_of(units) {
            Some(text) => text,
            None => Seq::empty(),
        },
        None => Seq::empty(),
    }
}

/// The units of an optional wide string.
pub open spec fn wide_units(p: Option<Vec<u16>>) -> Option<Seq<u16>> {
    match p {
        Some(units) => Some(units@),
        None => None,
    }
}

/// Reads a wide string, given without its NUL; `None` stands for a null pointer.
pub fn pwstr_to_string(p: &Option<Vec<u16>>) -> (text: String)
    ensures
        text@ == pwstr_text(wide_units(*p)),
{
    match p {
        Some(units) => match decode_utf16(units.as_slice()) {
            Some(text) => {
                proof {
                    law_utf16_round_trip(text@);
                }
                text
            },
            None => String::new(),
        },
        None => String::new(),
    }
}

/// Different texts have different encodings.
proof fn lemma_utf16_injective(a: Seq<char>, b: Seq<char>)
    requires
        utf16(a) == utf16(b),
    ensures
        a == b,
    decreases a.len(),
{
    if a.len() == 0 {
        if b.len() > 0 {
            assert(utf16(b).len() >= utf16_char(b[0]).len());
        }
    } else if b.len() == 0 {
        assert(utf16(a).len() >= utf16_char(a[0]).len());
    } else {
        let (x, y) = (a[0], b[0]);
        let (head_a, head_b) = (utf16_char(x), utf16_char(y));
        let (rest_a, rest_b) = (utf16(a.drop_first()), utf16(b.drop_first()));
        char_is_scalar(x);
        char_is_scalar(y);
        assert((head_a + rest_a)[0] == head_a[0]);
        assert((head_b + rest_b)[0] == head_b[0]);
        assert(head_a.len() == head_b.len());
        if head_a.len() == 2 {
            assert((head_a + rest_a)[1] == head_a[1]);
            assert((head_b + rest_b)[1] == head_b[1]);
        }
        assert(x as u32 == y as u32);
        char_u32_cast(x, x as u32);
        char_u32_cast(y, y as u32);
        assert(rest_a =~= utf16(a).skip(head_a.len() as int));
        assert(rest_b =~= utf16(b).skip(head_b.len() as int));
        lemma_utf16_injective(a.drop_first(), b.drop_first());
        assert(a =~= seq![x] + a.drop_first());
        assert(b =~= seq![y] + b.drop_first());
    }
}

/// Text comes back from its encoding.
pub proof fn law_utf16_round_trip(s: Seq<char>)
    ensures
        text_of(utf16(s)) == Some(s),
        pwstr_text(Some(utf16(s))) == s,
{
    let t = choose|t: Seq<char>| #[trigger] utf16(t) == utf16(s);
    lemma_utf16_injective(t, s);
}

/// A wide string is its text, a NUL, and nothing behind it: text without a NUL is
/// always one.
pub proof fn law_wide_string_is_terminated(s: Seq<char>)
    ensures
        !s.contains('\0') ==> wide_string(s) == Some(utf16(s).push(0u16)),
        match wide_string(s) {
            Some(units) => {
                &&& units.len() > 0
                &&& first_index(units, 0u16) == units.len() - 1
            },
            None => s.contains('\0'),
        },
{
    let units = utf16(s);
    lemma_first_index_holds(units, 0u16);
    if !s.contains('\0') {
        lemma_no_nul_unit(s);
    }
    if first_index(units, 0u16) == units.len() {
        lemma_first_index(units.push(0u16), 0u16, units.len() as int);
    }
}

/// Text without a NUL encodes to units without one.
proof fn lemma_no_nul_unit(s: Seq<char>)
    requires
        !s.contains('\0'),
    ensures
        forall|i: int| 0 <= i < utf16(s).len() ==> utf16(s)[i] != 0u16,
    decreases s.len(),
{
    if s.len() > 0 {
        let rest = s.drop_first();
        assert(!rest.contains('\0')) by {
            if rest.contains('\0') {
                let k = choose|k: int| 0 <= k < rest.len() && rest[k] == '\0';
                assert(s[k + 1] == '\0');
            }
        }
        lemma_no_nul_unit(rest);
        let head = utf16_char(s[0]);
        assert(s[0] != '\0');
        char_is_scalar(s[0]);
        char_u32_cast(s[0], s[0] as u32);
        assert(s[0] as u32 != 0);
        assert forall|i: int| 0 <= i < utf16(s).len() implies utf16(s)[i] != 0u16 by {
            if i < head.len() {
                assert((head + utf16(rest))[i] == head[i]);
            } else {
                assert((head + utf16(rest))[i] == utf16(rest)[i - head.len()]);
            }
        }
    }
}

/// A wide string is the text's own encoding, with a NUL behind it unless it ends with
/// one; text with a NUL in front of its last unit is none, and only that is.
pub proof fn law_wide_string_is_the_text(s: Seq<char>)
    ensures
        match wide_string(s) {
            Some(units) => {
                &&& units.last() == 0
                &&& forall|i: int| 0 <= i < units.len() - 1 ==> units[i] != 0
                &&& units == utf16(s) || units == utf16(s).push(0u16)
            },
            None => exists|i: int| 0 <= i < utf16(s).len() - 1 && #[trigger] utf16(s)[i] == 0,
        },
{
    let units = utf16(s);
    lemma_first_index_holds(units, 0u16);
    if wide_string(s) is None {
        assert(units[first_index(units, 0u16) as int] == 0);
    }
}

/// A null pointer is no text, and so are units that no text encodes to.
pub proof fn law_pwstr_without_text(units: Seq<u16>)
    requires
        forall|s: Seq<char>| #[trigger] utf16(s) != units,
    ensures
        pwstr_text(Some(units)).len() == 0,
        pwstr_text(None).len() == 0,
{
}

} // verus!
