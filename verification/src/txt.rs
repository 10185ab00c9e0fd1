//! TXT records: `key[=value]` entries, and the packed buffer that carries them.

use vstd::prelude::*;
use vstd::slice::{slice_subrange, slice_to_vec};
use vstd::utf8::*;

use crate::text::{
    first_index, lemma_ascii_byte, lemma_first_index, lemma_first_index_holds, lemma_no_ascii_byte,
};

verus! {

/// A single TXT record key/value entry.
///
/// `value` is binary-safe and is `None` for a key-only entry (a key advertised
/// without an `=`).
#[derive(Debug, Clone, PartialEq, Eq)]
pub struct TxtRecord {
    /// The TXT record key.
    pub key: String,
    /// The TXT record value, or `None` for a key-only entry.
    pub value: Option<Vec<u8>>,
}

/// A TXT record as text and bytes.
pub struct TxtEntry {
    pub key: Seq<char>,
    pub value: Option<Seq<u8>>,
}

/// The bytes of an optional value.
pub open spec fn value_bytes(value: Option<Vec<u8>>) -> Option<Seq<u8>> {
    match value {
        Some(bytes) => Some(bytes@),
        None => None,
    }
}

impl DeepView for TxtRecord {
    type V = TxtEntry;

    open spec fn deep_view(&self) -> TxtEntry {
        TxtEntry { key: self.key@, value: value_bytes(self.value) }
    }
}

/// The text that lossy decoding gives for bytes that are not valid UTF-8.
pub uninterp spec fn repaired_utf8(bytes: Seq<u8>) -> Seq<char>;

/// The text that lossy decoding gives for `bytes`.
pub open spec fn lossy_text(bytes: Seq<u8>) -> Seq<char> {
    if valid_utf8(bytes) {
        decode_utf8(bytes)
    } else {
        repaired_utf8(bytes)
    }
}

/// Decodes UTF-8 with `String::from_utf8_lossy`.
///
/// What is taken on trust: valid UTF-8 decodes to the characters that it
/// encodes; for anything else the text is a function of the bytes alone, holds at
/// least one U+FFFD, the character that replaces an invalid sequence, and holds an
/// ASCII character exactly if its byte is there: such a byte is no part of an
/// invalid sequence.
#[verifier::external_body]
fn decode_lossy(bytes: &[u8]) -> (decoded: String)
    ensures
        valid_utf8(bytes@) ==> decoded@ == decode_utf8(bytes@),
        !valid_utf8(bytes@) ==> decoded@ == repaired_utf8(bytes@),
        !valid_utf8(bytes@) ==> decoded@.contains('\u{FFFD}'),
        !valid_utf8(bytes@) ==> forall|b: u8|
            b < 0x80 ==> (decoded@.contains(b as char) <==> #[trigger] bytes@.contains(b)),
{
    String::from_utf8_lossy(bytes).into_owned()
}

/// Decodes UTF-8, replacing what is invalid. An ASCII character comes out exactly if
/// its byte goes in.
pub(crate) fn decode_text(bytes: &[u8]) -> (decoded: String)
    ensures
        decoded@ == lossy_text(bytes@),
        !valid_utf8(bytes@) ==> decoded@.contains('\u{FFFD}'),
        forall|b: u8|
            b < 0x80 ==> (decoded@.contains(b as char) <==> #[trigger] bytes@.contains(b)),
{
    let decoded = decode_lossy(bytes);
    proof {
        if valid_utf8(bytes@) {
            decode_utf8_encode_utf8(bytes@);
            assert forall|b: u8| b < 0x80 implies (decoded@.contains(b as char)
                <==> #[trigger] bytes@.contains(b)) by {
                if decoded@.contains(b as char) {
                    lemma_ascii_byte(decoded@, b as char, b);
                } else {
                    lemma_no_ascii_byte(decoded@, b as char, b);
                }
            }
        }
    }
    decoded
}

/// Where the key of an entry ends: at its first `=`, or at the end of the entry.
pub open spec fn key_end(entry: Seq<u8>) -> int {
    first_index(entry, 0x3du8) as int
}

/// The bytes of the key: everything before the first `=`.
pub open spec fn key_bytes(entry: Seq<u8>) -> Seq<u8> {
    entry.take(key_end(entry))
}

/// The value: everything after the first `=`, if there is one.
pub open spec fn entry_value(entry: Seq<u8>) -> Option<Seq<u8>> {
    if key_end(entry) < entry.len() {
        Some(entry.skip(key_end(entry) + 1))
    } else {
        None
    }
}

/// The record that an entry stands for.
pub open spec fn txt_entry(entry: Seq<u8>) -> TxtEntry {
    TxtEntry { key: lossy_text(key_bytes(entry)), value: entry_value(entry) }
}

/// Splits an entry at its first `=` into the bytes of the key and the value.
pub fn split_txt_entry(entry: &[u8]) -> (parts: (&[u8], Option<Vec<u8>>))
    ensures
        parts.0@ == key_bytes(entry@),
        value_bytes(parts.1) == entry_value(entry@),
{
    let mut pos: usize = 0;
    while pos < entry.len() && entry[pos] != 0x3du8
        invariant
            pos <= entry.len(),
            forall|j: int| 0 <= j < pos ==> entry@[j] != 0x3du8,
        decreases entry.len() - pos,
    {
        pos = pos + 1;
    }
    proof {
        lemma_first_index(entry@, 0x3du8, pos as int);
        assert(entry@.take(pos as int) =~= entry@.subrange(0, pos as int));
    }
    let key = slice_subrange(entry, 0, pos);
    if pos < entry.len() {
        assert(entry@.skip(pos + 1) =~= entry@.subrange(pos + 1, entry@.len() as int));
        (key, Some(slice_to_vec(slice_subrange(entry, pos + 1, entry.len()))))
    } else {
        (key, None)
    }
}

/// Parses a single `key` or `key=value` TXT entry into a [`TxtRecord`].
///
/// Everything before the first `=` is the key; everything after is the
/// (binary-safe) value. An entry with no `=` is key-only. Whatever the bytes are, no
/// `=` ends up in the key.
pub fn parse_txt_entry(entry: &[u8]) -> (record: TxtRecord)
    ensures
        record.deep_view() == txt_entry(entry@),
        !valid_utf8(key_bytes(entry@)) ==> record.key@.contains('\u{FFFD}'),
        !record.key@.contains('='),
{
    let (key, value) = split_txt_entry(entry);
    proof {
        lemma_first_index_holds(entry@, 0x3du8);
        assert(!key@.contains(0x3du8));
        assert(0x3du8 as char == '=');
    }
    TxtRecord { key: decode_text(key), value }
}

/// The entries that a packed buffer frames, each behind a byte with its length.
/// Empty entries are skipped; a length that reaches past the end of the buffer
/// ends the list.
pub open spec fn txt_frames(buf: Seq<u8>) -> Seq<Seq<u8>>
    decreases buf.len(),
{
    if buf.len() == 0 || 1 + buf[0] > buf.len() {
        Seq::empty()
    } else {
        let rest = txt_frames(buf.skip(1 + buf[0] as int));
        if buf[0] == 0 {
            rest
        } else {
            seq![buf.subrange(1, 1 + buf[0] as int)] + rest
        }
    }
}

/// The records that a packed buffer carries.
pub open spec fn txt_records(buf: Seq<u8>) -> Seq<TxtEntry> {
    txt_frames(buf).map_values(|entry: Seq<u8>| txt_entry(entry))
}

/// Parses a packed DNS-SD TXT record buffer (a sequence of length-prefixed
/// `key[=value]` entries) into [`TxtRecord`]s. Empty entries are skipped.
pub fn parse_txt_buffer(buf: &[u8]) -> (records: Vec<TxtRecord>)
    ensures
        records.deep_view() == txt_records(buf@),
        forall|i: int|
            0 <= i < records.len() && !valid_utf8(key_bytes(#[trigger] txt_frames(buf@)[i]))
                ==> records[i].key@.contains('\u{FFFD}'),
        forall|i: int| 0 <= i < records.len() ==> !(#[trigger] records[i]).key@.contains('='),
{
    let mut records: Vec<TxtRecord> = Vec::new();
    let ghost mut done: Seq<Seq<u8>> = Seq::empty();
    let mut i: usize = 0;
    let mut open: bool = true;
    assert(buf@.skip(0) =~= buf@);
    while open && i < buf.len()
        invariant
            i <= buf.len(),
            open ==> txt_frames(buf@) == done + txt_frames(buf@.skip(i as int)),
            !open ==> txt_frames(buf@) == done,
            records.len() == done.len(),
            forall|k: int|
                0 <= k < done.len() ==> records[k].deep_view() == txt_entry(#[trigger] done[k]),
            forall|k: int|
                0 <= k < done.len() && !valid_utf8(key_bytes(#[trigger] done[k]))
                    ==> records[k].key@.contains('\u{FFFD}'),
            forall|k: int| 0 <= k < records.len() ==> !(#[trigger] records[k]).key@.contains('='),
        decreases buf.len() - i,
    {
        let len: usize = buf[i] as usize;
        let ghost rest = buf@.skip(i as int);
        assert(rest[0] == len);
        i = i + 1;
        if len > buf.len() - i {
            assert(done + Seq::<Seq<u8>>::empty() =~= done);
            open = false;
        } else {
            assert(rest.skip(1 + len as int) =~= buf@.skip(i + len));
            if len > 0 {
                let ghost entry = buf@.subrange(i as int, i + len);
                assert(rest.subrange(1, 1 + len as int) =~= entry);
                records.push(parse_txt_entry(slice_subrange(buf, i, i + len)));
                proof {
                    assert(done + (seq![entry] + txt_frames(buf@.skip(i + len))) =~= done.push(
                        entry,
                    ) + txt_frames(buf@.skip(i + len)));
                    done = done.push(entry);
                }
            }
            i = i + len;
        }
    }
    proof {
        if open {
            assert(done + Seq::<Seq<u8>>::empty() =~= done);
        }
        assert(records.deep_view() =~= txt_records(buf@));
    }
    records
}

/// An entry as it is packed: cut off after 255 bytes, which is what one length
/// byte can announce.
pub open spec fn clipped(entry: Seq<u8>) -> Seq<u8> {
    if entry.len() > 255 {
        entry.take(255)
    } else {
        entry
    }
}

/// The buffer that carries `entries`, each behind a byte with its length.
pub open spec fn pack(entries: Seq<Seq<u8>>) -> Seq<u8>
    decreases entries.len(),
{
    if entries.len() == 0 {
        Seq::empty()
    } else {
        seq![clipped(entries[0]).len() as u8] + clipped(entries[0]) + pack(entries.drop_first())
    }
}

/// Whether an entry holds anything.
pub open spec fn nonempty(entry: Seq<u8>) -> bool {
    entry.len() > 0
}

/// Packing entries and parsing the buffer gives back exactly the entries that
/// are not empty, in order, each as the single-entry parser reads it.
pub proof fn law_txt_round_trip(entries: Seq<Seq<u8>>)
    ensures
        txt_frames(pack(entries)) == entries.map_values(|e: Seq<u8>| clipped(e)).filter(
            |e: Seq<u8>| nonempty(e),
        ),
        txt_records(pack(entries)) == entries.map_values(|e: Seq<u8>| clipped(e)).filter(
            |e: Seq<u8>| nonempty(e),
        ).map_values(|e: Seq<u8>| txt_entry(e)),
    decreases entries.len(),
{
    let clip = |e: Seq<u8>| clipped(e);
    let keep = |e: Seq<u8>| nonempty(e);
    let all = entries.map_values(clip);
    reveal_with_fuel(Seq::<_>::filter, 2);
    if entries.len() == 0 {
        assert(all =~= Seq::empty());
    } else {
        let first = clipped(entries[0]);
        let rest = entries.drop_first();
        law_txt_round_trip(rest);
        let buf = pack(entries);
        assert(buf[0] == first.len());
        assert(buf.skip(1 + first.len() as int) =~= pack(rest));
        assert(buf.subrange(1, 1 + first.len() as int) =~= first);
        assert(all =~= seq![first] + rest.map_values(clip));
        Seq::filter_distributes_over_add(seq![first], rest.map_values(clip), keep);
        assert(seq![first].drop_last() =~= Seq::empty());
        assert(seq![first].filter(keep) =~= if nonempty(first) {
            seq![first]
        } else {
            Seq::empty()
        });
        assert(txt_frames(buf) =~= all.filter(keep));
    }
}

/// The framing limits: every record takes at least its length byte and one byte
/// of payload, and no value is longer than what a 255-byte entry leaves behind
/// its `=`.
pub proof fn law_txt_buffer_limits(buf: Seq<u8>)
    ensures
        2 * txt_records(buf).len() <= buf.len(),
        forall|i: int|
            0 <= i < txt_records(buf).len() ==> match #[trigger] txt_records(buf)[i].value {
                Some(value) => value.len() <= 254,
                None => true,
            },
    decreases buf.len(),
{
    if buf.len() > 0 && 1 + buf[0] <= buf.len() {
        let tail = buf.skip(1 + buf[0] as int);
        law_txt_buffer_limits(tail);
        let entry = buf.subrange(1, 1 + buf[0] as int);
        lemma_first_index_holds(entry, 0x3du8);
        assert forall|i: int| 0 <= i < txt_records(buf).len() implies match #[trigger] txt_records(
            buf,
        )[i].value {
            Some(value) => value.len() <= 254,
            None => true,
        } by {
            if buf[0] == 0 {
                assert(txt_records(buf)[i] == txt_records(tail)[i]);
            } else if i > 0 {
                assert(txt_records(buf)[i] == txt_records(tail)[i - 1]);
            } else {
                assert(txt_records(buf)[i] == txt_entry(entry));
            }
        }
    }
}

/// A key without `=` and a value come back from the entry `key=value`, and the
/// key alone from the entry `key`.
pub proof fn law_txt_entry_round_trip(key: Seq<char>, value: Seq<u8>)
    requires
        !key.contains('='),
    ensures
        txt_entry(encode_utf8(key) + seq![0x3du8] + value) == (TxtEntry {
            key,
            value: Some(value),
        }),
        txt_entry(encode_utf8(key)) == (TxtEntry { key, value: None }),
{
    let bytes = encode_utf8(key);
    lemma_no_ascii_byte(key, '=', 0x3du8);
    encode_utf8_valid_utf8(key);
    encode_utf8_decode_utf8(key);
    let entry = bytes + seq![0x3du8] + value;
    assert forall|j: int| 0 <= j < bytes.len() implies entry[j] != 0x3du8 by {
        assert(entry[j] == bytes[j]);
    }
    lemma_first_index(entry, 0x3du8, bytes.len() as int);
    assert(entry.take(bytes.len() as int) =~= bytes);
    assert(entry.skip(bytes.len() + 1int) =~= value);
    lemma_first_index(bytes, 0x3du8, bytes.len() as int);
    assert(bytes.take(bytes.len() as int) =~= bytes);
}

/// Whatever the bytes: the first `=` ends the key, all behind it is the value, and
/// an entry without `=` has none. The key is what the bytes before it decode to.
pub proof fn law_txt_entry_splits(key: Seq<u8>, value: Seq<u8>)
    requires
        !key.contains(0x3du8),
    ensures
        txt_entry(key + seq![0x3du8] + value).value == Some(value),
        txt_entry(key).value is None,
        txt_entry(key + seq![0x3du8] + value).key == txt_entry(key).key,
        valid_utf8(key) ==> txt_entry(key).key == decode_utf8(key),
        !valid_utf8(key) ==> txt_entry(key).key == repaired_utf8(key),
{
    let entry = key + seq![0x3du8] + value;
    assert forall|j: int| 0 <= j < key.len() implies entry[j] != 0x3du8 by {
        assert(entry[j] == key[j]);
        assert(key.contains(key[j]));
    }
    lemma_first_index(entry, 0x3du8, key.len() as int);
    assert(entry.take(key.len() as int) =~= key);
    assert(entry.skip(key.len() + 1int) =~= value);
    assert forall|j: int| 0 <= j < key.len() implies key[j] != 0x3du8 by {
        assert(key.contains(key[j]));
    }
    lemma_first_index(key, 0x3du8, key.len() as int);
    assert(key.take(key.len() as int) =~= key);
}

/// A length that reaches past the end hides only the bytes behind it: the records in
/// front of it come out as they do alone.
pub proof fn law_txt_truncated(entries: Seq<Seq<u8>>, length: u8, rest: Seq<u8>)
    requires
        rest.len() < length,
    ensures
        txt_records(pack(entries) + seq![length] + rest) == txt_records(pack(entries)),
{
    let tail = seq![length] + rest;
    lemma_txt_truncated(entries, length, rest);
    assert(pack(entries) + seq![length] + rest =~= pack(entries) + tail);
}

/// The frames in front of a length that reaches past the end.
proof fn lemma_txt_truncated(entries: Seq<Seq<u8>>, length: u8, rest: Seq<u8>)
    requires
        rest.len() < length,
    ensures
        txt_frames(pack(entries) + (seq![length] + rest)) == txt_frames(pack(entries)),
    decreases entries.len(),
{
    let tail = seq![length] + rest;
    let buf = pack(entries) + tail;
    if entries.len() == 0 {
        assert(buf =~= tail);
        assert(buf[0] == length);
    } else {
        let first = clipped(entries[0]);
        let behind = entries.drop_first();
        lemma_txt_truncated(behind, length, rest);
        let alone = pack(entries);
        assert(alone[0] == first.len());
        assert(buf[0] == first.len());
        assert(alone.skip(1 + first.len() as int) =~= pack(behind));
        assert(buf.skip(1 + first.len() as int) =~= pack(behind) + tail);
        assert(alone.subrange(1, 1 + first.len() as int) =~= first);
        assert(buf.subrange(1, 1 + first.len() as int) =~= first);
    }
}

/// A value is its bytes, an empty one included; only a missing value is none.
pub proof fn law_value_bytes(value: Vec<u8>)
    ensures
        value_bytes(Some(value)) == Some(value@),
        value_bytes(None) is None,
{
}

} // verus!
