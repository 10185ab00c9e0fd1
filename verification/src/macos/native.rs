//! What the DNS-SD API takes and returns: flags, status codes, C strings and
//! references.

use vstd::prelude::*;
use vstd::slice::slice_to_vec;
use vstd::string::*;
use vstd::utf8::*;

use crate::browse::{ErrorView, ServiceBrowseError};
use crate::text::{
    concat, first_index, lemma_ascii_byte, lemma_first_index, lemma_first_index_holds,
    lemma_no_ascii_byte, signed_decimal, signed_decimal_text,
};
use crate::txt::{decode_text, lossy_text, repaired_utf8};

verus! {

/// Flags of a request or a reply.
pub type DNSServiceFlags = u32;

/// A status code of the DNS-SD API.
pub type DNSServiceErrorType = i32;

/// Set in reply flags when more results are imminent.
pub const FLAGS_MORE_COMING: DNSServiceFlags = 0x1;

/// Set in browse reply flags when the result is an addition (vs removal).
pub const FLAGS_ADD: DNSServiceFlags = 0x2;

/// Passed when starting an operation on a copy of a shared connection's reference.
pub const FLAGS_SHARE_CONNECTION: DNSServiceFlags = 0x4000;

/// The status of a call that succeeded.
pub const NO_ERROR: DNSServiceErrorType = 0;

/// The DNS-SD meta-query used to enumerate all service types on the network.
pub const META_QUERY_TYPE: &'static str = "_services._dns-sd._udp";

/// How often the browse pump wakes to check the stop flag (milliseconds).
pub const POLL_INTERVAL_MS: i32 = 200;

/// Per-instance resolve timeout (milliseconds).
pub const RESOLVE_TIMEOUT_MS: i32 = 5000;

/// Per-instance address-lookup budget (milliseconds).
pub const GETADDR_TIMEOUT_MS: u64 = 2000;

/// Whether any bit of `mask` is set in `flags`.
pub open spec fn has_flag(flags: u32, mask: u32) -> bool {
    flags & mask != 0
}

/// A C string: bytes without a NUL among them, and one behind them.
pub struct CString {
    bytes: Vec<u8>,
}

impl View for CString {
    type V = Seq<u8>;

    closed spec fn view(&self) -> Seq<u8> {
        self.bytes@
    }
}

impl CString {
    #[verifier::type_invariant]
    closed spec fn without_nul(self) -> bool {
        first_index(self.bytes@, 0u8) == self.bytes@.len()
    }

    /// The bytes, without the NUL at the end.
    pub fn to_bytes(&self) -> (bytes: &[u8])
        ensures
            bytes@ == self@,
            !bytes@.contains(0u8),
    {
        proof {
            use_type_invariant(self);
            lemma_first_index_holds(self.bytes@, 0u8);
        }
        self.bytes.as_slice()
    }

    /// The bytes with the NUL behind them.
    pub fn to_bytes_with_nul(&self) -> (bytes: Vec<u8>)
        ensures
            bytes@ == self@.push(0u8),
    {
        let mut bytes = slice_to_vec(self.bytes.as_slice());
        bytes.push(0u8);
        bytes
    }
}

/// The error for text that cannot be a C string: the position of its first NUL
/// byte.
pub open spec fn nul_error(s: Seq<char>) -> Option<ErrorView> {
    let bytes = encode_utf8(s);
    let position = first_index(bytes, 0u8);
    if position < bytes.len() {
        Some(ErrorView::ParameterContainsInteriorNulByte(s, position as usize))
    } else {
        None
    }
}

/// Converts text to a C string. It fails exactly when the text holds a NUL, with
/// the position of the first.
pub fn cstring(s: &str) -> (converted: Result<CString, ServiceBrowseError>)
    ensures
        match converted {
            Ok(c) => nul_error(s@) is None && c@ == encode_utf8(s@),
            Err(error) => nul_error(s@) == Some(error.deep_view()),
        },
{
    let bytes = slice_to_vec(s.as_bytes());
    let mut pos: usize = 0;
    while pos < bytes.len() && bytes[pos] != 0
        invariant
            pos <= bytes.len(),
            forall|j: int| 0 <= j < pos ==> bytes@[j] != 0u8,
        decreases bytes.len() - pos,
    {
        pos = pos + 1;
    }
    proof {
        lemma_first_index(bytes@, 0u8, pos as int);
    }
    if pos < bytes.len() {
        Err(ServiceBrowseError::ParameterContainsInteriorNulByte(s.to_owned(), pos))
    } else {
        Ok(CString { bytes })
    }
}

/// Text is a C string exactly if it holds no NUL character.
pub proof fn law_cstring_refuses_only_nul(s: Seq<char>)
    ensures
        nul_error(s) is None <==> !s.contains('\0'),
{
    let bytes = encode_utf8(s);
    lemma_first_index_holds(bytes, 0u8);
    if s.contains('\0') {
        lemma_ascii_byte(s, '\0', 0u8);
    } else {
        lemma_no_ascii_byte(s, '\0', 0u8);
    }
}

/// The text that a C string stands for: nothing for a null pointer.
pub open spec fn cstr_text(p: Option<Seq<u8>>) -> Seq<char> {
    match p {
        Some(bytes) => lossy_text(bytes),
        None => Seq::empty(),
    }
}

/// Reads a C string, given without its NUL; `None` stands for a null pointer.
/// Bytes that are not UTF-8 are replaced.
pub fn cstr_to_string(p: Option<&[u8]>) -> (text: String)
    ensures
        text@ == cstr_text(match p {
            Some(bytes) => Some(bytes@),
            None => None,
        }),
        p is Some && !valid_utf8(p->0@) ==> text@.contains('\u{FFFD}'),
        p is Some && !p->0@.contains(0u8) ==> !text@.contains('\0'),
{
    match p {
        Some(bytes) => {
            assert(0u8 as char == '\0');
            decode_text(bytes)
        },
        None => String::new(),
    }
}

/// A C string that was made of text reads back as that text.
pub proof fn law_cstring_round_trip(s: Seq<char>)
    ensures
        cstr_text(Some(encode_utf8(s))) == s,
{
    encode_utf8_valid_utf8(s);
    encode_utf8_decode_utf8(s);
}

/// A reference to a connection or an operation of the DNS-SD API, as the API hands
/// it out; zero stands for none.
#[derive(Debug)]
pub struct DNSServiceRef(pub usize);

impl Default for DNSServiceRef {
    fn default() -> (reference: DNSServiceRef)
        ensures
            reference.0 == 0,
    {
        DNSServiceRef(0)
    }
}

impl DeepView for DNSServiceRef {
    type V = usize;

    open spec fn deep_view(&self) -> usize {
        self.0
    }
}

/// The message for a call that failed with a status code.
pub open spec fn status_message(what: Seq<char>, status: int) -> Seq<char> {
    what + signed_decimal(status)
}

/// The error for a call that failed with a status code.
pub(crate) fn status_error(what: &str, status: i32) -> (error: ServiceBrowseError)
    ensures
        error.deep_view() == ErrorView::BrowseFailed(status_message(what@, status as int)),
{
    ServiceBrowseError::BrowseFailed(concat(what, signed_decimal_text(status).as_str()))
}

/// Text with a NUL is refused under its own name, with the position of its first NUL
/// byte.
pub proof fn law_nul_position(s: Seq<char>)
    requires
        encode_utf8(s).len() <= usize::MAX,
    ensures
        match nul_error(s) {
            Some(ErrorView::ParameterContainsInteriorNulByte(parameter, position)) => {
                &&& parameter == s
                &&& position < encode_utf8(s).len()
                &&& encode_utf8(s)[position as int] == 0
                &&& forall|j: int| 0 <= j < position ==> encode_utf8(s)[j] != 0
            },
            Some(_) => false,
            None => true,
        },
{
    lemma_first_index_holds(encode_utf8(s), 0u8);
}

/// A null pointer reads as no text; valid UTF-8 reads as what it encodes, anything
/// else as what repairing it gives.
pub proof fn law_cstr_text(bytes: Seq<u8>)
    ensures
        cstr_text(None).len() == 0,
        valid_utf8(bytes) ==> cstr_text(Some(bytes)) == decode_utf8(bytes),
        !valid_utf8(bytes) ==> cstr_text(Some(bytes)) == repaired_utf8(bytes),
{
}

/// The message of a failed call is what was called, and the status as a number.
pub proof fn law_status_message(what: Seq<char>, status: int)
    ensures
        what.is_prefix_of(status_message(what, status)),
        status_message(what, status).skip(what.len() as int) == signed_decimal(status),
{
    assert(status_message(what, status).take(what.len() as int) =~= what);
    assert(status_message(what, status).skip(what.len() as int) =~= signed_decimal(status));
}

/// A flag is there exactly if its bit is: whatever the other bits are.
pub proof fn law_flag_bits(flags: u32)
    ensures
        has_flag(flags, FLAGS_MORE_COMING) <==> flags % 2 == 1,
        has_flag(flags, FLAGS_ADD) <==> (flags / 2) % 2 == 1,
{
    assert(flags & 0x1 != 0 <==> flags % 2 == 1) by (bit_vector);
    assert(flags & 0x2 != 0 <==> (flags / 2) % 2 == 1) by (bit_vector);
}

} // verus!
