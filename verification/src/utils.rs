//! The error kinds shared by every operation, the guard in front of closing
//! a handle, and the decoding of fixed-width name fields.

use crate::host::Handle;
use std::string::FromUtf16Error;
use vstd::prelude::*;
use vstd::slice::slice_subrange;

verus! {

pub type WinResult<T> = Result<T, WinErrorKind>;

/// Why an operation failed.
#[derive(Clone, Copy, Debug, PartialEq, Eq, Structural)]
pub enum WinErrorKind {
    ReadMemoryError,
    WriteMemoryError,
    FindProcessError,
    FindModuleError,
}

/// What disposing of `handle` asks of the host: to close the handle itself
/// where it may name a live resource, and nothing where it is null or the
/// sentinel.
pub open spec fn to_close(handle: Handle) -> Option<Handle> {
    if handle.is_live() {
        Some(handle)
    } else {
        None
    }
}

/// Closing is guarded: the null handle and the sentinel are never handed to
/// the host, and every other handle is handed on as it is.
pub proof fn lemma_close_is_guarded(handle: Handle)
    ensures
        to_close(Handle::spec_null()) is None,
        to_close(Handle::spec_invalid()) is None,
        handle != Handle::spec_null() && handle != Handle::spec_invalid() ==> to_close(handle)
            == Some(handle),
{
}

/// The handle that the host must be asked to close in order to dispose of
/// `handle`. A null handle and the sentinel give `None`: they must never
/// reach the host's close call.
pub fn close_h(handle: Handle) -> (r: Option<Handle>)
    ensures
        r == to_close(handle),
{
    if !handle.is_null() && !handle.is_invalid() {
        Some(handle)
    } else {
        None
    }
}

/// The error of `String::from_utf16`, carried through as it came.
#[verifier::external_type_specification]
#[verifier::external_body]
pub struct ExFromUtf16Error(FromUtf16Error);

/// The text that a sequence of UTF-16 code units encodes, or `None` where
/// the sequence is not well-formed UTF-16 (it holds an unpaired surrogate).
pub uninterp spec fn utf16_text(units: Seq<u16>) -> Option<Seq<char>>;

/// `String::from_utf16`: decodes `units` as UTF-16. The result is the text
/// that the units encode, and an error exactly where they encode none.
#[verifier::external_body]
fn string_from_utf16(units: &[u16]) -> (r: Result<String, FromUtf16Error>)
    ensures
        match r {
            Ok(s) => utf16_text(units@) == Some(s@),
            Err(_) => utf16_text(units@) is None,
        },
{
    String::from_utf16(units)
}

/// `str::starts_with` with a string as the pattern: whether `text` begins
/// with `prefix`, character by character.
#[verifier::external_body]
pub(crate) fn str_starts_with(text: &str, prefix: &str) -> (r: bool)
    ensures
        r == prefix@.is_prefix_of(text@),
{
    text.starts_with(prefix)
}

/// No unit of `units` is the terminator.
pub open spec fn nil_free(units: Seq<u16>) -> bool {
    forall|j: int| 0 <= j < units.len() ==> units[j] != 0
}

/// The text held in `buf` ends at `k`: no terminator comes before `k`, and
/// `k` is where the first terminator stands, or the length of a buffer
/// without one.
pub open spec fn ends_text(buf: Seq<u16>, k: int) -> bool {
    &&& 0 <= k <= buf.len()
    &&& nil_free(buf.take(k))
    &&& k < buf.len() ==> buf[k] == 0
}

/// The number of units before the first terminator of `buf`.
pub open spec fn text_len(buf: Seq<u16>) -> int {
    choose|k: int| ends_text(buf, k)
}

/// The units of `buf` before its first terminator; all of them where it has none.
pub open spec fn text_units(buf: Seq<u16>) -> Seq<u16> {
    buf.take(text_len(buf))
}

/// The name held in a fixed-width field: its units up to the first
/// terminator, decoded as UTF-16.
pub open spec fn decoded_name(buf: Seq<u16>) -> Option<Seq<char>> {
    utf16_text(text_units(buf))
}

/// A buffer's text ends at one place only.
pub proof fn lemma_text_len_is(buf: Seq<u16>, k: int)
    requires
        ends_text(buf, k),
    ensures
        text_len(buf) == k,
{
    let c = text_len(buf);
    assert(ends_text(buf, c));
    if c < k {
        assert(buf.take(k)[c] == buf[c]);
    } else if k < c {
        assert(buf.take(c)[k] == buf[k]);
    }
}

/// A field whose first terminator stands at `k` holds exactly its first `k`
/// units as text: the terminator and whatever follows it are no part of the name.
pub proof fn lemma_text_stops_at_first_nil(buf: Seq<u16>, k: int)
    requires
        0 <= k < buf.len(),
        buf[k] == 0,
        forall|j: int| 0 <= j < k ==> buf[j] != 0,
    ensures
        text_units(buf) == buf.take(k),
        decoded_name(buf) == utf16_text(buf.take(k)),
{
    lemma_text_len_is(buf, k);
}

/// A field without a terminator holds all of its units as text.
pub proof fn lemma_text_of_nil_free(buf: Seq<u16>)
    requires
        nil_free(buf),
    ensures
        text_units(buf) == buf,
        decoded_name(buf) == utf16_text(buf),
{
    assert(buf.take(buf.len() as int) =~= buf);
    lemma_text_len_is(buf, buf.len() as int);
}

/// Where the text held in a fixed-width field ends: the index of its first
/// terminator, or its length where it holds none.
pub fn nil_index<const C_STR_SIZE: usize>(c_style_str: &[u16; C_STR_SIZE]) -> (k: usize)
    ensures
        ends_text(c_style_str@, k as int),
        k == text_len(c_style_str@),
{
    let mut i: usize = 0;
    while i < C_STR_SIZE
        invariant
            i <= C_STR_SIZE,
            c_style_str@.len() == C_STR_SIZE,
            forall|j: int| 0 <= j < i ==> c_style_str@[j] != 0,
        decreases C_STR_SIZE - i,
    {
        if c_style_str[i] == 0 {
            proof {
                lemma_text_len_is(c_style_str@, i as int);
            }
            return i;
        }
        i += 1;
    }
    proof {
        lemma_text_len_is(c_style_str@, i as int);
    }
    i
}

/// Decodes the name held in a fixed-width field: the units before its first
/// terminator, or all of them where it has none, read as UTF-16. Fails
/// exactly where those units are no well-formed UTF-16.
pub fn remove_nil_bytes<const C_STR_SIZE: usize>(c_style_str: &[u16; C_STR_SIZE]) -> (r: Result<
    String,
    FromUtf16Error,
>)
    ensures
        match r {
            Ok(s) => decoded_name(c_style_str@) == Some(s@),
            Err(_) => decoded_name(c_style_str@) is None,
        },
{
    let k: usize = nil_index(c_style_str);
    let text = slice_subrange(c_style_str.as_slice(), 0, k);
    string_from_utf16(text)
}

} // verus!
