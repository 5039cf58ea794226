//! Device-name decoding: a bounded scan of a fixed-size, nul-terminated
//! signed-byte buffer, with explicit error outcomes instead of unchecked
//! unwraps.

use vstd::prelude::*;

verus! {

/// Why a name buffer could not be decoded.
#[derive(Clone, Copy, Debug, PartialEq, Eq, Structural)]
pub enum NameError {
    /// No nul terminator anywhere in the buffer.
    NoTerminator,
    /// The bytes before the terminator are not valid UTF-8.
    InvalidUtf8,
}

/// What UTF-8 decoding yields on a byte sequence: the character sequence,
/// or nothing when the bytes are not valid UTF-8.
pub uninterp spec fn utf8_decoded(bytes: Seq<u8>) -> Option<Seq<char>>;

/// Relies on core::str::from_utf8: validates the bytes as UTF-8 and yields
/// the decoded string; the result depends on the bytes alone.
#[verifier::external_body]
fn decode_utf8(bytes: &[u8]) -> (r: Option<String>)
    ensures
        r is Some <==> utf8_decoded(bytes@) is Some,
        r matches Some(s) ==> utf8_decoded(bytes@) == Some(s@),
{
    match core::str::from_utf8(bytes) {
        Ok(s) => Some(s.to_owned()),
        Err(_) => None,
    }
}

/// The bytes of the buffer prefix of length `end`, each signed byte
/// reinterpreted as the unsigned byte with the same bits.
pub open spec fn prefix_bytes(s: Seq<i8>, end: int) -> Seq<u8> {
    s.take(end).map_values(|c: i8| c as u8)
}

/// Decodes a fixed-size, nul-terminated signed-byte name buffer (as device
/// properties report names) into text. The scan is bounded by the buffer:
/// a buffer with no terminator is an explicit error, as is a prefix that is
/// not valid UTF-8; only the bytes strictly before the first nul are
/// decoded.
pub fn str_from_i8(slice: &[i8]) -> (r: Result<String, NameError>)
    ensures
        match r {
            Ok(t) => exists|i: int|
                0 <= i < slice@.len() && slice@[i] == 0 && (forall|j: int|
                    0 <= j < i ==> slice@[j] != 0) && utf8_decoded(prefix_bytes(slice@, i))
                    == Some(t@),
            Err(NameError::NoTerminator) => forall|j: int|
                0 <= j < slice@.len() ==> slice@[j] != 0,
            Err(NameError::InvalidUtf8) => exists|i: int|
                0 <= i < slice@.len() && slice@[i] == 0 && (forall|j: int|
                    0 <= j < i ==> slice@[j] != 0) && utf8_decoded(prefix_bytes(slice@, i))
                    is None,
        },
{
    let n = slice.len();
    let mut end: usize = 0;
    let mut found = false;
    while !found && end < n
        invariant
            n == slice@.len(),
            0 <= end <= n,
            found ==> end < n && slice@[end as int] == 0,
            forall|j: int| 0 <= j < end ==> slice@[j] != 0,
        decreases n - end + (if found { 0int } else { 1int }),
    {
        if slice[end] == 0 {
            found = true;
        } else {
            end += 1;
        }
    }
    if !found {
        return Err(NameError::NoTerminator);
    }
    let mut bytes: Vec<u8> = Vec::new();
    let mut j: usize = 0;
    while j < end
        invariant
            n == slice@.len(),
            0 <= j <= end < n,
            bytes@ == prefix_bytes(slice@, j as int),
        decreases end - j,
    {
        bytes.push(slice[j] as u8);
        proof {
            assert(slice@.take(j + 1) =~= slice@.take(j as int).push(slice@[j as int]));
            assert(prefix_bytes(slice@, j + 1) =~= prefix_bytes(slice@, j as int).push(
                slice@[j as int] as u8,
            ));
        }
        j += 1;
    }
    match decode_utf8(bytes.as_slice()) {
        Some(t) => Ok(t),
        None => Err(NameError::InvalidUtf8),
    }
}

} // verus!
