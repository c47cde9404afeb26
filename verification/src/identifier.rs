//! The syntax of the identifiers that make up a namespace.

use vstd::prelude::*;
use vstd::string::StringSliceAdditionalSpecFns;

verus! {

/// Whether `c` can begin an identifier: an underscore or an ASCII letter of
/// either case.
pub open spec fn is_identifier_start(c: char) -> bool {
    c == '_' || ('a' <= c && c <= 'z') || ('A' <= c && c <= 'Z')
}

/// Whether `c` can follow the first character of an identifier: an
/// underscore, an ASCII letter of either case or an ASCII digit.
pub open spec fn is_identifier_continue(c: char) -> bool {
    is_identifier_start(c) || ('0' <= c && c <= '9')
}

/// Whether `s` is an identifier: it is not empty, it begins with a character
/// that can begin an identifier, and only characters that can follow come
/// after it.
pub open spec fn is_identifier(s: Seq<char>) -> bool {
    &&& s.len() > 0
    &&& is_identifier_start(s[0])
    &&& forall|i: int| 1 <= i < s.len() ==> is_identifier_continue(#[trigger] s[i])
}

/// The byte-level counterpart of [`is_identifier_start`].
fn is_start_byte(b: u8) -> (ok: bool)
    ensures
        ok == (b == 0x5f || (0x61 <= b && b <= 0x7a) || (0x41 <= b && b <= 0x5a)),
{
    b == 0x5f || (0x61 <= b && b <= 0x7a) || (0x41 <= b && b <= 0x5a)
}

/// The byte-level counterpart of [`is_identifier_continue`].
fn is_continue_byte(b: u8) -> (ok: bool)
    ensures
        ok == (b == 0x5f || (0x61 <= b && b <= 0x7a) || (0x41 <= b && b <= 0x5a) || (0x30 <= b
            && b <= 0x39)),
{
    is_start_byte(b) || (0x30 <= b && b <= 0x39)
}

/// Decides whether `s` is an identifier.
pub fn is_rust_identifier(s: &str) -> (ok: bool)
    ensures
        ok == is_identifier(s@),
{
    if !s.is_ascii() {
        proof {
            // Some character lies outside ASCII, and so outside every class
            // of an identifier.
            let i = choose|i: int| 0 <= i < s@.len() && !('\0' <= #[trigger] s@[i] <= '\u{7f}');
            assert(!is_identifier_continue(s@[i]));
        }
        return false;
    }
    let bytes = s.as_bytes();
    let n = bytes.len();
    if n == 0 {
        return false;
    }
    if !is_start_byte(bytes[0]) {
        return false;
    }
    let mut i: usize = 1;
    while i < n
        invariant
            1 <= i <= n,
            n == s@.len(),
            vstd::string::is_ascii(s),
            bytes@ == s.spec_bytes(),
            forall|j: int| 1 <= j < i ==> is_identifier_continue(#[trigger] s@[j]),
        decreases n - i,
    {
        if !is_continue_byte(bytes[i]) {
            return false;
        }
        i += 1;
    }
    true
}

} // verus!
