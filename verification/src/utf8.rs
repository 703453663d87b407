//! UTF-8 validity of byte strings.
//!
//! The bytecode domain requires valid text wherever a name is interned; a
//! byte string that fails this check makes the whole conversion fail.

use vstd::prelude::*;

verus! {

/// Is `b` a continuation byte (`10xxxxxx`)?
pub open spec fn is_cont_byte(b: u8) -> bool {
    0x80 <= b < 0xC0
}

/// Does a well-formed encoded scalar value start at offset `i`, with the rest
/// of the string well formed after it?  Overlong encodings, surrogates and
/// values above U+10FFFF are rejected, as the Unicode definition demands.
pub open spec fn is_utf8_from(s: Seq<u8>, i: int) -> bool
    decreases s.len() - i when 0 <= i
{
    if i >= s.len() {
        true
    } else {
        let b0 = s[i];
        if b0 < 0x80 {
            is_utf8_from(s, i + 1)
        } else if 0xC2 <= b0 && b0 < 0xE0 {
            if i + 1 < s.len() {
                is_cont_byte(s[i + 1]) && is_utf8_from(s, i + 2)
            } else {
                false
            }
        } else if 0xE0 <= b0 && b0 < 0xF0 {
            if i + 2 < s.len() {
                let lo1: u8 = if b0 == 0xE0 { 0xA0 } else { 0x80 };
                let hi1: u8 = if b0 == 0xED { 0xA0 } else { 0xC0 };
                lo1 <= s[i + 1] < hi1 && is_cont_byte(s[i + 2]) && is_utf8_from(s, i + 3)
            } else {
                false
            }
        } else if 0xF0 <= b0 && b0 < 0xF5 {
            if i + 3 < s.len() {
                let lo1: u8 = if b0 == 0xF0 { 0x90 } else { 0x80 };
                let hi1: u8 = if b0 == 0xF4 { 0x90 } else { 0xC0 };
                lo1 <= s[i + 1] < hi1 && is_cont_byte(s[i + 2]) && is_cont_byte(s[i + 3])
                    && is_utf8_from(s, i + 4)
            } else {
                false
            }
        } else {
            false
        }
    }
}

/// The whole byte string is well-formed UTF-8.
pub open spec fn is_utf8(s: Seq<u8>) -> bool {
    is_utf8_from(s, 0)
}

/// Check a byte string for UTF-8 validity.
pub fn check_utf8(s: &[u8]) -> (r: bool)
    ensures
        r == is_utf8(s@),
{
    let n = s.len();
    let mut i: usize = 0;
    while i < n
        invariant
            n == s@.len(),
            i <= n,
            is_utf8(s@) == is_utf8_from(s@, i as int),
        decreases n - i,
    {
        let b0 = s[i];
        if b0 < 0x80 {
            i += 1;
        } else if 0xC2 <= b0 && b0 < 0xE0 {
            if i + 1 >= n || !(0x80 <= s[i + 1] && s[i + 1] < 0xC0) {
                return false;
            }
            i += 2;
        } else if 0xE0 <= b0 && b0 < 0xF0 {
            let lo1: u8 = if b0 == 0xE0 { 0xA0 } else { 0x80 };
            let hi1: u8 = if b0 == 0xED { 0xA0 } else { 0xC0 };
            if n - i < 3 || !(lo1 <= s[i + 1] && s[i + 1] < hi1) || !(0x80 <= s[i + 2] && s[i
                + 2] < 0xC0) {
                return false;
            }
            i += 3;
        } else if 0xF0 <= b0 && b0 < 0xF5 {
            let lo1: u8 = if b0 == 0xF0 { 0x90 } else { 0x80 };
            let hi1: u8 = if b0 == 0xF4 { 0x90 } else { 0xC0 };
            if n - i < 4 || !(lo1 <= s[i + 1] && s[i + 1] < hi1) || !(0x80 <= s[i + 2] && s[i
                + 2] < 0xC0) || !(0x80 <= s[i + 3] && s[i + 3] < 0xC0) {
                return false;
            }
            i += 4;
        } else {
            return false;
        }
    }
    true
}

} // verus!
