//! UTF-8 validity, as the worker needs it.
//!
//! A queued payload is only written if its bytes are valid UTF-8 text; a
//! payload that is not decodable is silently discarded. The validity rules
//! here are the standard ones: one-byte sequences below 0x80, and two- to
//! four-byte sequences with the usual lead-byte ranges, continuation bytes
//! in 0x80..=0xBF, the shortest form only, and no surrogates.

use vstd::prelude::*;

verus! {

/// True of a UTF-8 continuation byte.
pub open spec fn is_cont(b: u8) -> bool {
    0x80 <= b <= 0xBF
}

/// The length of the valid UTF-8 sequence starting at `i`, if any.
pub open spec fn utf8_seq_len(s: Seq<u8>, i: int) -> Option<int>
    recommends
        0 <= i < s.len(),
{
    let b0 = s[i];
    if b0 < 0x80 {
        Some(1)
    } else if 0xC2 <= b0 <= 0xDF {
        if i + 2 <= s.len() && is_cont(s[i + 1]) {
            Some(2)
        } else {
            None
        }
    } else if b0 == 0xE0 {
        if i + 3 <= s.len() && 0xA0 <= s[i + 1] <= 0xBF && is_cont(s[i + 2]) {
            Some(3)
        } else {
            None
        }
    } else if 0xE1 <= b0 <= 0xEC || b0 == 0xEE || b0 == 0xEF {
        if i + 3 <= s.len() && is_cont(s[i + 1]) && is_cont(s[i + 2]) {
            Some(3)
        } else {
            None
        }
    } else if b0 == 0xED {
        if i + 3 <= s.len() && 0x80 <= s[i + 1] <= 0x9F && is_cont(s[i + 2]) {
            Some(3)
        } else {
            None
        }
    } else if b0 == 0xF0 {
        if i + 4 <= s.len() && 0x90 <= s[i + 1] <= 0xBF && is_cont(s[i + 2]) && is_cont(s[i + 3]) {
            Some(4)
        } else {
            None
        }
    } else if 0xF1 <= b0 <= 0xF3 {
        if i + 4 <= s.len() && is_cont(s[i + 1]) && is_cont(s[i + 2]) && is_cont(s[i + 3]) {
            Some(4)
        } else {
            None
        }
    } else if b0 == 0xF4 {
        if i + 4 <= s.len() && 0x80 <= s[i + 1] <= 0x8F && is_cont(s[i + 2]) && is_cont(s[i + 3]) {
            Some(4)
        } else {
            None
        }
    } else {
        None
    }
}

/// True if the bytes from `i` on are a valid UTF-8 suffix.
pub open spec fn valid_utf8_from(s: Seq<u8>, i: int) -> bool
    recommends
        0 <= i <= s.len(),
    decreases s.len() - i,
{
    if i >= s.len() {
        true
    } else {
        match utf8_seq_len(s, i) {
            Some(l) => valid_utf8_from(s, i + l),
            None => false,
        }
    }
}

/// True if the whole byte sequence is valid UTF-8 text.
pub open spec fn valid_utf8(s: Seq<u8>) -> bool {
    valid_utf8_from(s, 0)
}

/// Checks whether `s` is valid UTF-8 text.
pub fn is_valid_utf8(s: &Vec<u8>) -> (r: bool)
    ensures
        r == valid_utf8(s@),
{
    let n = s.len();
    let mut i: usize = 0;
    while i < n
        invariant
            n == s.len(),
            0 <= i <= n,
            valid_utf8(s@) == valid_utf8_from(s@, i as int),
        decreases n - i,
    {
        let b0 = s[i];
        let step: usize = if b0 < 0x80 {
            1
        } else if 0xC2 <= b0 && b0 <= 0xDF {
            if n - i >= 2 && 0x80 <= s[i + 1] && s[i + 1] <= 0xBF {
                2
            } else {
                return false;
            }
        } else if b0 == 0xE0 {
            if n - i >= 3 && 0xA0 <= s[i + 1] && s[i + 1] <= 0xBF && 0x80 <= s[i + 2] && s[i + 2]
                <= 0xBF {
                3
            } else {
                return false;
            }
        } else if (0xE1 <= b0 && b0 <= 0xEC) || b0 == 0xEE || b0 == 0xEF {
            if n - i >= 3 && 0x80 <= s[i + 1] && s[i + 1] <= 0xBF && 0x80 <= s[i + 2] && s[i + 2]
                <= 0xBF {
                3
            } else {
                return false;
            }
        } else if b0 == 0xED {
            if n - i >= 3 && 0x80 <= s[i + 1] && s[i + 1] <= 0x9F && 0x80 <= s[i + 2] && s[i + 2]
                <= 0xBF {
                3
            } else {
                return false;
            }
        } else if b0 == 0xF0 {
            if n - i >= 4 && 0x90 <= s[i + 1] && s[i + 1] <= 0xBF && 0x80 <= s[i + 2] && s[i + 2]
                <= 0xBF && 0x80 <= s[i + 3] && s[i + 3] <= 0xBF {
                4
            } else {
                return false;
            }
        } else if 0xF1 <= b0 && b0 <= 0xF3 {
            if n - i >= 4 && 0x80 <= s[i + 1] && s[i + 1] <= 0xBF && 0x80 <= s[i + 2] && s[i + 2]
                <= 0xBF && 0x80 <= s[i + 3] && s[i + 3] <= 0xBF {
                4
            } else {
                return false;
            }
        } else if b0 == 0xF4 {
            if n - i >= 4 && 0x80 <= s[i + 1] && s[i + 1] <= 0x8F && 0x80 <= s[i + 2] && s[i + 2]
                <= 0xBF && 0x80 <= s[i + 3] && s[i + 3] <= 0xBF {
                4
            } else {
                return false;
            }
        } else {
            return false;
        };
        i = i + step;
    }
    true
}

} // verus!
