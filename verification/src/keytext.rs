//! The text form in which raw key bytes are stored: decimal numbers from 0 to
//! 255, separated by commas, each with any white space around it.

use vstd::prelude::*;
use crate::shared::{opened_view, HandshakeError};

verus! {

/// Whether the three bytes encode one of the white-space characters that
/// take three bytes in UTF-8.
pub open spec fn is_wide_space(a: u8, b: u8, c: u8) -> bool {
    ||| a == 0xE1 && b == 0x9A && c == 0x80
    ||| a == 0xE2 && b == 0x80 && (0x80 <= c <= 0x8A || c == 0xA8 || c == 0xA9 || c == 0xAF)
    ||| a == 0xE2 && b == 0x81 && c == 0x9F
    ||| a == 0xE3 && b == 0x80 && c == 0x80
}

/// The number of bytes of the white-space character whose UTF-8 encoding
/// starts at `i`, and 0 where none starts there.
pub open spec fn space_len(s: Seq<u8>, i: int) -> int {
    if 0 <= i < s.len() && (9 <= s[i] <= 13 || s[i] == 32) {
        1
    } else if 0 <= i && i + 1 < s.len() && s[i] == 0xC2 && (s[i + 1] == 0x85 || s[i + 1] == 0xA0) {
        2
    } else if 0 <= i && i + 2 < s.len() && is_wide_space(s[i], s[i + 1], s[i + 2]) {
        3
    } else {
        0
    }
}

/// The first position from `i` on at which no white-space character starts.
pub open spec fn skip_spaces(s: Seq<u8>, i: int) -> int
    decreases s.len() - i,
{
    if space_len(s, i) > 0 {
        skip_spaces(s, i + space_len(s, i))
    } else {
        i
    }
}

/// The number that the run of decimal digits from `i` on spells when it is
/// appended to the digits of `acc`, and the position at which the run ends.
pub open spec fn scan_digits(s: Seq<u8>, i: int, acc: int) -> (int, int)
    decreases s.len() - i,
{
    if 0 <= i < s.len() && 48 <= s[i] <= 57 {
        scan_digits(s, i + 1, acc * 10 + (s[i] - 48))
    } else {
        (acc, i)
    }
}

/// The byte that the field starting at `i` spells, and the position at which
/// the field ends: that of the next comma, or the end of the text. A field is
/// white space, an optional plus sign, at least one digit, and white space;
/// its number is at most 255.
pub open spec fn field(s: Seq<u8>, i: int) -> Option<(u8, int)> {
    let a = skip_spaces(s, i);
    let b = if 0 <= a < s.len() && s[a] == 43 {
        a + 1
    } else {
        a
    };
    let (value, c) = scan_digits(s, b, 0);
    let d = skip_spaces(s, c);
    if c > b && value <= 255 && (d >= s.len() || s[d] == 44) {
        Some((value as u8, d))
    } else {
        None
    }
}

/// The bytes that the fields from `i` on spell, where each of them is well
/// formed.
pub open spec fn fields(s: Seq<u8>, i: int) -> Option<Seq<u8>>
    decreases s.len() - i,
{
    match field(s, i) {
        None => None,
        Some((value, end)) => if i <= end < s.len() {
            match fields(s, end + 1) {
                Some(rest) => Some(seq![value] + rest),
                None => None,
            }
        } else {
            Some(seq![value])
        },
    }
}

/// The key that the text `s` holds, where it is well formed and has exactly
/// `length` bytes.
pub open spec fn key_of_text(s: Seq<u8>, length: int) -> Result<Seq<u8>, HandshakeError> {
    match fields(s, 0) {
        Some(key) => if key.len() == length {
            Ok(key)
        } else {
            Err(HandshakeError::KeyLoadError)
        },
        None => Err(HandshakeError::KeyLoadError),
    }
}

/// `front` followed by `rest`, where there is a rest.
pub open spec fn followed_by(front: Seq<u8>, rest: Option<Seq<u8>>) -> Option<Seq<u8>> {
    match rest {
        Some(r) => Some(front + r),
        None => None,
    }
}

fn space_len_at(s: &[u8], i: usize) -> (n: usize)
    requires
        i <= s.len(),
    ensures
        n == space_len(s@, i as int),
        i + n <= s.len(),
{
    let len = s.len();
    if i < len && ((9 <= s[i] && s[i] <= 13) || s[i] == 32) {
        1
    } else if i < len && len - i >= 2 && s[i] == 0xC2 && (s[i + 1] == 0x85 || s[i + 1] == 0xA0) {
        2
    } else if i < len && len - i >= 3 {
        let a = s[i];
        let b = s[i + 1];
        let c = s[i + 2];
        let wide = (a == 0xE1 && b == 0x9A && c == 0x80) || (a == 0xE2 && b == 0x80 && ((0x80 <= c
            && c <= 0x8A) || c == 0xA8 || c == 0xA9 || c == 0xAF)) || (a == 0xE2 && b == 0x81 && c
            == 0x9F) || (a == 0xE3 && b == 0x80 && c == 0x80);
        if wide {
            3
        } else {
            0
        }
    } else {
        0
    }
}

fn skip_spaces_from(s: &[u8], start: usize) -> (end: usize)
    requires
        start <= s.len(),
    ensures
        end == skip_spaces(s@, start as int),
        start <= end <= s.len(),
{
    let mut i: usize = start;
    let mut n: usize = space_len_at(s, i);
    while n > 0
        invariant
            start <= i <= s.len(),
            n == space_len(s@, i as int),
            i + n <= s.len(),
            skip_spaces(s@, i as int) == skip_spaces(s@, start as int),
        decreases s.len() - i,
    {
        i += n;
        n = space_len_at(s, i);
    }
    i
}

/// The number spelled by the digits from `start` on, or 256 where it is
/// greater than 255, and the position at which the digits end.
fn scan_digits_from(s: &[u8], start: usize) -> (r: (u16, usize))
    requires
        start <= s.len(),
    ensures
        r.1 == scan_digits(s@, start as int, 0).1,
        start <= r.1 <= s.len(),
        r.0 == if scan_digits(s@, start as int, 0).0 <= 255 {
            scan_digits(s@, start as int, 0).0
        } else {
            256
        },
{
    let mut i: usize = start;
    let mut value: u16 = 0;
    let ghost mut exact: int = 0;
    while i < s.len() && 48 <= s[i] && s[i] <= 57
        invariant
            start <= i <= s.len(),
            exact >= 0,
            value == if exact <= 255 {
                exact
            } else {
                256
            },
            scan_digits(s@, i as int, exact) == scan_digits(s@, start as int, 0),
        decreases s.len() - i,
    {
        let digit: u16 = (s[i] - 48) as u16;
        proof {
            exact = exact * 10 + digit;
        }
        value = value * 10 + digit;
        if value > 255 {
            value = 256;
        }
        i += 1;
    }
    (value, i)
}

fn read_field(s: &[u8], start: usize) -> (r: Option<(u8, usize)>)
    requires
        start <= s.len(),
    ensures
        match r {
            Some((value, end)) => field(s@, start as int) == Some((value, end as int)) && start
                <= end <= s.len(),
            None => field(s@, start as int) is None,
        },
{
    let a = skip_spaces_from(s, start);
    let b = if a < s.len() && s[a] == 43 {
        a + 1
    } else {
        a
    };
    let (value, c) = scan_digits_from(s, b);
    let d = skip_spaces_from(s, c);
    if c > b && value <= 255 && (d >= s.len() || s[d] == 44) {
        Some((value as u8, d))
    } else {
        None
    }
}

/// Reads a key of exactly `length` bytes from its text form.
///
/// The text is a list of fields separated by commas. Each field spells one
/// byte in decimal, with an optional plus sign and any number of leading
/// zeros, and may have white space on both sides. An empty field, a field
/// that spells no number or a number over 255, and a key of any other
/// length than `length` are a `KeyLoadError`: a key is never cut or padded.
pub fn read_key(raw: &[u8], length: usize) -> (r: Result<Vec<u8>, HandshakeError>)
    ensures
        opened_view(r) == key_of_text(raw@, length as int),
        r matches Ok(key) ==> key@.len() == length,
{
    let mut key: Vec<u8> = Vec::new();
    let mut i: usize = 0;
    let mut more = true;
    while more
        invariant
            i <= raw.len(),
            more ==> fields(raw@, 0) == followed_by(key@, fields(raw@, i as int)),
            !more ==> fields(raw@, 0) == Some(key@),
        decreases
            raw.len() - i + if more {
                1int
            } else {
                0int
            },
    {
        match read_field(raw, i) {
            None => {
                return Err(HandshakeError::KeyLoadError);
            },
            Some((value, end)) => {
                let ghost before = key@;
                key.push(value);
                if end < raw.len() {
                    proof {
                        match fields(raw@, end + 1) {
                            Some(rest) => {
                                assert(key@ + rest =~= before + (seq![value] + rest));
                            },
                            None => {},
                        }
                    }
                    i = end + 1;
                } else {
                    proof {
                        assert(key@ =~= before + seq![value]);
                    }
                    more = false;
                }
            },
        }
    }
    if key.len() == length {
        Ok(key)
    } else {
        Err(HandshakeError::KeyLoadError)
    }
}

} // verus!
