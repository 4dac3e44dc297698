use vstd::prelude::*;

use crate::config::EdgeDetect;
use crate::error::AppError;
use crate::gpio::{EdgeEvent, GpioState, PinSettings};

verus! {

/// The text that a byte string decodes to as UTF-8, if it is valid UTF-8.
pub uninterp spec fn utf8_decoded(b: Seq<u8>) -> Option<Seq<char>>;

/// The characters of the Unicode White_Space property.
pub open spec fn is_white_space(c: char) -> bool {
    ('\u{9}' <= c && c <= '\u{d}') || c == ' ' || c == '\u{85}' || c == '\u{a0}' || c
        == '\u{1680}' || ('\u{2000}' <= c && c <= '\u{200a}') || c == '\u{2028}' || c == '\u{2029}'
        || c == '\u{202f}' || c == '\u{205f}' || c == '\u{3000}'
}

/// `s` without its leading white space.
pub open spec fn trim_front(s: Seq<char>) -> Seq<char>
    decreases s.len(),
{
    if s.len() > 0 && is_white_space(s[0]) {
        trim_front(s.drop_first())
    } else {
        s
    }
}

/// `s` without its trailing white space.
pub open spec fn trim_back(s: Seq<char>) -> Seq<char>
    decreases s.len(),
{
    if s.len() > 0 && is_white_space(s.last()) {
        trim_back(s.drop_last())
    } else {
        s
    }
}

/// A text without its leading and trailing white space.
pub open spec fn trimmed(s: Seq<char>) -> Seq<char> {
    trim_back(trim_front(s))
}

/// Relies on std's `str::from_utf8`: the text of `b` if it is valid UTF-8.
#[verifier::external_body]
fn decode_utf8(b: &[u8]) -> (r: Option<String>)
    ensures
        match r {
            Some(s) => utf8_decoded(b@) == Some(s@),
            None => utf8_decoded(b@) is None,
        },
{
    match std::str::from_utf8(b) {
        Ok(t) => Some(t.to_string()),
        Err(_) => None,
    }
}

/// Relies on std's `str::trim`: `s` without leading and trailing characters
/// of the Unicode White_Space property.
#[verifier::external_body]
fn trim_text(s: &str) -> (r: String)
    ensures
        r@ == trimmed(s@),
{
    s.trim().to_string()
}

pub open spec fn is_digit(c: char) -> bool {
    '0' <= c && c <= '9'
}

/// The number that a string of decimal digits writes.
pub open spec fn digits_value(s: Seq<char>) -> int
    decreases s.len(),
{
    if s.len() == 0 {
        0
    } else {
        10 * digits_value(s.drop_last()) + (s.last() as int - '0' as int)
    }
}

pub open spec fn all_digits(d: Seq<char>) -> bool {
    forall|i: int| 0 <= i < d.len() ==> is_digit(#[trigger] d[i])
}

/// The unsigned number that `s` writes: an optional `+`, then one or more
/// decimal digits.
pub open spec fn unsigned_of(s: Seq<char>) -> Option<int> {
    let d = if s.len() > 0 && s[0] == '+' {
        s.drop_first()
    } else {
        s
    };
    if d.len() > 0 && all_digits(d) {
        Some(digits_value(d))
    } else {
        None
    }
}

/// The number `s` writes, where it is at most `max`.
pub open spec fn bounded_of(s: Seq<char>, max: int) -> Option<int> {
    match unsigned_of(s) {
        Some(v) => if v <= max {
            Some(v)
        } else {
            None
        },
        None => None,
    }
}

proof fn lemma_digits_nonneg(s: Seq<char>)
    requires
        forall|i: int| 0 <= i < s.len() ==> is_digit(#[trigger] s[i]),
    ensures
        digits_value(s) >= 0,
    decreases s.len(),
{
    if s.len() > 0 {
        lemma_digits_nonneg(s.drop_last());
    }
}

/// Reads an unsigned decimal number of at most `max` from `text`, as std's
/// integer parsing does.
fn parse_bounded(text: &str, max: u64) -> (r: Option<u64>)
    requires
        max <= u32::MAX,
    ensures
        match r {
            Some(v) => bounded_of(text@, max as int) == Some(v as int),
            None => bounded_of(text@, max as int) is None,
        },
{
    let n = text.unicode_len();
    let mut start: usize = 0;
    if n > 0 && text.get_char(0) == '+' {
        start = 1;
    }
    let ghost s = text@;
    let ghost d = if s.len() > 0 && s[0] == '+' {
        s.drop_first()
    } else {
        s
    };
    assert(d =~= s.subrange(start as int, n as int));
    if start >= n {
        assert(d.len() == 0);
        return None;
    }
    let mut acc: u64 = 0;
    let mut over = false;
    let mut i: usize = start;
    while i < n
        invariant
            n == s.len(),
            s == text@,
            start <= i <= n,
            d == s.subrange(start as int, n as int),
            d == (if s.len() > 0 && s[0] == '+' {
                s.drop_first()
            } else {
                s
            }),
            forall|k: int| start <= k < i ==> is_digit(#[trigger] s[k]),
            !over ==> acc as int == digits_value(s.subrange(start as int, i as int)) && acc <= max,
            over ==> digits_value(s.subrange(start as int, i as int)) > max,
            max <= u32::MAX,
        decreases n - i,
    {
        let c = text.get_char(i);
        if !('0' <= c && c <= '9') {
            assert(!is_digit(d[i - start]));
            return None;
        }
        let ghost pre = s.subrange(start as int, i as int);
        let ghost cur = s.subrange(start as int, i + 1);
        assert(cur.drop_last() =~= pre);
        assert(cur.last() == c);
        proof {
            assert forall|k: int| 0 <= k < pre.len() implies is_digit(#[trigger] pre[k]) by {
                assert(pre[k] == s[start + k]);
            }
            lemma_digits_nonneg(pre);
        }
        let dv = (c as u32 - '0' as u32) as u64;
        if !over {
            let next = acc * 10 + dv;
            if next > max {
                over = true;
            } else {
                acc = next;
            }
        }
        i = i + 1;
    }
    assert(s.subrange(start as int, n as int) =~= d);
    assert(all_digits(d));
    if over {
        None
    } else {
        Some(acc)
    }
}

/// The value that a trimmed value text stands for: a number from 0 to 255.
pub open spec fn value_text_ok(r: Result<u8, AppError>, text: Seq<char>) -> bool {
    match bounded_of(text, 255) {
        Some(v) => r == Ok::<u8, AppError>(v as u8),
        None => r matches Err(AppError::InvalidValue(_)),
    }
}

/// Reads a level value from a text that holds nothing else.
pub fn parse_value_text(text: &str) -> (r: Result<u8, AppError>)
    ensures
        value_text_ok(r, text@),
{
    match parse_bounded(text, 255) {
        Some(v) => Ok(v as u8),
        None => Err(AppError::InvalidValue("value must be an integer".to_string())),
    }
}

/// Reads a level value from a request body: the body must not be empty, must
/// be UTF-8, and trimmed of white space must write a number from 0 to 255.
pub fn parse_value_payload(body: &[u8]) -> (r: Result<u8, AppError>)
    ensures
        body@.len() == 0 ==> r matches Err(AppError::InvalidValue(_)),
        body@.len() > 0 ==> match utf8_decoded(body@) {
            None => r matches Err(AppError::InvalidValue(_)),
            Some(t) => value_text_ok(r, trimmed(t)),
        },
{
    if body.len() == 0 {
        return Err(AppError::InvalidValue("empty value payload".to_string()));
    }
    match decode_utf8(body) {
        None => Err(AppError::InvalidValue("value payload must be valid UTF-8".to_string())),
        Some(text) => {
            let t = trim_text(text.as_str());
            parse_value_text(t.as_str())
        },
    }
}

/// Reads a pin id from the text of a path segment.
pub fn parse_pin_id(text: &str) -> (r: Result<u32, AppError>)
    ensures
        match bounded_of(text@, u32::MAX as int) {
            Some(v) => r == Ok::<u32, AppError>(v as u32),
            None => r matches Err(AppError::InvalidValue(_)),
        },
{
    match parse_bounded(text, u32::MAX as u64) {
        Some(v) => Ok(v as u32),
        None => Err(AppError::InvalidValue("invalid pin id".to_string())),
    }
}

pub open spec fn is_octal_digit(c: char) -> bool {
    '0' <= c && c <= '7'
}

pub open spec fn all_octal(d: Seq<char>) -> bool {
    forall|i: int| 0 <= i < d.len() ==> is_octal_digit(#[trigger] d[i])
}

/// The number that a string of octal digits writes.
pub open spec fn octal_value(s: Seq<char>) -> int
    decreases s.len(),
{
    if s.len() == 0 {
        0
    } else {
        8 * octal_value(s.drop_last()) + (s.last() as int - '0' as int)
    }
}

/// The largest file mode: permission, setuid, setgid and sticky bits.
pub const MAX_SOCKET_MODE: u32 = 0o7777;

/// The file mode that `s` writes in octal, with or without a `0o` prefix,
/// where it is a file mode.
pub open spec fn socket_mode_of(s: Seq<char>) -> Option<int> {
    let d = if s.len() >= 2 && s[0] == '0' && s[1] == 'o' {
        s.subrange(2, s.len() as int)
    } else {
        s
    };
    if d.len() > 0 && all_octal(d) && octal_value(d) <= MAX_SOCKET_MODE {
        Some(octal_value(d))
    } else {
        None
    }
}

proof fn lemma_octal_nonneg(s: Seq<char>)
    requires
        all_octal(s),
    ensures
        octal_value(s) >= 0,
    decreases s.len(),
{
    if s.len() > 0 {
        assert(all_octal(s.drop_last()));
        lemma_octal_nonneg(s.drop_last());
    }
}

/// Reads the mode of the Unix socket from its octal text (`0o660`, `0660`
/// or `660`).
pub fn parse_socket_mode(text: &str) -> (r: Result<u32, AppError>)
    ensures
        match socket_mode_of(text@) {
            Some(v) => r == Ok::<u32, AppError>(v as u32),
            None => r matches Err(AppError::Config(_)),
        },
{
    let n = text.unicode_len();
    let ghost s = text@;
    let start: usize = if n >= 2 && text.get_char(0) == '0' && text.get_char(1) == 'o' {
        2
    } else {
        0
    };
    let ghost d = if s.len() >= 2 && s[0] == '0' && s[1] == 'o' {
        s.subrange(2, s.len() as int)
    } else {
        s
    };
    assert(d =~= s.subrange(start as int, n as int));
    if start >= n {
        return Err(AppError::Config("empty socket mode".to_string()));
    }
    let mut acc: u32 = 0;
    let mut over = false;
    let mut i: usize = start;
    while i < n
        invariant
            n == s.len(),
            s == text@,
            start <= i <= n,
            d == s.subrange(start as int, n as int),
            d == (if s.len() >= 2 && s[0] == '0' && s[1] == 'o' {
                s.subrange(2, s.len() as int)
            } else {
                s
            }),
            forall|k: int| start <= k < i ==> is_octal_digit(#[trigger] s[k]),
            !over ==> acc as int == octal_value(s.subrange(start as int, i as int)) && acc
                <= MAX_SOCKET_MODE,
            over ==> octal_value(s.subrange(start as int, i as int)) > MAX_SOCKET_MODE,
        decreases n - i,
    {
        let c = text.get_char(i);
        if !('0' <= c && c <= '7') {
            assert(!is_octal_digit(d[i - start]));
            return Err(AppError::Config("socket mode must be octal".to_string()));
        }
        let ghost pre = s.subrange(start as int, i as int);
        let ghost cur = s.subrange(start as int, i + 1);
        assert(cur.drop_last() =~= pre);
        assert(cur.last() == c);
        proof {
            assert forall|k: int| 0 <= k < pre.len() implies is_octal_digit(#[trigger] pre[k]) by {
                assert(pre[k] == s[start + k]);
            }
            lemma_octal_nonneg(pre);
        }
        let dv = c as u32 - '0' as u32;
        if !over {
            let next = acc * 8 + dv;
            if next > MAX_SOCKET_MODE {
                over = true;
            } else {
                acc = next;
            }
        }
        i = i + 1;
    }
    assert(s.subrange(start as int, n as int) =~= d);
    assert(all_octal(d));
    if over {
        Err(AppError::Config("socket mode out of range".to_string()))
    } else {
        Ok(acc)
    }
}

/// A partial settings update: each given field replaces the current one.
#[derive(Debug, Clone, Copy, PartialEq, Eq, Structural)]
pub struct SettingsPayload {
    pub state: Option<GpioState>,
    pub edge: Option<EdgeDetect>,
    pub debounce_ms: Option<u64>,
}

/// `current` with the fields that `payload` gives replaced.
pub fn merge_settings(payload: &SettingsPayload, current: PinSettings) -> (r: PinSettings)
    ensures
        r.state == (match payload.state {
            Some(s) => s,
            None => current.state,
        }),
        r.edge == (match payload.edge {
            Some(e) => e,
            None => current.edge,
        }),
        r.debounce_ms == (match payload.debounce_ms {
            Some(d) => d,
            None => current.debounce_ms,
        }),
{
    let mut merged = current;
    if let Some(state) = payload.state {
        merged.state = state;
    }
    if let Some(edge) = payload.edge {
        merged.edge = edge;
    }
    if let Some(debounce) = payload.debounce_ms {
        merged.debounce_ms = debounce;
    }
    merged
}

/// Whether a subscriber that follows `filter` (one pin, or all) is sent `event`.
pub fn event_selected(filter: Option<u32>, event: &EdgeEvent) -> (r: bool)
    ensures
        r == (match filter {
            Some(p) => p == event.pin_id,
            None => true,
        }),
{
    match filter {
        Some(p) => p == event.pin_id,
        None => true,
    }
}

} // verus!
