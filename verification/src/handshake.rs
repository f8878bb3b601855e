//! The stdout handshake: recognising a port-announcement line.
//!
//! The child process reports the port it bound by printing a single line of
//! the form `BACKEND_PORT:<uint16>` (ASCII whitespace around the number is
//! ignored).  Every other line is opaque log text.  The functions here decide,
//! for one raw stdout line, whether it is an announcement and which port it
//! carries.

use vstd::prelude::*;

verus! {

/// ASCII whitespace: tab, line feed, vertical tab, form feed, carriage
/// return, space.
pub open spec fn is_ascii_whitespace(b: u8) -> bool {
    b == 9 || b == 10 || b == 11 || b == 12 || b == 13 || b == 32
}

/// ASCII decimal digit, `'0'` through `'9'`.
pub open spec fn is_ascii_digit(b: u8) -> bool {
    48 <= b && b <= 57
}

pub open spec fn all_whitespace(s: Seq<u8>) -> bool {
    forall|i: int| 0 <= i < s.len() ==> is_ascii_whitespace(s[i])
}

pub open spec fn all_digits(s: Seq<u8>) -> bool {
    forall|i: int| 0 <= i < s.len() ==> is_ascii_digit(s[i])
}

/// The number a sequence of decimal digit bytes denotes, most significant
/// digit first.
pub open spec fn digits_value(s: Seq<u8>) -> int
    recommends
        all_digits(s),
    decreases s.len(),
{
    if s.len() == 0 {
        0
    } else {
        digits_value(s.drop_last()) * 10 + (s.last() - 48)
    }
}

/// The bytes of the literal prefix `BACKEND_PORT:`.
pub open spec fn port_prefix() -> Seq<u8> {
    seq![66u8, 65u8, 67u8, 75u8, 69u8, 78u8, 68u8, 95u8, 80u8, 79u8, 82u8, 84u8, 58u8]
}

/// Whether the line starts with the bytes of `BACKEND_PORT:`.
pub open spec fn has_port_prefix(line: Seq<u8>) -> bool {
    &&& line.len() >= 13
    &&& line[0] == 66
    &&& line[1] == 65
    &&& line[2] == 67
    &&& line[3] == 75
    &&& line[4] == 69
    &&& line[5] == 78
    &&& line[6] == 68
    &&& line[7] == 95
    &&& line[8] == 80
    &&& line[9] == 79
    &&& line[10] == 82
    &&& line[11] == 84
    &&& line[12] == 58
}

/// Leading ASCII whitespace removed.
pub open spec fn trim_start(s: Seq<u8>) -> Seq<u8>
    decreases s.len(),
{
    if s.len() > 0 && is_ascii_whitespace(s[0]) {
        trim_start(s.subrange(1, s.len() as int))
    } else {
        s
    }
}

/// Trailing ASCII whitespace removed.
pub open spec fn trim_end(s: Seq<u8>) -> Seq<u8>
    decreases s.len(),
{
    if s.len() > 0 && is_ascii_whitespace(s.last()) {
        trim_end(s.drop_last())
    } else {
        s
    }
}

/// Leading and trailing ASCII whitespace removed.
pub open spec fn trimmed(s: Seq<u8>) -> Seq<u8> {
    trim_end(trim_start(s))
}

/// The port a stdout line announces, if it announces one.
///
/// A line is an announcement exactly when it starts with `BACKEND_PORT:` and
/// the rest of the line, once surrounding whitespace is dropped, is a
/// non-empty run of decimal digits whose value fits in a `u16`.  Every other
/// line — no prefix, an empty or non-numeric remainder, a value past 65535 —
/// is plain log text and announces nothing.
pub open spec fn announced_port(line: Seq<u8>) -> Option<u16> {
    if has_port_prefix(line) {
        let body = trimmed(line.subrange(13, line.len() as int));
        if body.len() > 0 && all_digits(body) && digits_value(body) <= 65535 {
            Some(digits_value(body) as u16)
        } else {
            None
        }
    } else {
        None
    }
}

/// `trim_start` keeps exactly the suffix that begins at the first
/// non-whitespace byte.
proof fn lemma_trim_start_at(s: Seq<u8>, k: int)
    requires
        0 <= k <= s.len(),
        forall|i: int| 0 <= i < k ==> is_ascii_whitespace(s[i]),
        k == s.len() || !is_ascii_whitespace(s[k]),
    ensures
        trim_start(s) == s.subrange(k, s.len() as int),
    decreases k,
{
    if k == 0 {
        assert(s.subrange(0, s.len() as int) =~= s);
    } else {
        let rest = s.subrange(1, s.len() as int);
        lemma_trim_start_at(rest, k - 1);
        assert(rest.subrange(k - 1, rest.len() as int) =~= s.subrange(k, s.len() as int));
    }
}

/// `trim_end` keeps exactly the prefix that ends at the last non-whitespace
/// byte.
proof fn lemma_trim_end_at(s: Seq<u8>, k: int)
    requires
        0 <= k <= s.len(),
        forall|i: int| k <= i < s.len() ==> is_ascii_whitespace(s[i]),
        k == 0 || !is_ascii_whitespace(s[k - 1]),
    ensures
        trim_end(s) == s.subrange(0, k),
    decreases s.len(),
{
    if k == s.len() {
        if s.len() > 0 {
            assert(s.subrange(0, s.len() as int) =~= s);
        } else {
            assert(s.subrange(0, 0) =~= s);
        }
    } else {
        assert(is_ascii_whitespace(s.last()));
        let shorter = s.drop_last();
        lemma_trim_end_at(shorter, k);
        assert(shorter.subrange(0, k) =~= s.subrange(0, k));
    }
}

/// Decides whether one raw stdout line is a port announcement, and for which
/// port.  Returns `None` exactly on the lines that are plain log text.
pub fn classify_stdout_line(line: &Vec<u8>) -> (port: Option<u16>)
    ensures
        port == announced_port(line@),
{
    if line.len() < 13 {
        return None;
    }
    let prefixed = line[0] == 66 && line[1] == 65 && line[2] == 67 && line[3] == 75
        && line[4] == 69 && line[5] == 78 && line[6] == 68 && line[7] == 95 && line[8] == 80
        && line[9] == 79 && line[10] == 82 && line[11] == 84 && line[12] == 58;
    if !prefixed {
        return None;
    }
    let len: usize = line.len();

    // Skip whitespace after the prefix.
    let mut lo: usize = 13;
    while lo < len && is_whitespace_byte(line[lo])
        invariant
            13 <= lo <= len,
            len == line@.len(),
            forall|i: int| 13 <= i < lo ==> is_ascii_whitespace(line@[i]),
        decreases len - lo,
    {
        lo += 1;
    }

    // Skip whitespace at the end of the line.
    let mut hi: usize = len;
    while hi > lo && is_whitespace_byte(line[hi - 1])
        invariant
            lo <= hi <= len,
            len == line@.len(),
            forall|i: int| hi <= i < len ==> is_ascii_whitespace(line@[i]),
        decreases hi,
    {
        hi -= 1;
    }

    proof {
        let rest = line@.subrange(13, len as int);
        lemma_trim_start_at(rest, lo - 13);
        assert(rest.subrange(lo - 13, rest.len() as int) =~= line@.subrange(lo as int, len as int));
        lemma_trim_end_at(line@.subrange(lo as int, len as int), hi - lo);
        assert(line@.subrange(lo as int, len as int).subrange(0, hi - lo) =~= line@.subrange(
            lo as int,
            hi as int,
        ));
        assert(trimmed(rest) == line@.subrange(lo as int, hi as int));
    }

    if hi == lo {
        return None;
    }

    // Read the digits, saturating once the value can no longer fit a u16.
    let ghost body = line@.subrange(lo as int, hi as int);
    let mut value: u32 = 0;
    let mut i: usize = lo;
    while i < hi
        invariant
            13 <= lo <= i <= hi <= len,
            len == line@.len(),
            has_port_prefix(line@),
            body == line@.subrange(lo as int, hi as int),
            trimmed(line@.subrange(13, len as int)) == body,
            body.len() > 0,
            all_digits(line@.subrange(lo as int, i as int)),
            value <= 65536,
            if digits_value(line@.subrange(lo as int, i as int)) <= 65535 {
                value == digits_value(line@.subrange(lo as int, i as int))
            } else {
                value == 65536
            },
        decreases hi - i,
    {
        let b = line[i];
        if b < 48 || b > 57 {
            proof {
                assert(body[i - lo] == line@[i as int]);
                assert(!is_ascii_digit(body[i - lo]));
                assert(!all_digits(body));
            }
            return None;
        }
        proof {
            assert(line@.subrange(lo as int, i + 1).drop_last() =~= line@.subrange(
                lo as int,
                i as int,
            ));
            assert(line@.subrange(lo as int, i + 1).last() == line@[i as int]);
        }
        let d: u32 = (b - 48) as u32;
        if value >= 65536 {
            value = 65536;
        } else {
            let next: u32 = value * 10 + d;
            value = if next > 65535 {
                65536
            } else {
                next
            };
        }
        i += 1;
    }
    if value <= 65535 {
        Some(value as u16)
    } else {
        None
    }
}

/// ASCII whitespace test on one byte.
fn is_whitespace_byte(b: u8) -> (r: bool)
    ensures
        r == is_ascii_whitespace(b),
{
    b == 9 || b == 10 || b == 11 || b == 12 || b == 13 || b == 32
}

/// The bytes of `port_prefix()`, listed for index reasoning.
proof fn lemma_port_prefix_values()
    ensures
        port_prefix().len() == 13,
        port_prefix()[0] == 66,
        port_prefix()[1] == 65,
        port_prefix()[2] == 67,
        port_prefix()[3] == 75,
        port_prefix()[4] == 69,
        port_prefix()[5] == 78,
        port_prefix()[6] == 68,
        port_prefix()[7] == 95,
        port_prefix()[8] == 80,
        port_prefix()[9] == 79,
        port_prefix()[10] == 82,
        port_prefix()[11] == 84,
        port_prefix()[12] == 58,
{
}

/// An announcement line assembled from its parts: the literal prefix, the
/// whitespace before the digits, the digits, the whitespace after them.
pub open spec fn announcement_line(
    ws_before: Seq<u8>,
    digits: Seq<u8>,
    ws_after: Seq<u8>,
) -> Seq<u8> {
    port_prefix() + ws_before + digits + ws_after
}

/// The position where `trim_start` cuts: everything before it is whitespace,
/// and it sits either at the end or on a non-whitespace byte.
proof fn lemma_trim_start_index(s: Seq<u8>) -> (k: int)
    ensures
        0 <= k <= s.len(),
        trim_start(s) == s.subrange(k, s.len() as int),
        forall|i: int| 0 <= i < k ==> is_ascii_whitespace(s[i]),
        k == s.len() || !is_ascii_whitespace(s[k]),
    decreases s.len(),
{
    if s.len() > 0 && is_ascii_whitespace(s[0]) {
        let rest = s.subrange(1, s.len() as int);
        let k1: int = lemma_trim_start_index(rest);
        assert(rest.subrange(k1, rest.len() as int) =~= s.subrange(k1 + 1, s.len() as int));
        assert forall|i: int| 0 <= i < k1 + 1 implies is_ascii_whitespace(s[i]) by {
            if i > 0 {
                assert(s[i] == rest[i - 1]);
            }
        }
        assert(k1 + 1 == s.len() || !is_ascii_whitespace(s[k1 + 1]));
        k1 + 1
    } else {
        assert(s.subrange(0, s.len() as int) =~= s);
        0
    }
}

/// The position where `trim_end` cuts: everything from it on is whitespace,
/// and the byte just before it, if any, is not.
proof fn lemma_trim_end_index(s: Seq<u8>) -> (k: int)
    ensures
        0 <= k <= s.len(),
        trim_end(s) == s.subrange(0, k),
        forall|i: int| k <= i < s.len() ==> is_ascii_whitespace(s[i]),
        k == 0 || !is_ascii_whitespace(s[k - 1]),
    decreases s.len(),
{
    if s.len() > 0 && is_ascii_whitespace(s.last()) {
        let shorter = s.drop_last();
        let k1: int = lemma_trim_end_index(shorter);
        assert(shorter.subrange(0, k1) =~= s.subrange(0, k1));
        assert forall|i: int| k1 <= i < s.len() implies is_ascii_whitespace(s[i]) by {
            if i < s.len() - 1 {
                assert(s[i] == shorter[i]);
            }
        }
        k1
    } else {
        assert(s.subrange(0, s.len() as int) =~= s);
        s.len() as int
    }
}

/// Every line assembled as the prefix, whitespace, a non-empty digit run
/// whose value is at most 65535, and more whitespace is recognised as an
/// announcement of exactly that value.
pub proof fn lemma_announcement_recognized(ws_before: Seq<u8>, digits: Seq<u8>, ws_after: Seq<u8>)
    requires
        all_whitespace(ws_before),
        all_digits(digits),
        all_whitespace(ws_after),
        digits.len() > 0,
        digits_value(digits) <= 65535,
    ensures
        announced_port(announcement_line(ws_before, digits, ws_after)) == Some(
            digits_value(digits) as u16,
        ),
{
    lemma_port_prefix_values();
    let line = announcement_line(ws_before, digits, ws_after);
    assert(has_port_prefix(line));
    let rest = line.subrange(13, line.len() as int);
    assert(rest =~= ws_before + digits + ws_after);
    let k1: int = ws_before.len() as int;
    assert(rest[k1] == digits[0]);
    lemma_trim_start_at(rest, k1);
    let t1 = rest.subrange(k1, rest.len() as int);
    assert(t1 =~= digits + ws_after);
    let k2: int = digits.len() as int;
    assert(k2 > 0 && !is_ascii_whitespace(t1[k2 - 1]));
    lemma_trim_end_at(t1, k2);
    assert(t1.subrange(0, k2) =~= digits);
    assert(trimmed(rest) == digits);
}

/// Conversely, every line the relay recognises — every line on which the
/// registry is ever updated — has the announcement shape: the prefix, then a
/// non-empty digit run carrying the announced value, surrounded only by
/// whitespace.  Together with `lemma_announcement_recognized` this pins the
/// set of lines that can mutate the registry; all other lines are log text.
pub proof fn lemma_recognized_has_shape(line: Seq<u8>) -> (parts: (Seq<u8>, Seq<u8>, Seq<u8>))
    requires
        announced_port(line) is Some,
    ensures
        line == announcement_line(parts.0, parts.1, parts.2),
        all_whitespace(parts.0),
        all_digits(parts.1),
        all_whitespace(parts.2),
        parts.1.len() > 0,
        digits_value(parts.1) <= 65535,
        announced_port(line) == Some(digits_value(parts.1) as u16),
{
    lemma_port_prefix_values();
    let rest = line.subrange(13, line.len() as int);
    let k1: int = lemma_trim_start_index(rest);
    let t1 = rest.subrange(k1, rest.len() as int);
    let k2: int = lemma_trim_end_index(t1);
    let ws_before = rest.subrange(0, k1);
    let digits = t1.subrange(0, k2);
    let ws_after = t1.subrange(k2, t1.len() as int);
    assert(digits == trimmed(rest));
    assert forall|i: int| 0 <= i < ws_after.len() implies is_ascii_whitespace(ws_after[i]) by {
        assert(ws_after[i] == t1[k2 + i]);
    }
    assert(line =~= announcement_line(ws_before, digits, ws_after));
    (ws_before, digits, ws_after)
}

} // verus!
