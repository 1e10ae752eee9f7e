//! The header of a file in the exchange format, looked at before it is
//! parsed: where it ends, and whether every number can be read that a
//! parser takes from it. Numbers are read in the lines that begin with
//! `format` and with `element`, where digits stand behind a blank or a point:
//! the version of the format and the number of records of an element. Digits
//! elsewhere, in a comment or in a name, are text.

use vstd::prelude::*;
use crate::io::ply::{all_digits, ascii, decimal_value, key_starts_with};

verus! {

/// The byte that ends a line.
pub const LINE_FEED: u8 = 0x0a;

/// Whether a line begins at `at`: at the start of the bytes, or behind a
/// line feed.
pub open spec fn line_begins(bytes: Seq<u8>, at: int) -> bool {
    0 <= at <= bytes.len() && (at == 0 || bytes[at - 1] == LINE_FEED)
}

/// Whether a line that begins with `end_header` begins at `at`. No line
/// behind the first such line belongs to the header.
pub open spec fn header_ends_at(bytes: Seq<u8>, at: int) -> bool {
    line_begins(bytes, at) && ascii("end_header"@).is_prefix_of(
        bytes.subrange(at, bytes.len() as int),
    )
}

/// How many bytes the lines of the header take that come before the line
/// `end_header`: the place where the first line begins that begins with
/// `end_header`, or all bytes where there is none.
pub open spec fn header_length(bytes: Seq<u8>) -> nat {
    if exists|at: int| header_ends_at(bytes, at) {
        (choose|at: int|
            header_ends_at(bytes, at) && forall|before: int|
                0 <= before < at ==> !header_ends_at(bytes, before)) as nat
    } else {
        bytes.len()
    }
}

/// Finds where the lines of the header end.
pub fn find_header_length(bytes: &[u8]) -> (length: usize)
    ensures
        length == header_length(bytes@),
        length <= bytes@.len(),
{
    proof {
        reveal_strlit("end_header");
    }
    let mut at: usize = 0;
    while at < bytes.len()
        invariant
            at <= bytes@.len(),
            "end_header".is_ascii(),
            forall|before: int| 0 <= before < at ==> !header_ends_at(bytes@, before),
        decreases bytes@.len() - at,
    {
        if at == 0 || bytes[at - 1] == LINE_FEED {
            let rest = vstd::slice::slice_subrange(bytes, at, bytes.len());
            if key_starts_with(rest, "end_header") {
                proof {
                    assert(header_ends_at(bytes@, at as int));
                    let first = choose|first: int|
                        header_ends_at(bytes@, first) && forall|before: int|
                            0 <= before < first ==> !header_ends_at(bytes@, before);
                    if first > at {
                        assert(!header_ends_at(bytes@, at as int));
                    }
                }
                return at;
            }
        }
        at = at + 1;
    }
    proof {
        assert forall|place: int| !header_ends_at(bytes@, place) by {
            if place == bytes@.len() {
                assert(ascii("end_header"@).len() == 10);
                assert(bytes@.subrange(place, bytes@.len() as int).len() == 0);
            }
        }
    }
    at
}

/// Whether a byte is one of the digits `0` to `9`.
pub open spec fn is_digit(byte: u8) -> bool {
    0x30 <= byte <= 0x39
}

/// Whether a byte is a space, a tab or a point.
pub open spec fn is_blank_or_point(byte: u8) -> bool {
    byte == 0x20 || byte == 0x09 || byte == 0x2e
}

/// Whether the bytes of `line` from `start` up to `end` write a number from
/// its first digit on: digits only, the first of them behind a blank or a
/// point.
pub open spec fn is_number(line: Seq<u8>, start: int, end: int) -> bool {
    &&& 0 < start < end <= line.len()
    &&& is_blank_or_point(line[start - 1])
    &&& all_digits(line.subrange(start, end))
}

/// Whether `line` writes a number that no unsigned number of 64 bits holds.
pub open spec fn overlong_number(line: Seq<u8>) -> bool {
    exists|start: int, end: int| #[trigger]
        is_number(line, start, end) && decimal_value(line.subrange(start, end)) > u64::MAX
}

/// Looks for a number that no unsigned number of 64 bits holds.
pub fn has_overlong_number(line: &[u8]) -> (found: bool)
    ensures
        found == overlong_number(line@),
{
    let mut in_run: bool = false;
    let mut counted: bool = false;
    let mut value: u64 = 0;
    let ghost mut start: int = 0;
    let mut i: usize = 0;
    while i < line.len()
        invariant
            i <= line@.len(),
            forall|s: int, e: int| #[trigger]
                is_number(line@, s, e) && e <= i ==> decimal_value(line@.subrange(s, e))
                    <= u64::MAX,
            in_run ==> {
                &&& 0 <= start < i
                &&& all_digits(line@.subrange(start, i as int))
                &&& (start == 0 || !is_digit(line@[start - 1]))
                &&& counted <==> start > 0 && is_blank_or_point(line@[start - 1])
                &&& counted ==> value == decimal_value(line@.subrange(start, i as int))
            },
            !in_run ==> i == 0 || !is_digit(line@[i - 1]),
        decreases line@.len() - i,
    {
        let byte = line[i];
        if 0x30 <= byte && byte <= 0x39 {
            let digit: u64 = (byte - 0x30) as u64;
            let begins = !in_run;
            let counts = if in_run {
                counted
            } else {
                i > 0 && (line[i - 1] == 0x20 || line[i - 1] == 0x09 || line[i - 1] == 0x2e)
            };
            let ghost run_start = if in_run {
                start
            } else {
                i as int
            };
            let ghost before = line@.subrange(run_start, i as int);
            let ghost run = line@.subrange(run_start, i + 1);
            proof {
                assert(run.drop_last() =~= before);
                assert(run.last() == byte);
                assert forall|k: int| 0 <= k < run.len() implies 0x30 <= #[trigger] run[k]
                    <= 0x39 by {
                    if k < before.len() {
                        assert(run[k] == before[k]);
                    }
                }
                assert forall|s: int, e: int| #[trigger]
                    is_number(line@, s, e) && e == i + 1 implies s == run_start by {
                    let other = line@.subrange(s, e);
                    if s < run_start {
                        assert(other[run_start - 1 - s] == line@[run_start - 1]);
                    }
                    if s > run_start {
                        assert(run[s - 1 - run_start] == line@[s - 1]);
                    }
                }
            }
            if counts {
                let next = if begins {
                    Some(digit)
                } else {
                    match value.checked_mul(10) {
                        Some(tens) => tens.checked_add(digit),
                        None => None,
                    }
                };
                proof {
                    assert(decimal_value(run) == 10 * decimal_value(before) + digit);
                    assert(is_number(line@, run_start, i + 1));
                }
                match next {
                    Some(more) => {
                        value = more;
                    },
                    None => {
                        return true;
                    },
                }
            }
            in_run = true;
            counted = counts;
            proof {
                start = run_start;
            }
        } else {
            proof {
                assert forall|s: int, e: int| #[trigger]
                    is_number(line@, s, e) && e <= i + 1 implies decimal_value(
                    line@.subrange(s, e),
                ) <= u64::MAX by {
                    if e == i + 1 {
                        assert(line@.subrange(s, e)[i - s] == byte);
                    }
                }
            }
            in_run = false;
        }
        i = i + 1;
    }
    false
}

/// Whether the bytes from `begin` up to `end` are a line, without the line
/// feed that ends it.
pub open spec fn is_line(bytes: Seq<u8>, begin: int, end: int) -> bool {
    &&& line_begins(bytes, begin)
    &&& begin <= end <= bytes.len()
    &&& forall|k: int| begin <= k < end ==> bytes[k] != LINE_FEED
    &&& (end == bytes.len() || bytes[end] == LINE_FEED)
}

/// Finds where the line ends that begins at `begin`.
pub fn find_line_end(bytes: &[u8], begin: usize) -> (end: usize)
    requires
        line_begins(bytes@, begin as int),
    ensures
        is_line(bytes@, begin as int, end as int),
{
    let mut end: usize = begin;
    while end < bytes.len() && bytes[end] != LINE_FEED
        invariant
            begin <= end <= bytes@.len(),
            forall|k: int| begin <= k < end ==> bytes@[k] != LINE_FEED,
        decreases bytes@.len() - end,
    {
        end = end + 1;
    }
    end
}

/// Whether numbers are read in a line: it begins with `format` or with
/// `element`.
pub open spec fn holds_numbers(line: Seq<u8>) -> bool {
    ascii("format"@).is_prefix_of(line) || ascii("element"@).is_prefix_of(line)
}

/// Whether every number can be read that the header holds: no line of the
/// header in which numbers are read writes one that no unsigned number of 64
/// bits holds.
pub open spec fn header_fits(bytes: Seq<u8>) -> bool {
    forall|begin: int, end: int| #[trigger]
        is_line(bytes, begin, end) && begin < header_length(bytes) && holds_numbers(
            bytes.subrange(begin, end),
        ) ==> !overlong_number(bytes.subrange(begin, end))
}

/// Tells whether every number can be read that the header holds.
pub fn header_numbers_fit(bytes: &[u8]) -> (fits: bool)
    ensures
        fits == header_fits(bytes@),
{
    proof {
        reveal_strlit("format");
        reveal_strlit("element");
    }
    let length = find_header_length(bytes);
    let mut begin: usize = 0;
    while begin < length
        invariant
            begin <= bytes@.len(),
            length == header_length(bytes@),
            length <= bytes@.len(),
            "format".is_ascii(),
            "element".is_ascii(),
            begin < length ==> line_begins(bytes@, begin as int),
            forall|b: int, e: int| #[trigger]
                is_line(bytes@, b, e) && b < begin && b < length && holds_numbers(
                    bytes@.subrange(b, e),
                ) ==> !overlong_number(bytes@.subrange(b, e)),
        decreases bytes@.len() - begin,
    {
        let end = find_line_end(bytes, begin);
        let line = vstd::slice::slice_subrange(bytes, begin, end);
        let numbered = key_starts_with(line, "format") || key_starts_with(line, "element");
        if numbered && has_overlong_number(line) {
            assert(is_line(bytes@, begin as int, end as int));
            return false;
        }
        let next = if end < bytes.len() {
            end + 1
        } else {
            end
        };
        proof {
            assert forall|b: int, e: int| #[trigger]
                is_line(bytes@, b, e) && b < next && b < length && holds_numbers(
                    bytes@.subrange(b, e),
                ) implies !overlong_number(bytes@.subrange(b, e)) by {
                if b >= begin {
                    if b > begin {
                        assert(bytes@[b - 1] == LINE_FEED);
                    }
                    if e < end {
                        assert(bytes@[e] == LINE_FEED);
                    }
                    if e > end {
                        assert(bytes@[end as int] == LINE_FEED);
                    }
                }
            }
        }
        begin = next;
    }
    true
}

} // verus!
