//! Lines of a text, by the bytes at which they start and end.

use crate::syntax::ByteRange;
use vstd::prelude::*;
use vstd::string::StringSliceAdditionalSpecFns;
use vstd::utf8::encode_utf8;

verus! {

/// The position of the first line feed of `bytes` at or after `from`, or
/// the length of `bytes`.
pub open spec fn line_feed(bytes: Seq<u8>, from: int) -> int
    decreases bytes.len() - from,
{
    if from < 0 || from >= bytes.len() {
        bytes.len() as int
    } else if bytes[from] == 10u8 {
        from
    } else {
        line_feed(bytes, from + 1)
    }
}

/// Where the line starts that comes `count` lines after the line that
/// starts at `from`. Past the last line feed it is the length of `bytes`.
pub open spec fn line_start(bytes: Seq<u8>, from: int, count: nat) -> int
    decreases count,
{
    if count == 0 {
        from
    } else {
        let feed = line_feed(bytes, from);
        if feed >= bytes.len() {
            bytes.len() as int
        } else {
            line_start(bytes, feed + 1, (count - 1) as nat)
        }
    }
}

/// Where the line that starts at `start` ends: at its line feed, or at the
/// carriage return that stands right before the line feed, or at the end
/// of `bytes`.
pub open spec fn line_end(bytes: Seq<u8>, start: int) -> int {
    let feed = line_feed(bytes, start);
    if start < feed < bytes.len() && bytes[feed - 1] == 13u8 {
        feed - 1
    } else {
        feed
    }
}

/// The bytes of the line with the number `line`, without what ends the
/// line. Lines are counted from one; the number zero stands for the first
/// line too.
pub open spec fn line_range(bytes: Seq<u8>, line: nat) -> ByteRange {
    let skipped = if line == 0 {
        0nat
    } else {
        (line - 1) as nat
    };
    let start = line_start(bytes, 0, skipped);
    ByteRange { start: start as usize, end: line_end(bytes, start) as usize }
}

fn find_line_feed(bytes: &[u8], from: usize) -> (feed: usize)
    requires
        from <= bytes.len(),
    ensures
        feed == line_feed(bytes@, from as int),
        from <= feed <= bytes.len(),
{
    let mut feed: usize = from;
    while feed < bytes.len() && bytes[feed] != 10u8
        invariant
            from <= feed <= bytes.len(),
            line_feed(bytes@, from as int) == line_feed(bytes@, feed as int),
        decreases bytes.len() - feed,
    {
        feed += 1;
    }
    feed
}

/// Finds the bytes of the line with the number `line` in `text`.
pub fn find_line(text: &str, line: usize) -> (range: ByteRange)
    ensures
        range == line_range(encode_utf8(text@), line as nat),
{
    let bytes = text.as_bytes();
    let mut remaining: usize = if line == 0 {
        0
    } else {
        line - 1
    };
    let mut start: usize = 0;
    while remaining > 0 && start < bytes.len()
        invariant
            start <= bytes.len(),
            bytes@ == text.spec_bytes(),
            line_range(bytes@, line as nat).start == line_start(
                bytes@,
                start as int,
                remaining as nat,
            ) as usize,
            line_range(bytes@, line as nat).end == line_end(
                bytes@,
                line_start(bytes@, start as int, remaining as nat),
            ) as usize,
        decreases remaining,
    {
        let feed = find_line_feed(bytes, start);
        if feed >= bytes.len() {
            start = bytes.len();
            proof {
                lemma_past_the_end(bytes@, (remaining - 1) as nat);
            }
        } else {
            start = feed + 1;
        }
        remaining -= 1;
    }
    proof {
        lemma_past_the_end(bytes@, remaining as nat);
    }
    let feed = find_line_feed(bytes, start);
    let end = if start < feed && feed < bytes.len() && bytes[feed - 1] == 13u8 {
        feed - 1
    } else {
        feed
    };
    ByteRange { start, end }
}

/// From the end of `bytes` on, every line starts at the end.
pub proof fn lemma_past_the_end(bytes: Seq<u8>, count: nat)
    ensures
        line_start(bytes, bytes.len() as int, count) == bytes.len(),
    decreases count,
{
    if count > 0 {
        lemma_past_the_end(bytes, (count - 1) as nat);
    }
}

} // verus!
