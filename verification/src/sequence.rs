//! Sequence numbers of chunks.

use vstd::prelude::*;

verus! {

/// The highest sequence number. The legacy numbering ends early.
pub open spec fn max_sequence_number(is_legacy: bool) -> int {
    if is_legacy {
        u32::MAX - 1024
    } else {
        u32::MAX as int
    }
}

/// The lowest sequence number. The legacy numbering starts at 1.
pub open spec fn min_sequence_number(is_legacy: bool) -> int {
    if is_legacy {
        1
    } else {
        0
    }
}

/// The sequence number after `n`, which wraps around after the highest.
pub open spec fn next_sequence_number(is_legacy: bool, n: int) -> int {
    if n == max_sequence_number(is_legacy) {
        min_sequence_number(is_legacy)
    } else {
        n + 1
    }
}

/// The sequence number `count` numbers after `n`, which wraps around after the highest.
pub open spec fn advanced(is_legacy: bool, n: int, count: int) -> int {
    let remaining = max_sequence_number(is_legacy) - n;
    if remaining < count {
        min_sequence_number(is_legacy) + count - remaining - 1
    } else {
        n + count
    }
}

/// Whether a chunk may come with number `n` where `expected` is due. At the start and after
/// a wrap the legacy numbering lets the sender begin with any number below 1024.
pub open spec fn may_follow(is_legacy: bool, expected: int, n: int) -> bool {
    n == expected || (is_legacy && expected == min_sequence_number(is_legacy) && n < 1024)
}

/// The numbering in use and the sequence number that is due next.
#[derive(Clone, Copy, Debug, PartialEq, Eq, Structural)]
pub struct SequenceNumbers {
    /// Whether the legacy numbering is in use.
    pub is_legacy: bool,
    /// The number of the next chunk.
    pub current: u32,
}

impl SequenceNumbers {
    /// The number that is due lies within the numbering.
    pub open spec fn wf(self) -> bool {
        self.current <= max_sequence_number(self.is_legacy)
    }

    /// Start at the lowest number.
    pub fn new(is_legacy: bool) -> (res: Self)
        ensures
            res.wf(),
            res.is_legacy == is_legacy,
            res.current == min_sequence_number(is_legacy),
    {
        SequenceNumbers { is_legacy, current: if is_legacy { 1 } else { 0 } }
    }
}

/// Sequence numbers are handed out one after the other: as long as fewer are handed out than
/// there are, one more takes the number that comes after the last.
pub proof fn law_numbers_follow_each_other(is_legacy: bool, n: int, count: int)
    requires
        min_sequence_number(is_legacy) <= n <= max_sequence_number(is_legacy),
        0 <= count <= max_sequence_number(is_legacy) - min_sequence_number(is_legacy),
    ensures
        advanced(is_legacy, n, 0) == n,
        advanced(is_legacy, n, count + 1) == next_sequence_number(
            is_legacy,
            advanced(is_legacy, n, count),
        ),
{
}

/// The legacy numbering goes from 1 to 1024 below the highest number of 32 bits, the other
/// numbering takes all numbers of 32 bits, and each number is followed by the next one, the last
/// by the first.
pub proof fn law_numberings_are_closed(is_legacy: bool, n: int)
    ensures
        is_legacy ==> {
            &&& SequenceNumbers { is_legacy, current: 0xFFFF_FBFF }.wf()
            &&& !SequenceNumbers { is_legacy, current: 0xFFFF_FC00 }.wf()
            &&& next_sequence_number(is_legacy, 0xFFFF_FBFF) == 1
            &&& n != 0xFFFF_FBFF ==> next_sequence_number(is_legacy, n) == n + 1
        },
        !is_legacy ==> {
            &&& SequenceNumbers { is_legacy, current: 0xFFFF_FFFF }.wf()
            &&& next_sequence_number(is_legacy, 0xFFFF_FFFF) == 0
            &&& n != 0xFFFF_FFFF ==> next_sequence_number(is_legacy, n) == n + 1
        },
{
}

/// The number that is due is always welcome. The only other numbers that are welcome are those
/// below 1024, in the legacy numbering, where 1 is due.
pub proof fn law_only_the_start_is_free(is_legacy: bool, expected: int, n: int)
    ensures
        may_follow(is_legacy, expected, expected),
        n != expected ==> (may_follow(is_legacy, expected, n) <==> is_legacy && expected == 1 && n
            < 1024),
{
}

/// Moving on by a number of chunks adds their number, and starts again with the first number
/// where that exceeds the last.
pub proof fn law_numbers_move_on_by_the_count(is_legacy: bool, n: int, count: int)
    ensures
        is_legacy && n + count <= 0xFFFF_FBFF ==> advanced(is_legacy, n, count) == n + count,
        is_legacy && n + count > 0xFFFF_FBFF ==> advanced(is_legacy, n, count) == n + count
            - 0xFFFF_FBFF,
        !is_legacy && n + count <= 0xFFFF_FFFF ==> advanced(is_legacy, n, count) == n + count,
        !is_legacy && n + count > 0xFFFF_FFFF ==> advanced(is_legacy, n, count) == n + count
            - 0x1_0000_0000,
{
}

/// A numbering starts with its first number.
pub proof fn law_numbering_starts_with_the_first_number(is_legacy: bool, numbers: SequenceNumbers)
    requires
        call_ensures(SequenceNumbers::new, (is_legacy,), numbers),
    ensures
        numbers.is_legacy == is_legacy,
        numbers.current == if is_legacy {
            1int
        } else {
            0
        },
{
}

} // verus!
