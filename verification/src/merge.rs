//! Putting the chunks of a message back in order.

use vstd::prelude::*;

use crate::message::{
    chunk_data, received, MessageChunk, MessageChunkWithChunkInfo, ReceivedChunk,
};

verus! {

/// The chunks with sequence number `n`, in the order in which they arrived.
pub open spec fn numbered(chunks: Seq<ReceivedChunk>, n: int) -> Seq<ReceivedChunk> {
    chunks.filter(|c: ReceivedChunk| c.header.sequence_number == n)
}

/// The lowest sequence number among the chunks.
pub open spec fn lowest(chunks: Seq<ReceivedChunk>) -> int
    decreases chunks.len(),
{
    if chunks.len() == 0 {
        0
    } else if chunks.len() == 1 {
        chunks[0].header.sequence_number as int
    } else {
        let rest = lowest(chunks.drop_last());
        if chunks.last().header.sequence_number < rest {
            chunks.last().header.sequence_number as int
        } else {
            rest
        }
    }
}

/// The data of the first chunk that arrived with number `n`, then of the first with number
/// `n + 1`, and so on, up to the first number that no chunk has.
pub open spec fn merged_from(chunks: Seq<ReceivedChunk>, n: int) -> Seq<Seq<u8>>
    decreases u32::MAX + 1 - n,
{
    if n > u32::MAX || numbered(chunks, n).len() == 0 {
        Seq::empty()
    } else {
        seq![numbered(chunks, n)[0].data] + merged_from(chunks, n + 1)
    }
}

/// The message that the chunks make up: one chunk for each sequence number, without gaps,
/// from the lowest number on.
pub open spec fn merged(chunks: Seq<ReceivedChunk>) -> Seq<Seq<u8>> {
    merged_from(chunks, lowest(chunks))
}

/// Sequence numbers never decrease from one chunk to the next.
pub open spec fn in_order(chunks: Seq<ReceivedChunk>) -> bool {
    forall|i: int, j: int|
        0 <= i <= j < chunks.len() ==> chunks[i].header.sequence_number
            <= chunks[j].header.sequence_number
}

/// The lowest sequence number is a lower bound, and some chunk has it.
proof fn lemma_lowest(chunks: Seq<ReceivedChunk>)
    requires
        chunks.len() > 0,
    ensures
        forall|i: int|
            0 <= i < chunks.len() ==> lowest(chunks) <= #[trigger] chunks[i].header.sequence_number,
        exists|i: int|
            0 <= i < chunks.len() && #[trigger] chunks[i].header.sequence_number == lowest(chunks),
    decreases chunks.len(),
{
    if chunks.len() == 1 {
        assert(chunks[0].header.sequence_number == lowest(chunks));
    } else {
        let rest = chunks.drop_last();
        lemma_lowest(rest);
        assert forall|i: int| 0 <= i < chunks.len() implies lowest(chunks)
            <= #[trigger] chunks[i].header.sequence_number by {
            if i < rest.len() {
                assert(rest[i] == chunks[i]);
            }
        }
    }
}

/// A lower bound that some chunk attains is the lowest sequence number.
proof fn lemma_lowest_is(chunks: Seq<ReceivedChunk>, k: int)
    requires
        0 <= k < chunks.len(),
        forall|i: int|
            0 <= i < chunks.len() ==> chunks[k].header.sequence_number
                <= #[trigger] chunks[i].header.sequence_number,
    ensures
        lowest(chunks) == chunks[k].header.sequence_number,
{
    lemma_lowest(chunks);
}

/// No chunk has the number exactly when none is found.
proof fn lemma_numbered_empty(chunks: Seq<ReceivedChunk>, n: int)
    ensures
        numbered(chunks, n).len() == 0 <==> forall|i: int|
            0 <= i < chunks.len() ==> #[trigger] chunks[i].header.sequence_number != n,
{
    let pred = |c: ReceivedChunk| c.header.sequence_number == n;
    if forall|i: int| 0 <= i < chunks.len() ==> #[trigger] chunks[i].header.sequence_number != n {
        chunks.lemma_all_neg_filter_empty(pred);
    } else {
        let k = choose|k: int|
            0 <= k < chunks.len() && #[trigger] chunks[k].header.sequence_number == n;
        chunks.lemma_filter_contains(pred, k);
    }
}

/// The first chunk found with a number is the first in the list that has it.
proof fn lemma_numbered_first(chunks: Seq<ReceivedChunk>, n: int, k: int)
    requires
        0 <= k < chunks.len(),
        chunks[k].header.sequence_number == n,
        forall|i: int| 0 <= i < k ==> #[trigger] chunks[i].header.sequence_number != n,
    ensures
        numbered(chunks, n).len() > 0,
        numbered(chunks, n)[0] == chunks[k],
{
    let pred = |c: ReceivedChunk| c.header.sequence_number == n;
    let before = chunks.take(k);
    let hit = seq![chunks[k]];
    let after = chunks.skip(k + 1);
    assert(chunks =~= (before + hit) + after);
    before.lemma_all_neg_filter_empty(pred);
    assert(hit.filter(pred) =~= hit) by {
        reveal(Seq::filter);
    }
}

/// A chunk put before later numbers only comes last among those with its own number.
proof fn lemma_numbered_insert(chunks: Seq<ReceivedChunk>, pos: int, c: ReceivedChunk, n: int)
    requires
        0 <= pos <= chunks.len(),
        forall|i: int|
            pos <= i < chunks.len() ==> #[trigger] chunks[i].header.sequence_number
                > c.header.sequence_number,
    ensures
        numbered(chunks.insert(pos, c), n) == numbered(chunks.push(c), n),
{
    let pred = |c: ReceivedChunk| c.header.sequence_number == n;
    let before = chunks.take(pos);
    let new = seq![c];
    let after = chunks.skip(pos);
    assert(chunks.insert(pos, c) =~= (before + new) + after);
    assert(chunks.push(c) =~= (before + after) + new);
    if c.header.sequence_number == n {
        after.lemma_all_neg_filter_empty(pred);
    } else {
        new.lemma_all_neg_filter_empty(pred);
    }
}

/// The first chunks with number `n` hold the same data, if there are any.
spec fn same_first(a: Seq<ReceivedChunk>, b: Seq<ReceivedChunk>, n: int) -> bool {
    &&& numbered(a, n).len() == 0 <==> numbered(b, n).len() == 0
    &&& numbered(a, n).len() > 0 ==> numbered(a, n)[0].data == numbered(b, n)[0].data
}

/// The same first chunk under each number makes up the same message.
proof fn lemma_same_first(a: Seq<ReceivedChunk>, b: Seq<ReceivedChunk>)
    requires
        forall|n: int| #[trigger] same_first(a, b, n),
    ensures
        a.len() > 0 && b.len() > 0 ==> lowest(a) == lowest(b),
        forall|n: int| merged_from(a, n) == merged_from(b, n),
{
    if a.len() > 0 && b.len() > 0 {
        lemma_lowest(a);
        lemma_lowest(b);
        lemma_numbered_empty(a, lowest(a));
        lemma_numbered_empty(b, lowest(a));
        lemma_numbered_empty(a, lowest(b));
        lemma_numbered_empty(b, lowest(b));
        assert(same_first(a, b, lowest(a)));
        assert(same_first(a, b, lowest(b)));
    }
    assert forall|n: int| merged_from(a, n) == merged_from(b, n) by {
        lemma_same_first_from(a, b, n);
    }
}

/// The same first chunk under each number makes up the same message from each number on.
proof fn lemma_same_first_from(a: Seq<ReceivedChunk>, b: Seq<ReceivedChunk>, n: int)
    requires
        forall|m: int| #[trigger] same_first(a, b, m),
    ensures
        merged_from(a, n) == merged_from(b, n),
    decreases u32::MAX + 1 - n,
{
    assert(same_first(a, b, n));
    if n <= u32::MAX && numbered(a, n).len() > 0 {
        lemma_same_first_from(a, b, n + 1);
    }
}

/// Sort chunks by sequence number. Chunks with the same number stay in the order in which
/// they arrived.
fn sort_by_sequence_number(chunks: Vec<MessageChunkWithChunkInfo>) -> (sorted: Vec<
    MessageChunkWithChunkInfo,
>)
    ensures
        sorted@.len() == chunks@.len(),
        in_order(received(sorted@)),
        forall|n: int| #[trigger]
            numbered(received(sorted@), n) == numbered(received(chunks@), n),
{
    let ghost all = chunks@;
    let mut sorted: Vec<MessageChunkWithChunkInfo> = Vec::new();
    for c in it: chunks
        invariant
            it.seq() == all,
            sorted@.len() == it.index(),
            in_order(received(sorted@)),
            forall|n: int| #[trigger]
                numbered(received(sorted@), n) == numbered(received(all.take(it.index() as int)), n),
    {
        let ghost before = sorted@;
        let ghost k = it.index() as int;
        let mut pos: usize = sorted.len();
        while pos > 0 && sorted[pos - 1].header.sequence_number > c.header.sequence_number
            invariant
                pos <= sorted@.len(),
                forall|i: int|
                    pos <= i < sorted@.len() ==> #[trigger] sorted@[i].header.sequence_number
                        > c.header.sequence_number,
            decreases pos,
        {
            pos = pos - 1;
        }
        sorted.insert(pos, c);
        proof {
            let old_view = received(before);
            assert(received(sorted@) =~= old_view.insert(pos as int, c@));
            assert(received(all.take(k + 1)) =~= received(all.take(k)).push(c@));
            assert forall|n: int| #[trigger]
                numbered(received(sorted@), n) == numbered(received(all.take(k + 1)), n) by {
                lemma_numbered_insert(old_view, pos as int, c@, n);
                let pred = |c: ReceivedChunk| c.header.sequence_number == n;
                assert(numbered(old_view, n) == numbered(received(all.take(k)), n));
                reveal(Seq::filter);
                assert(old_view.push(c@).drop_last() =~= old_view);
                assert(received(all.take(k)).push(c@).drop_last() =~= received(all.take(k)));
            }
        }
    }
    proof {
        assert(all.take(all.len() as int) =~= all);
    }
    sorted
}

/// Two or more chunks whose numbers, without gaps from the lowest on, reach the highest number
/// there is, so that no number follows the last of them.
pub open spec fn runs_out(chunks: Seq<ReceivedChunk>) -> bool {
    chunks.len() > 1 && lowest(chunks) + merged(chunks).len() > u32::MAX
}

/// Bring the chunks of a message in order and drop those that are duplicates or that follow
/// a gap in the sequence numbers.
pub fn merge_chunks(chunks: Vec<MessageChunkWithChunkInfo>) -> (ret: Vec<MessageChunk>)
    requires
        chunks@.len() > 0,
        !runs_out(received(chunks@)),
    ensures
        chunk_data(ret@) == merged(received(chunks@)),
        ret@.len() > 0,
{
    merge_any_chunks(chunks)
}

/// Merge chunks as [`merge_chunks`] does, whatever their numbers: a number that would follow the
/// highest is never waited for.
pub fn merge_any_chunks(chunks: Vec<MessageChunkWithChunkInfo>) -> (ret: Vec<MessageChunk>)
    requires
        chunks@.len() > 0,
    ensures
        chunk_data(ret@) == merged(received(chunks@)),
        ret@.len() > 0,
{
    let ghost arrived = received(chunks@);
    let chunks = sort_by_sequence_number(chunks);
    let ghost all = chunks@;
    let ghost sorted = received(all);
    let first: u32 = chunks[0].header.sequence_number;
    let mut expect_sequence_number: u32 = first;
    let mut ret: Vec<MessageChunk> = Vec::new();
    proof {
        lemma_lowest_is(sorted, 0);
        lemma_same_first(sorted, arrived);
    }
    for c in it: chunks
        invariant
            it.seq() == all,
            sorted == received(all),
            in_order(sorted),
            all.len() > 0,
            first == all[0].header.sequence_number,
            it.index() > 0 ==> ret@.len() > 0,
            expect_sequence_number == if first + ret@.len() <= u32::MAX {
                first + ret@.len()
            } else {
                0
            },
            first + ret@.len() > u32::MAX ==> forall|j: int|
                it.index() <= j < all.len() ==> #[trigger] all[j].header.sequence_number
                    == u32::MAX,
            forall|j: int|
                0 <= j < it.index() ==> #[trigger] all[j].header.sequence_number != first
                    + ret@.len(),
            merged_from(sorted, first as int) == chunk_data(ret@) + merged_from(
                sorted,
                first + ret@.len(),
            ),
    {
        let ghost k = it.index() as int;
        let ghost e = first + ret@.len();
        if c.header.sequence_number == expect_sequence_number {
            proof {
                lemma_numbered_first(sorted, e, k);
            }
            expect_sequence_number = expect_sequence_number.wrapping_add(1);
            ret.push(MessageChunk { data: c.data_with_header });
            proof {
                assert forall|j: int| 0 <= j <= k implies #[trigger]
                    all[j].header.sequence_number != e + 1 by {
                    assert(sorted[j].header.sequence_number <= sorted[k].header.sequence_number);
                }
                assert forall|j: int| k < j < all.len() && e + 1 > u32::MAX implies #[trigger]
                    all[j].header.sequence_number == u32::MAX by {
                    assert(sorted[k].header.sequence_number <= sorted[j].header.sequence_number);
                }
            }
        }
    }
    proof {
        let e = first + ret@.len();
        lemma_numbered_empty(sorted, e);
    }
    ret
}

/// Chunks that share a sequence number hold the same data.
pub open spec fn consistent(chunks: Seq<ReceivedChunk>) -> bool {
    forall|i: int, j: int|
        0 <= i < chunks.len() && 0 <= j < chunks.len() && chunks[i].header.sequence_number
            == chunks[j].header.sequence_number ==> (#[trigger] chunks[i]).data == (
        #[trigger] chunks[j]).data
}

/// The order in which the chunks of a message arrive, and how often each of them arrives, make
/// no difference: the same chunks give the same message.
pub proof fn law_arrival_order_is_irrelevant(a: Seq<ReceivedChunk>, b: Seq<ReceivedChunk>)
    requires
        consistent(a),
        forall|c: ReceivedChunk| #[trigger] a.contains(c) <==> b.contains(c),
    ensures
        merged(a) == merged(b),
{
    assert forall|n: int| #[trigger] same_first(a, b, n) by {
        let pred = |c: ReceivedChunk| c.header.sequence_number == n;
        lemma_numbered_empty(a, n);
        lemma_numbered_empty(b, n);
        if numbered(a, n).len() > 0 {
            let c = numbered(a, n)[0];
            a.lemma_filter_contains_rev(pred, c);
        }
        if numbered(b, n).len() > 0 {
            let d = numbered(b, n)[0];
            b.lemma_filter_contains_rev(pred, d);
            assert(a.contains(d));
        }
    }
    lemma_same_first(a, b);
}

/// A chunk whose number was taken before does not change the message from any number on.
proof fn lemma_push_keeps_merged(chunks: Seq<ReceivedChunk>, c: ReceivedChunk, n: int)
    requires
        numbered(chunks, c.header.sequence_number as int).len() > 0,
    ensures
        merged_from(chunks.push(c), n) == merged_from(chunks, n),
    decreases u32::MAX + 1 - n,
{
    let pred = |c: ReceivedChunk| c.header.sequence_number == n;
    assert(numbered(chunks.push(c), n) == if c.header.sequence_number == n {
        numbered(chunks, n).push(c)
    } else {
        numbered(chunks, n)
    }) by {
        reveal(Seq::filter);
        assert(chunks.push(c).drop_last() =~= chunks);
    }
    if n <= u32::MAX && numbered(chunks, n).len() > 0 {
        lemma_push_keeps_merged(chunks, c, n + 1);
    }
}

/// A chunk that arrives again, after one with the same sequence number, changes nothing.
pub proof fn law_late_duplicate_is_dropped(chunks: Seq<ReceivedChunk>, c: ReceivedChunk)
    requires
        numbered(chunks, c.header.sequence_number as int).len() > 0,
    ensures
        merged(chunks.push(c)) == merged(chunks),
{
    lemma_numbered_empty(chunks, c.header.sequence_number as int);
    lemma_lowest(chunks);
    let low = choose|low: int|
        0 <= low < chunks.len() && #[trigger] chunks[low].header.sequence_number == lowest(chunks);
    let pushed = chunks.push(c);
    assert forall|i: int| 0 <= i < pushed.len() implies pushed[low].header.sequence_number
        <= #[trigger] pushed[i].header.sequence_number by {}
    lemma_lowest_is(pushed, low);
    lemma_push_keeps_merged(chunks, c, lowest(chunks));
}

/// Chunks without a gap are all kept, in order, from the one at `k` on.
proof fn lemma_contiguous_from(chunks: Seq<ReceivedChunk>, k: int)
    requires
        0 <= k <= chunks.len(),
        chunks.len() > 0,
        forall|i: int|
            0 <= i < chunks.len() ==> #[trigger] chunks[i].header.sequence_number
                == chunks[0].header.sequence_number + i,
    ensures
        merged_from(chunks, chunks[0].header.sequence_number + k) == chunks.skip(k).map_values(
            |c: ReceivedChunk| c.data,
        ),
    decreases chunks.len() - k,
{
    let n = chunks[0].header.sequence_number + k;
    lemma_numbered_empty(chunks, n);
    if k < chunks.len() {
        lemma_numbered_first(chunks, n, k);
        lemma_contiguous_from(chunks, k + 1);
    }
}

/// Chunks whose sequence numbers follow each other without a gap are all kept, in order.
pub proof fn law_contiguous_chunks_are_kept(chunks: Seq<ReceivedChunk>)
    requires
        chunks.len() > 0,
        forall|i: int|
            0 <= i < chunks.len() ==> #[trigger] chunks[i].header.sequence_number
                == chunks[0].header.sequence_number + i,
    ensures
        merged(chunks) == chunks.map_values(|c: ReceivedChunk| c.data),
{
    lemma_lowest_is(chunks, 0);
    lemma_contiguous_from(chunks, 0);
}

/// What is merged from a number on has, in each place, the first chunk with the number of that
/// place, and ends before a number that no chunk has.
proof fn lemma_merged_from(chunks: Seq<ReceivedChunk>, n: int, i: int)
    requires
        0 <= n,
    ensures
        0 <= i < merged_from(chunks, n).len() ==> numbered(chunks, n + i).len() > 0 && merged_from(
            chunks,
            n,
        )[i] == numbered(chunks, n + i)[0].data,
        numbered(chunks, n + merged_from(chunks, n).len()).len() == 0,
    decreases u32::MAX + 1 - n,
{
    if n > u32::MAX {
        lemma_numbered_empty(chunks, n);
    } else if numbered(chunks, n).len() > 0 {
        lemma_merged_from(chunks, n + 1, i - 1);
        let rest = merged_from(chunks, n + 1);
        let all = merged_from(chunks, n);
        assert(n + all.len() == n + 1 + rest.len());
        assert(n + 1 + (i - 1) == n + i);
        if 0 < i < all.len() {
            assert(all[i] == rest[i - 1]);
        }
    }
}

/// Among the chunks with a number there is one that arrived first.
proof fn lemma_first_with_number(chunks: Seq<ReceivedChunk>, n: int) -> (k: int)
    requires
        numbered(chunks, n).len() > 0,
    ensures
        0 <= k < chunks.len(),
        chunks[k].header.sequence_number == n,
        forall|i: int| 0 <= i < k ==> #[trigger] chunks[i].header.sequence_number != n,
        numbered(chunks, n)[0] == chunks[k],
    decreases chunks.len(),
{
    lemma_numbered_empty(chunks, n);
    let some = choose|k: int|
        0 <= k < chunks.len() && #[trigger] chunks[k].header.sequence_number == n;
    let before = chunks.take(some);
    lemma_numbered_empty(before, n);
    let k = if numbered(before, n).len() > 0 {
        let k = lemma_first_with_number(before, n);
        assert(chunks[k] == before[k]);
        assert forall|i: int| 0 <= i < k implies #[trigger] chunks[i].header.sequence_number
            != n by {
            assert(before[i] == chunks[i]);
        }
        k
    } else {
        assert forall|i: int| 0 <= i < some implies #[trigger] chunks[i].header.sequence_number
            != n by {
            assert(before[i] == chunks[i]);
        }
        some
    };
    lemma_numbered_first(chunks, n, k);
    k
}

/// A message starts with a chunk, `first`, whose number no other chunk undercuts. It goes on
/// number by number: in each place `i` it has the chunk, `k`, that arrived first under the number
/// of that place. It ends only where no chunk has the next number.
pub proof fn law_message_is_the_run_from_the_lowest_number(chunks: Seq<ReceivedChunk>, i: int) -> (
    res: (int, int))
    requires
        chunks.len() > 0,
    ensures
        ({
            let (first, k) = res;
            let start = chunks[first].header.sequence_number;
            &&& 0 <= first < chunks.len()
            &&& forall|j: int|
                0 <= j < chunks.len() ==> start <= (#[trigger] chunks[j]).header.sequence_number
            &&& merged(chunks).len() > 0
            &&& 0 <= i < merged(chunks).len() ==> {
                &&& 0 <= k < chunks.len()
                &&& chunks[k].header.sequence_number == start + i
                &&& chunks[k].data == merged(chunks)[i]
                &&& forall|j: int|
                    0 <= j < k ==> (#[trigger] chunks[j]).header.sequence_number != start + i
            }
            &&& forall|j: int|
                0 <= j < chunks.len() ==> (#[trigger] chunks[j]).header.sequence_number != start
                    + merged(chunks).len()
        }),
{
    lemma_lowest(chunks);
    let low = lowest(chunks);
    let first = choose|j: int|
        0 <= j < chunks.len() && #[trigger] chunks[j].header.sequence_number == low;
    lemma_merged_from(chunks, low, i);
    lemma_numbered_empty(chunks, low);
    lemma_numbered_empty(chunks, low + merged(chunks).len());
    let k = if 0 <= i < merged(chunks).len() {
        lemma_first_with_number(chunks, low + i)
    } else {
        0
    };
    (first, k)
}

/// Merging gives chunks that arrived, none of them changed: in each place `i` the one, `k`, that
/// arrived first under the number of that place, from the lowest number, that of `first`, on, and
/// up to the first number that is missing.
pub proof fn law_merging_gives_the_run(
    chunks: Vec<MessageChunkWithChunkInfo>,
    ret: Vec<MessageChunk>,
    i: int,
) -> (res: (int, int))
    requires
        chunks@.len() > 0,
        call_ensures(merge_chunks, (chunks,), ret) || call_ensures(
            merge_any_chunks,
            (chunks,),
            ret,
        ),
    ensures
        ({
            let (first, k) = res;
            let start = chunks@[first].header.sequence_number;
            &&& 0 <= first < chunks@.len()
            &&& forall|j: int|
                0 <= j < chunks@.len() ==> start <= (#[trigger] chunks@[j]).header.sequence_number
            &&& ret@.len() > 0
            &&& 0 <= i < ret@.len() ==> {
                &&& 0 <= k < chunks@.len()
                &&& chunks@[k].header.sequence_number == start + i
                &&& ret@[i].data@ == chunks@[k].data_with_header@
                &&& forall|j: int|
                    0 <= j < k ==> (#[trigger] chunks@[j]).header.sequence_number != start + i
            }
            &&& forall|j: int|
                0 <= j < chunks@.len() ==> (#[trigger] chunks@[j]).header.sequence_number != start
                    + ret@.len()
        }),
{
    let arrived = received(chunks@);
    let (first, k) = law_message_is_the_run_from_the_lowest_number(arrived, i);
    assert forall|j: int| 0 <= j < chunks@.len() implies #[trigger] chunks@[j].header
        == arrived[j].header by {}
    assert(chunk_data(ret@).len() == ret@.len());
    if 0 <= i < ret@.len() {
        assert(chunk_data(ret@)[i] == ret@[i].data@);
    }
    (first, k)
}

} // verus!
