use vstd::prelude::*;

use crate::mode::TimestampMode;

verus! {

/// One entry as stored without a stamp: the message plus a trailing newline.
pub open spec fn plain_line(msg: Seq<char>) -> Seq<char> {
    msg + "\n"@
}

/// One entry stamped at log time: the stamp, a separator, the message and a
/// trailing newline.
pub open spec fn stamped_line(stamp: Seq<char>, msg: Seq<char>) -> Seq<char> {
    stamp + ": "@ + msg + "\n"@
}

/// Text that holds no line break.
pub open spec fn single_line(s: Seq<char>) -> bool {
    forall|i: int| 0 <= i < s.len() ==> s[i] != '\n'
}

/// The buffered entries joined in call order.
pub open spec fn concat_entries(entries: Seq<Seq<char>>) -> Seq<char>
    decreases entries.len(),
{
    if entries.len() == 0 {
        Seq::empty()
    } else {
        concat_entries(entries.drop_last()) + entries.last()
    }
}

/// What one flush writes back to the remote object: under `Flush` a single
/// stamp line replaces the previous content entirely; under any other mode
/// the entries extend it.
pub open spec fn merged_content(
    mode: TimestampMode,
    base: Seq<char>,
    stamp: Seq<char>,
    entries: Seq<Seq<char>>,
) -> Seq<char> {
    if mode is Flush {
        stamp + "\n"@ + concat_entries(entries)
    } else {
        base + concat_entries(entries)
    }
}

/// Logging one more entry extends the joined text by exactly that entry, at
/// the end: the join keeps call order.
pub proof fn lemma_concat_entries_push(entries: Seq<Seq<char>>, entry: Seq<char>)
    ensures
        concat_entries(entries.push(entry)) == concat_entries(entries) + entry,
{
    assert(entries.push(entry).drop_last() =~= entries);
    assert(entries.push(entry).last() == entry);
}

/// The join of the first `i + 1` entries is the join of the first `i`
/// followed by the entry at `i`.
pub proof fn lemma_concat_entries_take_step(entries: Seq<Seq<char>>, i: int)
    requires
        0 <= i < entries.len(),
    ensures
        concat_entries(entries.take(i + 1)) == concat_entries(entries.take(i)) + entries[i],
{
    assert(entries.take(i + 1).drop_last() =~= entries.take(i));
    assert(entries.take(i + 1).last() == entries[i]);
}

/// Joining two runs of entries one after the other is the same as joining
/// each run and concatenating the results.
pub proof fn lemma_concat_entries_append(first: Seq<Seq<char>>, second: Seq<Seq<char>>)
    ensures
        concat_entries(first + second) == concat_entries(first) + concat_entries(second),
    decreases second.len(),
{
    if second.len() == 0 {
        assert(first + second =~= first);
        assert(concat_entries(first) + concat_entries(second) =~= concat_entries(first));
    } else {
        lemma_concat_entries_append(first, second.drop_last());
        assert((first + second).drop_last() =~= first + second.drop_last());
        assert((first + second).last() == second.last());
        assert((concat_entries(first) + concat_entries(second.drop_last())) + second.last()
            =~= concat_entries(first) + (concat_entries(second.drop_last()) + second.last()));
    }
}

/// Law: a flush under a mode that keeps the base appends exactly the buffered
/// entries, in call order, to the previous remote content.
pub proof fn lemma_flush_appends_entries(
    mode: TimestampMode,
    base: Seq<char>,
    stamp: Seq<char>,
    entries: Seq<Seq<char>>,
)
    requires
        !(mode is Flush),
    ensures
        merged_content(mode, base, stamp, entries) == base + concat_entries(entries),
{
}

/// Law: a per-flush stamp discards the previous remote content entirely. The
/// merge result is one stamp line followed by the entries, and two flushes
/// over different bases agree as long as stamp and entries agree.
pub proof fn lemma_stamp_discards_base(
    base1: Seq<char>,
    base2: Seq<char>,
    stamp: Seq<char>,
    entries: Seq<Seq<char>>,
)
    ensures
        merged_content(TimestampMode::Flush, base1, stamp, entries) == merged_content(
            TimestampMode::Flush,
            base2,
            stamp,
            entries,
        ),
        merged_content(TimestampMode::Flush, base1, stamp, entries) == stamp + "\n"@
            + concat_entries(entries),
{
}

/// Law: entries kept in the buffer after a failed write, together with those
/// logged afterwards, reach the store in one later successful flush — every
/// line exactly once, the earlier ones before the later ones.
pub proof fn lemma_retry_carries_all(
    mode: TimestampMode,
    base: Seq<char>,
    stamp: Seq<char>,
    earlier: Seq<Seq<char>>,
    later: Seq<Seq<char>>,
)
    requires
        !(mode is Flush),
    ensures
        merged_content(mode, base, stamp, earlier + later) == (base + concat_entries(earlier))
            + concat_entries(later),
{
    lemma_concat_entries_append(earlier, later);
    assert(base + (concat_entries(earlier) + concat_entries(later))
        =~= (base + concat_entries(earlier)) + concat_entries(later));
}

} // verus!
