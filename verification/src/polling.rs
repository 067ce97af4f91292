//! How the marketplace event log is polled: the block interval setting and the
//! block ranges of the queries.
use vstd::prelude::*;
use vstd::string::StringSliceAdditionalSpecFns;

use crate::text;

verus! {

/// Blocks per event query when the interval is not set.
pub const DEFAULT_MARKETPLACE_POLL_BLOCK_INTERVAL: u64 = 10;

/// The interval that a setting's text gives: a non-negative `i64` in decimal.
pub open spec fn spec_poll_interval(raw: Seq<u8>) -> Option<u64> {
    match text::spec_parse_i64(raw) {
        Some(v) => if v >= 0 {
            Some(v as u64)
        } else {
            None
        },
        None => None,
    }
}

/// Reads a block interval: the text must be an `i64` in decimal, and not negative.
pub fn parse_marketplace_poll_block_interval(raw: &str) -> (r: Option<u64>)
    ensures
        r == spec_poll_interval(raw.spec_bytes()),
{
    match text::parse_i64(raw) {
        Some(parsed) => if parsed >= 0 {
            Some(parsed as u64)
        } else {
            None
        },
        None => None,
    }
}

/// The block interval for a setting that may be absent: unset or invalid text
/// gives the default, 0 means unbounded.
pub fn resolve_marketplace_poll_block_interval_from_str(raw: Option<&str>) -> (r: u64)
    ensures
        r == match raw {
            Some(s) => match spec_poll_interval(s.spec_bytes()) {
                Some(v) => v,
                None => DEFAULT_MARKETPLACE_POLL_BLOCK_INTERVAL,
            },
            None => DEFAULT_MARKETPLACE_POLL_BLOCK_INTERVAL,
        },
{
    match raw {
        Some(s) => match parse_marketplace_poll_block_interval(s) {
            Some(v) => v,
            None => DEFAULT_MARKETPLACE_POLL_BLOCK_INTERVAL,
        },
        None => DEFAULT_MARKETPLACE_POLL_BLOCK_INTERVAL,
    }
}

/// The last block that the queries reach: the latest block, or the start block
/// where the latest lies before it.
pub open spec fn ranges_end(block_start: u64, latest_block: u64) -> u64 {
    if latest_block >= block_start {
        latest_block
    } else {
        block_start
    }
}

/// The inclusive ranges `[start, end]` that split the blocks from `block_start`
/// to `ranges_end` into consecutive chunks of `interval` blocks, the last one
/// possibly shorter; a single range over all of them when `interval` is 0.
pub open spec fn spec_block_query_ranges(block_start: u64, latest_block: u64, interval: u64) -> Seq<
    (u64, u64),
> {
    let end = ranges_end(block_start, latest_block);
    if interval == 0 {
        seq![(block_start, end)]
    } else {
        Seq::new(
            ((end - block_start) / (interval as int) + 1) as nat,
            |k: int|
                {
                    let s = block_start + k * interval;
                    let e = if s + interval - 1 <= end {
                        s + interval - 1
                    } else {
                        end as int
                    };
                    (s as u64, e as u64)
                },
        )
    }
}

/// Build inclusive block ranges `[start, end]` for bounded event queries.
///
/// If `interval` is 0, returns a single unbounded range `(block_start, latest_block)`.
pub fn block_query_ranges(block_start: u64, latest_block: u64, interval: u64) -> (r: Vec<
    (u64, u64),
>)
    ensures
        r@ == spec_block_query_ranges(block_start, latest_block, interval),
{
    let end = if latest_block >= block_start {
        latest_block
    } else {
        block_start
    };
    if interval == 0 {
        let mut single = Vec::new();
        single.push((block_start, end));
        assert(single@ =~= spec_block_query_ranges(block_start, latest_block, interval));
        return single;
    }
    let ghost spec = spec_block_query_ranges(block_start, latest_block, interval);
    let ghost count = (end - block_start) / (interval as int) + 1;
    let mut ranges: Vec<(u64, u64)> = Vec::new();
    let mut start = block_start;
    assert(block_start + 0 * interval == block_start);
    assert(spec.len() == count);
    loop
        invariant_except_break
            block_start <= start <= end,
            start == block_start + ranges@.len() * interval,
            ranges@.len() < count,
        invariant
            interval > 0,
            end == ranges_end(block_start, latest_block),
            spec == spec_block_query_ranges(block_start, latest_block, interval),
            count == (end - block_start) / (interval as int) + 1,
            spec.len() == count,
            ranges@.len() <= count,
            forall|k: int| 0 <= k < ranges@.len() ==> #[trigger] ranges@[k] == spec[k],
        ensures
            ranges@ =~= spec,
        decreases end - start,
    {
        let k = ranges.len();
        let chunk_end = if interval - 1 <= u64::MAX - start {
            start + (interval - 1)
        } else {
            u64::MAX
        };
        let chunk_end = if chunk_end <= end {
            chunk_end
        } else {
            end
        };
        assert(ranges@.len() == k);
        assert(spec[k as int] == (start, chunk_end));
        ranges.push((start, chunk_end));
        if chunk_end >= end {
            assert(k + 1 == count) by (nonlinear_arith)
                requires
                    start == block_start + k * interval,
                    start + interval - 1 >= end,
                    start <= end,
                    block_start <= end,
                    interval > 0,
                    count == (end - block_start) / (interval as int) + 1,
            ;
            break;
        }
        assert(k + 1 < count) by (nonlinear_arith)
            requires
                start == block_start + k * interval,
                start + interval - 1 < end,
                block_start <= end,
                interval > 0,
                count == (end - block_start) / (interval as int) + 1,
        ;
        assert(chunk_end + 1 == block_start + (k + 1) * interval) by (nonlinear_arith)
            requires
                start == block_start + k * interval,
                chunk_end == start + interval - 1,
        ;
        start = chunk_end + 1;
    }
    ranges
}

/// The query ranges cover every block from `block_start` to `ranges_end`
/// exactly once, in order: the first starts at `block_start`, each next one
/// starts right after the one before, the last ends at `ranges_end`, and none
/// spans more than `interval` blocks when `interval` is not 0.
pub proof fn lemma_block_query_ranges_cover(block_start: u64, latest_block: u64, interval: u64)
    ensures
        ({
            let r = spec_block_query_ranges(block_start, latest_block, interval);
            let end = ranges_end(block_start, latest_block);
            &&& r.len() >= 1
            &&& r[0].0 == block_start
            &&& r[r.len() - 1].1 == end
            &&& forall|k: int| 0 <= k < r.len() ==> #[trigger] r[k].0 <= r[k].1
            &&& forall|k: int| 0 <= k < r.len() - 1 ==> #[trigger] r[k + 1].0 == r[k].1 + 1
            &&& interval > 0 ==> forall|k: int|
                0 <= k < r.len() ==> #[trigger] r[k].1 - r[k].0 + 1 <= interval
        }),
{
    let r = spec_block_query_ranges(block_start, latest_block, interval);
    let end = ranges_end(block_start, latest_block);
    if interval > 0 {
        let count = (end - block_start) / (interval as int) + 1;
        assert((count - 1) * interval <= end - block_start < count * interval) by (nonlinear_arith)
            requires
                count == (end - block_start) / (interval as int) + 1,
                block_start <= end,
                interval > 0,
        ;
        assert(r[0].0 == block_start);
        assert(block_start + (count - 1) * interval + interval - 1 >= end) by (nonlinear_arith)
            requires
                (end - block_start) < count * interval,
        ;
        assert forall|k: int| 0 <= k < r.len() implies #[trigger] r[k].0 <= r[k].1 by {
            assert(block_start + k * interval <= end) by (nonlinear_arith)
                requires
                    0 <= k < count,
                    (count - 1) * interval <= end - block_start,
                    interval > 0,
            ;
        }
        assert forall|k: int| 0 <= k < r.len() - 1 implies #[trigger] r[k + 1].0 == r[k].1 + 1 by {
            assert(block_start + k * interval + interval - 1 < end) by (nonlinear_arith)
                requires
                    0 <= k < count - 1,
                    (count - 1) * interval <= end - block_start,
                    interval > 0,
            ;
            assert(block_start + (k + 1) * interval <= end) by (nonlinear_arith)
                requires
                    0 <= k < count - 1,
                    (count - 1) * interval <= end - block_start,
                    interval > 0,
            ;
            assert(block_start + (k + 1) * interval == block_start + k * interval + interval)
                by (nonlinear_arith);
        }
        assert forall|k: int| 0 <= k < r.len() implies #[trigger] r[k].1 - r[k].0 + 1
            <= interval by {
            assert(block_start + k * interval <= end) by (nonlinear_arith)
                requires
                    0 <= k < count,
                    (count - 1) * interval <= end - block_start,
                    interval > 0,
            ;
        }
    }
}

} // verus!
