//! The cache cell of an instance: the latest rendering with the time it was
//! written, and the rule that decides whether it is still served.
//!
//! Times are nanoseconds on a monotonic clock whose origin the caller picks;
//! thresholds are milliseconds.

use vstd::prelude::*;
use crate::text::append_bytes;

verus! {

/// Nanoseconds in a millisecond.
pub const NANOS_PER_MILLI: u64 = 1_000_000;

/// One completed rendering.
#[derive(Debug)]
pub struct Cache {
    /// When the rendering was stored.
    pub last_update: u64,
    /// The rendered bytes.
    pub value: Vec<u8>,
}

/// What a cell holds: nothing, or the time and the bytes of one write.
pub type CellView = Option<(u64, Seq<u8>)>;

/// The slot that one updater writes and any number of readers read. It is
/// empty until the first write, and each write replaces time and bytes
/// together.
#[derive(Debug)]
pub struct CacheCell {
    slot: Option<Cache>,
}

impl View for CacheCell {
    type V = CellView;

    closed spec fn view(&self) -> CellView {
        match self.slot {
            Some(cache) => Some((cache.last_update, cache.value@)),
            None => None,
        }
    }
}

/// What a read of a cell finds.
#[derive(Debug)]
pub enum CacheRead {
    /// The cached bytes, which are younger than the threshold.
    Fresh(Vec<u8>),
    /// The cell holds bytes of the given age, which is at or over the
    /// threshold.
    Stale { age: u64 },
    /// The cell was never written.
    Empty,
}

/// What a `CacheRead` says.
pub enum CacheReadView {
    Fresh(Seq<u8>),
    Stale { age: u64 },
    Empty,
}

impl View for CacheRead {
    type V = CacheReadView;

    open spec fn view(&self) -> CacheReadView {
        match self {
            CacheRead::Fresh(bytes) => CacheReadView::Fresh(bytes@),
            CacheRead::Stale { age } => CacheReadView::Stale { age: *age },
            CacheRead::Empty => CacheReadView::Empty,
        }
    }
}

/// The time that has passed at `now` since `last_update`: none where `now`
/// is the earlier of the two.
pub open spec fn age_at(now: u64, last_update: u64) -> u64 {
    if now >= last_update {
        (now - last_update) as u64
    } else {
        0
    }
}

/// Whether an age in nanoseconds is under a threshold in milliseconds.
pub open spec fn is_fresh(age: u64, stale_threshold: u64) -> bool {
    age < stale_threshold * NANOS_PER_MILLI
}

/// What a read at `now` finds in a cell under `stale_threshold`.
pub open spec fn read_at(cell: CellView, stale_threshold: u64, now: u64) -> CacheReadView {
    match cell {
        None => CacheReadView::Empty,
        Some((last_update, value)) => {
            let age = age_at(now, last_update);
            if is_fresh(age, stale_threshold) {
                CacheReadView::Fresh(value)
            } else {
                CacheReadView::Stale { age }
            }
        },
    }
}

/// The cell after one write: it holds the time and the bytes of that write,
/// and nothing of what it held before.
pub open spec fn written(cell: CellView, write: (u64, Seq<u8>)) -> CellView {
    Some(write)
}

/// One access to a cell. Each is done as a whole: the lock around a cell
/// lets no other access in while a write is under way.
pub enum CellAccess {
    /// A read, which leaves the cell as it is.
    Read,
    /// A write of the given bytes at the given time.
    Write(u64, Seq<u8>),
}

/// What a cell holds right after `access`, where that is a write.
pub open spec fn write_of(access: CellAccess) -> CellView {
    match access {
        CellAccess::Read => None,
        CellAccess::Write(time, value) => Some((time, value)),
    }
}

/// The cell after `accesses` were made in order on `cell`.
pub open spec fn after_accesses(cell: CellView, accesses: Seq<CellAccess>) -> CellView
    decreases accesses.len(),
{
    if accesses.len() == 0 {
        cell
    } else {
        let before = after_accesses(cell, accesses.drop_last());
        match accesses.last() {
            CellAccess::Read => before,
            CellAccess::Write(time, value) => written(before, (time, value)),
        }
    }
}

/// The place of the last write among `accesses`, or -1 where there is
/// none.
pub open spec fn last_write(accesses: Seq<CellAccess>) -> int
    decreases accesses.len(),
{
    if accesses.len() == 0 {
        -1
    } else if accesses.last() is Write {
        accesses.len() - 1
    } else {
        last_write(accesses.drop_last())
    }
}

/// The times of the writes among `accesses` never go back.
pub open spec fn times_ascend(accesses: Seq<CellAccess>) -> bool {
    forall|i: int, j: int|
        0 <= i <= j < accesses.len() && (#[trigger] accesses[i]) is Write && (
        #[trigger] accesses[j]) is Write ==> last_update_of(write_of(accesses[i]))
            <= last_update_of(write_of(accesses[j]))
}

/// When a cell was last written: at no time yet where it is empty.
pub open spec fn last_update_of(cell: CellView) -> u64 {
    match cell {
        Some(held) => held.0,
        None => 0,
    }
}

impl CacheCell {
    /// A cell that was never written.
    pub fn new() -> (cell: CacheCell)
        ensures
            cell@ is None,
    {
        CacheCell { slot: None }
    }

    /// Replaces what the cell holds by `value`, written at `now`.
    pub fn store(&mut self, now: u64, value: Vec<u8>)
        ensures
            final(self)@ == written(old(self)@, (now, value@)),
    {
        self.slot = Some(Cache { last_update: now, value });
    }

    /// When the cell was last written, if ever.
    pub fn last_update(&self) -> (time: Option<u64>)
        ensures
            match time {
                Some(last_update) => self@ matches Some(held) && held.0 == last_update,
                None => self@ is None,
            },
    {
        match &self.slot {
            Some(cache) => Some(cache.last_update),
            None => None,
        }
    }

    /// Reads the cell at `now`: the bytes where they are younger than
    /// `stale_threshold`, their age where they are not, and `Empty` where
    /// the cell was never written.
    pub fn read(&self, stale_threshold: u64, now: u64) -> (found: CacheRead)
        ensures
            found@ == read_at(self@, stale_threshold, now),
    {
        match &self.slot {
            None => CacheRead::Empty,
            Some(cache) => {
                let age: u64 = if now >= cache.last_update {
                    now - cache.last_update
                } else {
                    0
                };
                if (age as u128) < (stale_threshold as u128) * (NANOS_PER_MILLI as u128) {
                    let mut bytes: Vec<u8> = Vec::new();
                    append_bytes(&mut bytes, cache.value.as_slice());
                    assert(bytes@ =~= cache.value@);
                    CacheRead::Fresh(bytes)
                } else {
                    CacheRead::Stale { age }
                }
            },
        }
    }
}

/// Cached bytes are served exactly while their age is under the threshold:
/// at the threshold and beyond they are stale, and a cell that was never
/// written has nothing to serve.
pub proof fn served_exactly_while_fresh(cell: CellView, stale_threshold: u64, now: u64)
    ensures
        read_at(cell, stale_threshold, now) is Fresh <==> cell is Some && age_at(
            now,
            cell->Some_0.0,
        ) < stale_threshold * NANOS_PER_MILLI,
        read_at(cell, stale_threshold, now) is Stale <==> cell is Some && age_at(
            now,
            cell->Some_0.0,
        ) >= stale_threshold * NANOS_PER_MILLI,
        read_at(cell, stale_threshold, now) is Empty <==> cell is None,
        read_at(cell, stale_threshold, now) matches CacheReadView::Fresh(bytes) ==> bytes
            == cell->Some_0.1,
{
}

/// An age of whole milliseconds is fresh exactly when it is less than the
/// threshold.
pub proof fn whole_milliseconds_are_fresh_below_the_threshold(millis: u64, stale_threshold: u64)
    requires
        millis * NANOS_PER_MILLI <= u64::MAX,
    ensures
        is_fresh((millis * NANOS_PER_MILLI) as u64, stale_threshold) <==> millis < stale_threshold,
{
    assert(millis * NANOS_PER_MILLI < stale_threshold * NANOS_PER_MILLI <==> millis
        < stale_threshold) by (nonlinear_arith);
}

/// What is fresh at one time was fresh at every earlier time.
pub proof fn freshness_only_ends(cell: CellView, stale_threshold: u64, earlier: u64, later: u64)
    requires
        earlier <= later,
        read_at(cell, stale_threshold, later) is Fresh,
    ensures
        read_at(cell, stale_threshold, earlier) == read_at(cell, stale_threshold, later),
{
}

/// However reads and writes follow one another, a cell holds what it held
/// at first where nothing was written, and else the time and the bytes of
/// the last write, both of that one write.
pub proof fn a_cell_holds_the_last_write(cell: CellView, accesses: Seq<CellAccess>)
    ensures
        -1 <= last_write(accesses) < accesses.len(),
        last_write(accesses) < 0 ==> after_accesses(cell, accesses) == cell,
        last_write(accesses) >= 0 ==> accesses[last_write(accesses)] is Write && after_accesses(
            cell,
            accesses,
        ) == write_of(accesses[last_write(accesses)]),
    decreases accesses.len(),
{
    if accesses.len() > 0 && !(accesses.last() is Write) {
        a_cell_holds_the_last_write(cell, accesses.drop_last());
    }
}

/// A read never finds the time of one write with the bytes of another, nor
/// a write half done: whatever came before it, it finds what the cell held
/// at first, or the time and the bytes of one of the writes.
pub proof fn reads_never_see_a_mix(cell: CellView, accesses: Seq<CellAccess>)
    ensures
        after_accesses(cell, accesses) == cell || exists|i: int|
            0 <= i < accesses.len() && (#[trigger] accesses[i]) is Write && after_accesses(
                cell,
                accesses,
            ) == write_of(accesses[i]),
{
    a_cell_holds_the_last_write(cell, accesses);
}

/// Where the times of the writes never go back, neither does the time at
/// which the cell was last written.
pub proof fn last_update_never_goes_back(accesses: Seq<CellAccess>, done: int, more: int)
    requires
        times_ascend(accesses),
        0 <= done <= more <= accesses.len(),
    ensures
        last_update_of(after_accesses(None, accesses.take(done))) <= last_update_of(
            after_accesses(None, accesses.take(more)),
        ),
    decreases more - done,
{
    if done < more {
        last_update_never_goes_back(accesses, done, more - 1);
        let shorter = accesses.take(more - 1);
        let longer = accesses.take(more);
        assert(longer.drop_last() =~= shorter);
        assert(longer.last() == accesses[more - 1]);
        a_cell_holds_the_last_write(None, shorter);
        if longer.last() is Write && last_write(shorter) >= 0 {
            assert(shorter[last_write(shorter)] == accesses[last_write(shorter)]);
        }
    }
}

} // verus!
