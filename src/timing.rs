//! Per-frame display durations computed from the frames' timestamps.
use vstd::prelude::*;

verus! {

/// Delay given to the first frame, which has no earlier timestamp to
/// measure against (milliseconds).
pub const DEFAULT_FIRST_DELAY_MS: u64 = 100;

/// Shortest delay a frame may have: playback never exceeds about 60 frames
/// per second (milliseconds).
pub const MIN_FRAME_DELAY_MS: u64 = 16;

/// The delay of frame `i` of a stream whose frames carry the timestamps `ts`
/// (milliseconds).
pub open spec fn frame_delay(ts: Seq<int>, i: int) -> int {
    if i == 0 {
        DEFAULT_FIRST_DELAY_MS as int
    } else {
        let gap = ts[i] - ts[i - 1];
        if gap < MIN_FRAME_DELAY_MS as int {
            MIN_FRAME_DELAY_MS as int
        } else {
            gap
        }
    }
}

/// Timestamps as integers.
pub open spec fn int_timestamps(ts: Seq<i32>) -> Seq<int> {
    ts.map_values(|t: i32| t as int)
}

/// The total of the durations.
pub open spec fn total(ds: Seq<u32>) -> int
    decreases ds.len(),
{
    if ds.len() == 0 {
        0
    } else {
        total(ds.drop_last()) + ds.last()
    }
}

/// The time at which each frame ends, for frames that last the given
/// durations one after the other.
pub open spec fn end_timestamps(ds: Seq<u32>) -> Seq<int> {
    Seq::new(ds.len(), |i: int| total(ds.take(i + 1)))
}

/// The delays of all frames of a stream, one per timestamp, in stream order.
pub fn frame_delays(timestamps: &Vec<i32>) -> (r: Vec<u64>)
    ensures
        r@.len() == timestamps@.len(),
        forall|i: int| 0 <= i < r@.len() ==> r@[i] == frame_delay(int_timestamps(timestamps@), i),
        r@.len() > 0 ==> r@[0] == DEFAULT_FIRST_DELAY_MS,
        forall|i: int| 0 < i < r@.len() ==> r@[i] >= MIN_FRAME_DELAY_MS,
{
    let mut r: Vec<u64> = Vec::new();
    let n = timestamps.len();
    let mut i: usize = 0;
    while i < n
        invariant
            n == timestamps@.len(),
            i <= n,
            r@.len() == i,
            forall|j: int| 0 <= j < i ==> r@[j] == frame_delay(int_timestamps(timestamps@), j),
        decreases n - i,
    {
        let d: u64 = if i == 0 {
            DEFAULT_FIRST_DELAY_MS
        } else {
            let gap: i64 = timestamps[i] as i64 - timestamps[i - 1] as i64;
            if gap < MIN_FRAME_DELAY_MS as i64 {
                MIN_FRAME_DELAY_MS
            } else {
                gap as u64
            }
        };
        r.push(d);
        i = i + 1;
    }
    r
}

proof fn lemma_end_gap(ds: Seq<u32>, i: int)
    requires
        0 < i < ds.len(),
    ensures
        end_timestamps(ds)[i] - end_timestamps(ds)[i - 1] == ds[i],
{
    assert(ds.take(i + 1).drop_last() =~= ds.take(i));
}

/// The delays of frames that last the given durations one after the other:
/// each frame's delay is measured between the end times of it and the frame
/// before, by the same rule as for timestamped frames.
pub fn duration_delays(durations: &Vec<u32>) -> (r: Vec<u64>)
    ensures
        r@.len() == durations@.len(),
        forall|i: int| 0 <= i < r@.len() ==> r@[i] == frame_delay(end_timestamps(durations@), i),
        r@.len() > 0 ==> r@[0] == DEFAULT_FIRST_DELAY_MS,
        forall|i: int| 0 < i < r@.len() ==> r@[i] >= MIN_FRAME_DELAY_MS,
{
    let mut r: Vec<u64> = Vec::new();
    let n = durations.len();
    let mut i: usize = 0;
    while i < n
        invariant
            n == durations@.len(),
            i <= n,
            r@.len() == i,
            forall|j: int| 0 <= j < i ==> r@[j] == frame_delay(end_timestamps(durations@), j),
        decreases n - i,
    {
        let d: u64 = if i == 0 {
            DEFAULT_FIRST_DELAY_MS
        } else if (durations[i] as u64) < MIN_FRAME_DELAY_MS {
            MIN_FRAME_DELAY_MS
        } else {
            durations[i] as u64
        };
        proof {
            if i > 0 {
                lemma_end_gap(durations@, i as int);
            }
        }
        r.push(d);
        i = i + 1;
    }
    r
}

} // verus!
