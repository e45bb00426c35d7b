//! The upload schedule: one instant per video, starting at an anchor and
//! spaced by a fixed interval.

use crate::interval::Interval;
use crate::text::{i64_value, parse_i64, trim, trimmed};
use crate::time::{current_time, secs_in_range, Timestamp, MAX_SECS, MIN_SECS};
use vstd::prelude::*;

verus! {

/// Seconds between the current time and the default anchor.
pub const DEFAULT_LEAD_SECS: i64 = 3600;

/// A file that names the anchor as a Unix timestamp: its path and its whole
/// contents, or `None` where it could not be read.
#[derive(Debug)]
pub struct TimestampSource {
    pub path: String,
    pub contents: Option<String>,
}

/// Why no schedule could be made.
#[derive(Debug)]
pub enum GenerationError {
    /// The timestamp file could not be read.
    UnreadableSource { path: String },
    /// The timestamp file does not hold a decimal integer of `i64`.
    MalformedSource { path: String },
    /// The timestamp file names an instant outside the representable range.
    SourceOutOfRange { value: i64 },
    /// An entry of the schedule falls outside the representable range.
    ScheduleOutOfRange,
}

impl GenerationError {
    /// Whether the error comes from the timestamp file.
    pub fn is_invalid_timestamp_source(&self) -> (r: bool)
        ensures
            r == !(self is ScheduleOutOfRange),
    {
        match self {
            GenerationError::ScheduleOutOfRange => false,
            _ => true,
        }
    }
}

/// The anchor named by a timestamp file.
pub open spec fn source_anchor(src: TimestampSource) -> Result<Timestamp, GenerationError> {
    match src.contents {
        None => Err(GenerationError::UnreadableSource { path: src.path }),
        Some(text) => match i64_value(trimmed(text@)) {
            None => Err(GenerationError::MalformedSource { path: src.path }),
            Some(v) => if secs_in_range(v as int) {
                Ok(Timestamp { secs: v, nanos: 0 })
            } else {
                Err(GenerationError::SourceOutOfRange { value: v })
            },
        },
    }
}

/// The first instant of the schedule: the timestamp file if there is one,
/// else the explicit start time, else one hour after `now`.
pub open spec fn resolve_anchor(
    source: Option<TimestampSource>,
    start: Option<Timestamp>,
    now: Timestamp,
) -> Result<Timestamp, GenerationError> {
    match source {
        Some(src) => source_anchor(src),
        None => match start {
            Some(t) => Ok(t),
            None => if secs_in_range(now.secs + DEFAULT_LEAD_SECS) {
                Ok(now.shifted(DEFAULT_LEAD_SECS as int))
            } else {
                Err(GenerationError::ScheduleOutOfRange)
            },
        },
    }
}

/// Seconds since the epoch of entry `i`.
pub open spec fn entry_secs(anchor: Timestamp, step: int, i: int) -> int {
    anchor.secs + i * step
}

/// Whether the first `count` entries are all representable.
pub open spec fn entries_fit(anchor: Timestamp, step: int, count: nat) -> bool {
    forall|i: int| 0 <= i < count ==> secs_in_range(#[trigger] entry_secs(anchor, step, i))
}

/// The first `count` entries: `anchor + i * step` for each `i`.
pub open spec fn entries(anchor: Timestamp, step: int, count: nat) -> Seq<Timestamp> {
    Seq::new(count, |i: int| anchor.shifted(i * step))
}

/// The schedule for `count` videos spaced by `step` seconds. Without a
/// timestamp file, no videos make an empty schedule whatever the clock says.
pub open spec fn schedule_of(
    count: nat,
    step: int,
    source: Option<TimestampSource>,
    start: Option<Timestamp>,
    now: Timestamp,
) -> Result<Seq<Timestamp>, GenerationError> {
    if count == 0 && source is None {
        Ok(Seq::empty())
    } else {
        match resolve_anchor(source, start, now) {
        Err(e) => Err(e),
            Ok(anchor) => if entries_fit(anchor, step, count) {
                Ok(entries(anchor, step, count))
            } else {
                Err(GenerationError::ScheduleOutOfRange)
            },
        }
    }
}

/// A computed schedule, seen as a sequence.
pub open spec fn schedule_outcome(r: Result<Vec<Timestamp>, GenerationError>) -> Result<
    Seq<Timestamp>,
    GenerationError,
> {
    match r {
        Ok(v) => Ok(v@),
        Err(e) => Err(e),
    }
}

/// With an explicit anchor and every entry representable, the schedule has
/// exactly `count` entries, the first is the anchor, and entry `i` is the
/// anchor plus `i` intervals.
pub proof fn lemma_schedule_entries(count: nat, step: int, anchor: Timestamp, now: Timestamp)
    requires
        entries_fit(anchor, step, count),
    ensures
        schedule_of(count, step, None, Some(anchor), now) matches Ok(s) && s.len() == count && (
        count > 0 ==> s[0] == anchor) && forall|i: int|
            0 <= i < count ==> #[trigger] s[i] == anchor.shifted(i * step),
{
}

/// Without a timestamp file, a schedule for no videos is empty, not an
/// error, with or without a start time and whatever the clock says.
pub proof fn lemma_empty_schedule(step: int, start: Option<Timestamp>, now: Timestamp)
    ensures
        schedule_of(0, step, None, start, now) == Ok::<Seq<Timestamp>, GenerationError>(
            Seq::empty(),
        ),
{
}

/// A timestamp file takes precedence over an explicit start time.
pub proof fn lemma_source_precedes_start(
    count: nat,
    step: int,
    source: TimestampSource,
    start: Timestamp,
    now: Timestamp,
)
    ensures
        schedule_of(count, step, Some(source), Some(start), now) == schedule_of(
            count,
            step,
            Some(source),
            None,
            now,
        ),
        resolve_anchor(Some(source), Some(start), now) == source_anchor(source),
{
}

/// An unreadable timestamp file, or one that does not hold an integer, is
/// an error naming the file, whatever the start time and the clock say.
pub proof fn lemma_bad_source_rejected(
    count: nat,
    step: int,
    source: TimestampSource,
    start: Option<Timestamp>,
    now: Timestamp,
)
    requires
        source.contents matches Some(text) ==> i64_value(trimmed(text@)) is None,
    ensures
        schedule_of(count, step, Some(source), start, now) == Err::<Seq<Timestamp>, GenerationError>(
            if source.contents is None {
                GenerationError::UnreadableSource { path: source.path }
            } else {
                GenerationError::MalformedSource { path: source.path }
            },
        ),
{
}

/// Reads the anchor from the contents of a timestamp file.
fn anchor_from_source(src: TimestampSource) -> (r: Result<Timestamp, GenerationError>)
    ensures
        r == source_anchor(src),
        r matches Ok(t) ==> t.wf(),
{
    match src.contents {
        None => Err(GenerationError::UnreadableSource { path: src.path }),
        Some(text) => match parse_i64(trim(text.as_str())) {
            None => Err(GenerationError::MalformedSource { path: src.path }),
            Some(v) => match Timestamp::from_unix(v) {
                Some(t) => Ok(t),
                None => Err(GenerationError::SourceOutOfRange { value: v }),
            },
        },
    }
}

/// The schedule for `video_count` videos spaced by `interval`, with the
/// current time given as `now`.
pub fn generate_schedule_at(
    video_count: usize,
    interval: Interval,
    start_time: Option<Timestamp>,
    timestamp_source: Option<TimestampSource>,
    now: Timestamp,
) -> (r: Result<Vec<Timestamp>, GenerationError>)
    requires
        interval.wf(),
        start_time matches Some(t) ==> t.wf(),
        now.wf(),
    ensures
        schedule_outcome(r) == schedule_of(
            video_count as nat,
            interval.seconds as int,
            timestamp_source,
            start_time,
            now,
        ),
        r matches Ok(v) ==> forall|i: int| 0 <= i < v.len() ==> (#[trigger] v[i]).wf(),
{
    let ghost step = interval.seconds as int;
    let ghost source = timestamp_source;
    if video_count == 0 && timestamp_source.is_none() {
        return Ok(Vec::new());
    }
    let anchor = match timestamp_source {
        Some(src) => match anchor_from_source(src) {
            Ok(t) => t,
            Err(e) => return Err(e),
        },
        None => match start_time {
            Some(t) => t,
            None => match now.checked_add_secs(DEFAULT_LEAD_SECS) {
                Some(t) => t,
                None => return Err(GenerationError::ScheduleOutOfRange),
            },
        },
    };
    assert(resolve_anchor(source, start_time, now) == Ok::<Timestamp, GenerationError>(anchor));
    let mut schedule: Vec<Timestamp> = Vec::new();
    let mut i: usize = 0;
    while i < video_count
        invariant
            anchor.wf(),
            interval.wf(),
            step == interval.seconds,
            resolve_anchor(source, start_time, now) == Ok::<Timestamp, GenerationError>(anchor),
            source == timestamp_source,
            video_count > 0 || source is Some,
            i <= video_count,
            schedule@ == entries(anchor, step, i as nat),
            entries_fit(anchor, step, i as nat),
            forall|j: int| 0 <= j < schedule.len() ==> (#[trigger] schedule[j]).wf(),
        decreases video_count - i,
    {
        assert(-0x40_0000_0000_0000_0000_0000_0000_0000 < i * step < 0x40_0000_0000_0000_0000_0000_0000_0000)
            by (nonlinear_arith)
            requires
                0 <= i < 0x1_0000_0000_0000_0000,
                -0x40_0000_0000_0000 < step < 0x40_0000_0000_0000,
        ;
        let secs: i128 = anchor.secs as i128 + i as i128 * interval.seconds as i128;
        if secs < MIN_SECS as i128 || secs > MAX_SECS as i128 {
            assert(!secs_in_range(entry_secs(anchor, step, i as int)));
            return Err(GenerationError::ScheduleOutOfRange);
        }
        schedule.push(Timestamp { secs: secs as i64, nanos: anchor.nanos });
        i = i + 1;
        assert(schedule@ =~= entries(anchor, step, i as nat));
    }
    Ok(schedule)
}

/// The schedule for `video_count` videos spaced by `interval`. The anchor is
/// the instant in the timestamp file if one is given, else `start_time` if
/// given, else one hour from now.
pub fn generate_schedule(
    video_count: usize,
    interval: Interval,
    start_time: Option<Timestamp>,
    timestamp_source: Option<TimestampSource>,
) -> (r: Result<Vec<Timestamp>, GenerationError>)
    requires
        interval.wf(),
        start_time matches Some(t) ==> t.wf(),
    ensures
        exists|now: Timestamp|
            now.wf() && schedule_outcome(r) == #[trigger] schedule_of(
                video_count as nat,
                interval.seconds as int,
                timestamp_source,
                start_time,
                now,
            ),
        video_count == 0 && timestamp_source is None ==> (r matches Ok(v) && v@.len() == 0),
{
    let now = current_time();
    let r = generate_schedule_at(video_count, interval, start_time, timestamp_source, now);
    r
}

} // verus!
