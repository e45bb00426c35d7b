//! Per-video upload metadata: the defaults for a batch of files, and the
//! stamping of each entry with its scheduled publication time.

use crate::time::Timestamp;
use rand::seq::SliceRandom;
use vstd::prelude::*;

verus! {

/// The metadata attached to one uploaded video.
#[derive(Debug)]
pub struct VideoMetadata {
    pub title: String,
    pub description: String,
    pub tags: Vec<String>,
    pub category_id: String,
    pub privacy_status: String,
    pub scheduled_start_time: Option<String>,
}

/// The file stem that `Path::file_stem` gives for a path, empty where it
/// gives none.
pub uninterp spec fn stem_of(path: Seq<char>) -> Seq<char>;

/// The RFC 3339 text that chrono's `DateTime::to_rfc3339` writes for an
/// instant in UTC.
pub uninterp spec fn rfc3339_of(secs: int, nanos: int) -> Seq<char>;

/// Relies on `Path::file_stem`. The stem of a path given as `&str` is valid
/// UTF-8, which `OsStr::to_string_lossy` keeps as it is.
#[verifier::external_body]
fn file_stem(path: &str) -> (r: String)
    ensures
        r@ == stem_of(path@),
{
    std::path::Path::new(path).file_stem().unwrap_or_default().to_string_lossy().to_string()
}

/// Relies on chrono's `DateTime::<Utc>::from_timestamp`, which accepts every
/// well-formed instant, and `DateTime::to_rfc3339`.
#[verifier::external_body]
fn rfc3339(t: Timestamp) -> (r: String)
    requires
        t.wf(),
    ensures
        r@ == rfc3339_of(t.secs as int, t.nanos as int),
{
    chrono::DateTime::from_timestamp(t.secs, t.nanos).unwrap().to_rfc3339()
}

/// Relies on rand's `SliceRandom::choose` with the thread-local generator:
/// `None` for an empty slice, else one of its elements.
#[verifier::external_body]
fn choose_line(lines: &Vec<String>) -> (r: Option<String>)
    ensures
        r is None <==> lines@.len() == 0,
        r matches Some(l) ==> exists|j: int| 0 <= j < lines@.len() && lines@[j] == l,
{
    lines.choose(&mut rand::thread_rng()).cloned()
}

/// The default metadata for a video file, with a description drawn from
/// `lines`.
pub open spec fn is_default_for(m: VideoMetadata, file: String, lines: Seq<String>) -> bool {
    &&& m.title@ == stem_of(file@)
    &&& (lines.len() == 0 ==> m.description@ == Seq::<char>::empty())
    &&& (lines.len() > 0 ==> exists|j: int| 0 <= j < lines.len() && lines[j] == m.description)
    &&& m.tags@.len() == 1 && m.tags@[0]@ == "gaming"@
    &&& m.category_id@ == "20"@
    &&& m.privacy_status@ == "private"@
    &&& m.scheduled_start_time is None
}

/// Default metadata for each video file: the file stem as title, a line
/// picked at random from `description_lines` as description (empty when
/// there is none), the gaming tag and category, private, unscheduled.
pub fn create_default_metadata(video_files: &Vec<String>, description_lines: &Vec<String>) -> (r:
    Vec<VideoMetadata>)
    ensures
        r@.len() == video_files@.len(),
        forall|i: int|
            0 <= i < r@.len() ==> is_default_for(#[trigger] r@[i], video_files@[i], description_lines@),
{
    let mut out: Vec<VideoMetadata> = Vec::new();
    let mut i: usize = 0;
    while i < video_files.len()
        invariant
            i <= video_files@.len(),
            out@.len() == i,
            forall|k: int|
                0 <= k < i ==> is_default_for(#[trigger] out@[k], video_files@[k], description_lines@),
        decreases video_files@.len() - i,
    {
        let description = match choose_line(description_lines) {
            Some(line) => line,
            None => String::new(),
        };
        let mut tags: Vec<String> = Vec::new();
        tags.push(String::from_str("gaming"));
        let m = VideoMetadata {
            title: file_stem(video_files[i].as_str()),
            description,
            tags,
            category_id: String::from_str("20"),
            privacy_status: String::from_str("private"),
            scheduled_start_time: None,
        };
        out.push(m);
        i = i + 1;
    }
    out
}

/// `m` stamped with the publication time `t`: scheduled at `t` and private,
/// the rest unchanged.
pub open spec fn is_stamped(m: VideoMetadata, before: VideoMetadata, t: Timestamp) -> bool {
    &&& m.title == before.title
    &&& m.description == before.description
    &&& m.tags == before.tags
    &&& m.category_id == before.category_id
    &&& m.privacy_status@ == "private"@
    &&& m.scheduled_start_time matches Some(s) && s@ == rfc3339_of(t.secs as int, t.nanos as int)
}

/// Stamps each metadata entry that has a scheduled time with that time in
/// RFC 3339 form and makes it private; entries past the end of the schedule
/// stay as they are.
pub fn stamp_schedule(metadata: &mut Vec<VideoMetadata>, schedule: &Vec<Timestamp>)
    requires
        forall|i: int| 0 <= i < schedule@.len() ==> (#[trigger] schedule@[i]).wf(),
    ensures
        final(metadata)@.len() == old(metadata)@.len(),
        forall|i: int|
            0 <= i < old(metadata)@.len() ==> if i < schedule@.len() {
                is_stamped(#[trigger] final(metadata)@[i], old(metadata)@[i], schedule@[i])
            } else {
                final(metadata)@[i] == old(metadata)@[i]
            },
{
    let ghost before = metadata@;
    let mut i: usize = 0;
    while i < metadata.len() && i < schedule.len()
        invariant
            i <= metadata@.len(),
            i <= schedule@.len(),
            before == old(metadata)@,
            metadata@.len() == before.len(),
            forall|k: int| 0 <= k < schedule@.len() ==> (#[trigger] schedule@[k]).wf(),
            forall|k: int|
                0 <= k < i ==> is_stamped(#[trigger] metadata@[k], before[k], schedule@[k]),
            forall|k: int| i <= k < before.len() ==> #[trigger] metadata@[k] == before[k],
        decreases metadata@.len() - i,
    {
        let mut entry = VideoMetadata {
            title: String::new(),
            description: String::new(),
            tags: Vec::new(),
            category_id: String::new(),
            privacy_status: String::new(),
            scheduled_start_time: None,
        };
        metadata.set_and_swap(i, &mut entry);
        entry.scheduled_start_time = Some(rfc3339(schedule[i]));
        entry.privacy_status = String::from_str("private");
        metadata.set_and_swap(i, &mut entry);
        i = i + 1;
    }
}

} // verus!
