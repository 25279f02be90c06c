//! The timeline: clips laid back to back, each with the timecode at which
//! it comes in and the timecode at which it goes out.

use crate::text::{trim, trimmed};
use crate::timecode::{
    can_encode, decode, decode_spec, encode, encode_spec, lemma_decode_inverts_encode,
    TimecodeError,
};
use vstd::prelude::*;
use vstd::string::*;

verus! {

/// What is known of one clip once it has been probed.
///
/// The rate and the duration of a clip are measured as fractions.  The
/// timeline reads two whole numbers of them: the frames per second with the
/// fraction cut off, and the product of duration and rate with the fraction
/// cut off.
#[derive(Clone, Debug, PartialEq, Eq)]
pub struct ClipMetadata {
    /// The path of the file.
    pub file_path: String,
    /// The last component of the path.
    pub file_name: String,
    /// The whole frames per second.
    pub fps: i64,
    /// The whole frames that the clip lasts.
    pub frame_count: i64,
}

/// A clip, as the contracts see it.
pub struct ClipView {
    pub file_path: Seq<char>,
    pub file_name: Seq<char>,
    pub fps: int,
    pub frame_count: int,
}

impl View for ClipMetadata {
    type V = ClipView;

    open spec fn view(&self) -> ClipView {
        ClipView {
            file_path: self.file_path@,
            file_name: self.file_name@,
            fps: self.fps as int,
            frame_count: self.frame_count as int,
        }
    }
}

impl DeepView for ClipMetadata {
    type V = ClipView;

    open spec fn deep_view(&self) -> ClipView {
        self@
    }
}

/// One row of the log: a clip with its place on the timeline.
#[derive(Clone, Debug, PartialEq, Eq)]
pub struct TimelineRow {
    /// The name of the clip's file.
    pub file_name: String,
    /// The timecode at which the clip comes in.
    pub timecode_in: String,
    /// The timecode at which the clip goes out.
    pub timecode_out: String,
}

/// A row, as the contracts see it.
pub struct RowView {
    pub file_name: Seq<char>,
    pub timecode_in: Seq<char>,
    pub timecode_out: Seq<char>,
}

impl View for TimelineRow {
    type V = RowView;

    open spec fn view(&self) -> RowView {
        RowView {
            file_name: self.file_name@,
            timecode_in: self.timecode_in@,
            timecode_out: self.timecode_out@,
        }
    }
}

impl DeepView for TimelineRow {
    type V = RowView;

    open spec fn deep_view(&self) -> RowView {
        self@
    }
}

/// The row of `clip` when the timeline stands at `cursor`.
///
/// The cursor is read at the rate of this clip, whatever rate it was
/// written at.  The first clip comes in at the cursor as it stands; every
/// later clip comes in one frame after it.  The clip goes out its frame
/// count after the frame that was read from the cursor: the one frame
/// that a later clip comes in after the cursor is not counted again.
#[verifier::opaque]
pub open spec fn next_row_spec(cursor: Seq<char>, first: bool, clip: ClipView) -> Result<
    RowView,
    TimecodeError,
> {
    match decode_spec(cursor, clip.fps) {
        Err(e) => Err(e),
        Ok(frame_in) => {
            let frame_out = frame_in + clip.frame_count;
            if clip.fps == 0 {
                Err(TimecodeError::ZeroFrameRate)
            } else if (!first && frame_in + 1 > i64::MAX) || frame_out < i64::MIN || frame_out
                > i64::MAX || !can_encode(frame_out, clip.fps) {
                Err(TimecodeError::OutOfRange)
            } else {
                Ok(
                    RowView {
                        file_name: clip.file_name,
                        timecode_in: if first {
                            cursor
                        } else {
                            encode_spec(frame_in + 1, clip.fps)
                        },
                        timecode_out: encode_spec(frame_out, clip.fps),
                    },
                )
            }
        },
    }
}

/// The rows of `clips`, in their order, when the timeline stands at
/// `cursor` before the first of them.  Each clip is placed where the clip
/// before it went out.  The first error ends the timeline.
pub open spec fn timeline_from(clips: Seq<ClipView>, cursor: Seq<char>, first: bool) -> Result<
    Seq<RowView>,
    TimecodeError,
>
    decreases clips.len(),
{
    if clips.len() == 0 {
        Ok(Seq::empty())
    } else {
        match next_row_spec(cursor, first, clips[0]) {
            Err(e) => Err(e),
            Ok(row) => after_rows(
                seq![row],
                timeline_from(clips.drop_first(), row.timecode_out, false),
            ),
        }
    }
}

/// `rows`, followed by what came of the clips after them.
pub open spec fn after_rows(rows: Seq<RowView>, rest: Result<Seq<RowView>, TimecodeError>) -> Result<
    Seq<RowView>,
    TimecodeError,
> {
    match rest {
        Ok(more) => Ok(rows + more),
        Err(e) => Err(e),
    }
}

/// The timeline of `clips` that starts at the timecode `start`.
pub open spec fn timeline_spec(clips: Seq<ClipView>, start: Seq<char>) -> Result<
    Seq<RowView>,
    TimecodeError,
> {
    timeline_from(clips, start, true)
}

/// Places one clip on the timeline that stands at `cursor`.
pub fn next_row(cursor: &str, first: bool, clip: &ClipMetadata) -> (row: Result<
    TimelineRow,
    TimecodeError,
>)
    ensures
        match row {
            Ok(r) => next_row_spec(cursor@, first, clip@) == Ok::<RowView, TimecodeError>(r@),
            Err(e) => next_row_spec(cursor@, first, clip@) == Err::<RowView, TimecodeError>(e),
        },
{
    reveal(next_row_spec);
    let frame_in = match decode(cursor, clip.fps) {
        Ok(frame) => frame,
        Err(e) => {
            return Err(e);
        },
    };
    if clip.fps == 0 {
        return Err(TimecodeError::ZeroFrameRate);
    }
    let frame_out = match frame_in.checked_add(clip.frame_count) {
        Some(frame) => frame,
        None => {
            return Err(TimecodeError::OutOfRange);
        },
    };
    if (!first && frame_in == i64::MAX) || (frame_out == i64::MIN && clip.fps == -1) {
        return Err(TimecodeError::OutOfRange);
    }
    let timecode_in = if first {
        cursor.to_owned()
    } else {
        encode(frame_in + 1, clip.fps)
    };
    let timecode_out = encode(frame_out, clip.fps);
    Ok(TimelineRow { file_name: clip.file_name.clone(), timecode_in, timecode_out })
}

/// Lays `clips` back to back on a timeline that starts at `start_timecode`:
/// one row for each clip, in the order of the clips.
pub fn build_timeline(clips: &Vec<ClipMetadata>, start_timecode: &str) -> (rows: Result<
    Vec<TimelineRow>,
    TimecodeError,
>)
    ensures
        match rows {
            Ok(r) => timeline_spec(clips.deep_view(), start_timecode@) == Ok::<
                Seq<RowView>,
                TimecodeError,
            >(r.deep_view()),
            Err(e) => timeline_spec(clips.deep_view(), start_timecode@) == Err::<
                Seq<RowView>,
                TimecodeError,
            >(e),
        },
{
    let ghost all = clips.deep_view();
    let mut rows: Vec<TimelineRow> = Vec::new();
    let mut cursor: String = start_timecode.to_owned();
    let mut i: usize = 0;
    proof {
        assert(all.skip(0) =~= all);
        assert(rows.deep_view() =~= Seq::<RowView>::empty());
    }
    while i < clips.len()
        invariant
            i <= clips.len(),
            all == clips.deep_view(),
            timeline_spec(all, start_timecode@) == after_rows(
                rows.deep_view(),
                timeline_from(all.skip(i as int), cursor@, i == 0),
            ),
        decreases clips.len() - i,
    {
        let ghost before = rows.deep_view();
        let ghost rest = all.skip(i as int);
        proof {
            assert(rest.drop_first() =~= all.skip(i + 1));
        }
        match next_row(cursor.as_str(), i == 0, &clips[i]) {
            Err(e) => {
                return Err(e);
            },
            Ok(row) => {
                cursor = row.timecode_out.clone();
                proof {
                    let tail = timeline_from(all.skip(i + 1), row@.timecode_out, false);
                    assert(rows.deep_view().push(row@) =~= before + seq![row@]);
                    match tail {
                        Ok(more) => {
                            assert(before + (seq![row@] + more) =~= (before + seq![row@]) + more);
                        },
                        Err(_) => {},
                    }
                }
                rows.push(row);
                proof {
                    assert(rows.deep_view() =~= before.push(row@));
                }
            },
        }
        i += 1;
    }
    Ok(rows)
}

/// The timecode at which a timeline starts where the user names none.
pub open spec fn default_start() -> Seq<char> {
    "00:00:00:00"@
}

/// The start timecode that an answer of the user stands for: the answer
/// without the white space around it, or the default where nothing is left.
pub open spec fn start_spec(answer: Seq<char>) -> Seq<char> {
    if trimmed(answer).len() == 0 {
        default_start()
    } else {
        trimmed(answer)
    }
}

/// The start timecode that `answer` stands for.
pub fn start_timecode(answer: &str) -> (start: String)
    ensures
        start@ == start_spec(answer@),
{
    let given = trim(answer);
    if given.unicode_len() == 0 {
        "00:00:00:00".to_owned()
    } else {
        given.to_owned()
    }
}

/// The rows that follow a cursor: there is one for each clip, and each is
/// the row of its clip at the timecode at which the row before it went out.
proof fn lemma_timeline_from(
    clips: Seq<ClipView>,
    cursor: Seq<char>,
    first: bool,
    rows: Seq<RowView>,
)
    requires
        timeline_from(clips, cursor, first) == Ok::<Seq<RowView>, TimecodeError>(rows),
    ensures
        rows.len() == clips.len(),
        rows.len() > 0 ==> next_row_spec(cursor, first, clips[0]) == Ok::<RowView, TimecodeError>(
            rows[0],
        ),
        forall|i: int|
            0 < i < rows.len() ==> next_row_spec(rows[i - 1].timecode_out, false, clips[i]) == Ok::<
                RowView,
                TimecodeError,
            >(#[trigger] rows[i]),
    decreases clips.len(),
{
    if clips.len() > 0 {
        let row = next_row_spec(cursor, first, clips[0])->Ok_0;
        let tail = timeline_from(clips.drop_first(), row.timecode_out, false)->Ok_0;
        assert(rows == seq![row] + tail);
        lemma_timeline_from(clips.drop_first(), row.timecode_out, false, tail);
        assert forall|i: int| 0 < i < rows.len() implies next_row_spec(
            rows[i - 1].timecode_out,
            false,
            clips[i],
        ) == Ok::<RowView, TimecodeError>(#[trigger] rows[i]) by {
            assert(rows[i] == tail[i - 1]);
            assert(clips[i] == clips.drop_first()[i - 1]);
            if i > 1 {
                assert(rows[i - 1] == tail[i - 2]);
            }
        }
    }
}

/// What holds of the row of a clip.
///
/// The row stands under the file name of the clip.  The first clip comes
/// in at the cursor, as it stands; a later clip comes in one frame after
/// the frame that the cursor stands for at the rate of the clip.  The clip
/// goes out its frame count after the frame that the cursor stands for.
pub proof fn lemma_next_row(cursor: Seq<char>, first: bool, clip: ClipView, row: RowView)
    requires
        next_row_spec(cursor, first, clip) == Ok::<RowView, TimecodeError>(row),
    ensures
        row.file_name == clip.file_name,
        first ==> row.timecode_in == cursor,
        decode_spec(cursor, clip.fps) matches Ok(frame_in) && (!first ==> row.timecode_in
            == encode_spec(frame_in + 1, clip.fps)) && row.timecode_out == encode_spec(
            frame_in + clip.frame_count,
            clip.fps,
        ),
{
    reveal(next_row_spec);
}

/// What holds of every timeline that could be built.
///
/// There is one row for each clip, in the order of the clips.  The first
/// is the row of the first clip at the start timecode; every later one is
/// the row of its clip at the timecode at which the row before it went out.
pub proof fn lemma_timeline_rows(clips: Seq<ClipView>, start: Seq<char>, rows: Seq<RowView>)
    requires
        timeline_spec(clips, start) == Ok::<Seq<RowView>, TimecodeError>(rows),
    ensures
        rows.len() == clips.len(),
        rows.len() > 0 ==> next_row_spec(start, true, clips[0]) == Ok::<RowView, TimecodeError>(
            rows[0],
        ),
        forall|i: int|
            0 < i < rows.len() ==> next_row_spec(rows[i - 1].timecode_out, false, clips[i]) == Ok::<
                RowView,
                TimecodeError,
            >(#[trigger] rows[i]),
{
    lemma_timeline_from(clips, start, true, rows);
}

/// A folder without clips gives a timeline without rows.
pub proof fn lemma_empty_timeline(start: Seq<char>)
    ensures
        timeline_spec(Seq::empty(), start) == Ok::<Seq<RowView>, TimecodeError>(Seq::empty()),
{
}

/// The frames of the first `count` clips of `clips`, taken together.
pub open spec fn frames_before(clips: Seq<ClipView>, count: int) -> int
    decreases count,
{
    if count <= 0 {
        0
    } else {
        frames_before(clips, count - 1) + clips[count - 1].frame_count
    }
}

/// Whether every clip runs at `fps` frames per second and lasts a number of
/// frames that is not negative.
pub open spec fn runs_at(clips: Seq<ClipView>, fps: int) -> bool {
    forall|i: int|
        0 <= i < clips.len() ==> (#[trigger] clips[i]).fps == fps && clips[i].frame_count >= 0
}

/// The frames of the first clips, counted from the second clip on.
proof fn lemma_frames_before_first(clips: Seq<ClipView>, count: int)
    requires
        0 <= count < clips.len(),
    ensures
        frames_before(clips, count + 1) == clips[0].frame_count + frames_before(
            clips.drop_first(),
            count,
        ),
    decreases count,
{
    reveal_with_fuel(frames_before, 2);
    if count > 0 {
        lemma_frames_before_first(clips, count - 1);
    }
}

/// The frames of clips that do not run backward add up to a number that is
/// not negative, and that does not get smaller with more clips.
proof fn lemma_frames_before_grows(clips: Seq<ClipView>, fps: int, fewer: int, more: int)
    requires
        runs_at(clips, fps),
        0 <= fewer <= more <= clips.len(),
    ensures
        0 <= frames_before(clips, fewer) <= frames_before(clips, more),
    decreases more,
{
    if more > 0 {
        if fewer < more {
            lemma_frames_before_grows(clips, fps, fewer, more - 1);
        } else {
            lemma_frames_before_grows(clips, fps, fewer - 1, more - 1);
        }
    }
}

/// Clips that all run at one rate follow one another without a seam,
/// whatever stands before them.
proof fn lemma_seamless_from(
    clips: Seq<ClipView>,
    cursor: Seq<char>,
    first: bool,
    fps: int,
    frame: int,
)
    requires
        0 < fps <= i64::MAX,
        runs_at(clips, fps),
        0 <= frame,
        decode_spec(cursor, fps) == Ok::<i64, TimecodeError>(frame as i64),
        frame + frames_before(clips, clips.len() as int) < i64::MAX,
    ensures
        timeline_from(clips, cursor, first) matches Ok(rows) && rows.len() == clips.len() && (
        forall|i: int|
            0 <= i < rows.len() ==> (#[trigger] rows[i]).timecode_out == encode_spec(
                frame + frames_before(clips, i + 1),
                fps,
            ) && rows[i].timecode_in == if first && i == 0 {
                cursor
            } else {
                encode_spec(frame + frames_before(clips, i) + 1, fps)
            }),
    decreases clips.len(),
{
    if clips.len() > 0 {
        let clip = clips[0];
        let rest = clips.drop_first();
        let count = clips.len() as int;
        assert forall|i: int| 0 <= i < rest.len() implies (#[trigger] rest[i]).fps == fps
            && rest[i].frame_count >= 0 by {
            assert(rest[i] == clips[i + 1]);
        }
        lemma_frames_before_first(clips, count - 1);
        lemma_frames_before_grows(rest, fps, 0, count - 1);
        let frame_out = frame + clip.frame_count;
        assert(frames_before(clips, 1) == clip.frame_count) by {
            assert(frames_before(clips, 0) == 0);
        }
        let row = next_row_spec(cursor, first, clip)->Ok_0;
        assert(next_row_spec(cursor, first, clip) is Ok && row.timecode_out == encode_spec(
            frame_out,
            fps,
        ) && row.timecode_in == if first {
            cursor
        } else {
            encode_spec(frame + 1, fps)
        }) by {
            reveal(next_row_spec);
        }
        lemma_decode_inverts_encode(frame_out, fps);
        lemma_seamless_from(rest, row.timecode_out, false, fps, frame_out);
        let tail = timeline_from(rest, row.timecode_out, false)->Ok_0;
        let rows = seq![row] + tail;
        assert forall|i: int| 0 <= i < rows.len() implies (#[trigger] rows[i]).timecode_out
            == encode_spec(frame + frames_before(clips, i + 1), fps) && rows[i].timecode_in == if first
            && i == 0 {
            cursor
        } else {
            encode_spec(frame + frames_before(clips, i) + 1, fps)
        } by {
            if i > 0 {
                lemma_frames_before_first(clips, i);
                lemma_frames_before_first(clips, i - 1);
            }
        }
    }
}

/// Clips that all run at one rate follow one another without a seam.
///
/// Let the clips all run at `fps` whole frames per second, with `fps` above
/// zero, and let none of them run backward.  Let the start timecode stand
/// for the frame `frame`, which is not negative, and let the last frame of
/// the timeline fit in 64 bits with one to spare.  Then the timeline can be
/// built.  Each clip goes out at the frame at which the timeline started
/// plus the frames of all the clips up to it; and each clip but the first
/// comes in one frame after the clip before it went out.
pub proof fn lemma_seamless_timeline(clips: Seq<ClipView>, start: Seq<char>, fps: int, frame: int)
    requires
        0 < fps <= i64::MAX,
        runs_at(clips, fps),
        0 <= frame,
        decode_spec(start, fps) == Ok::<i64, TimecodeError>(frame as i64),
        frame + frames_before(clips, clips.len() as int) < i64::MAX,
    ensures
        timeline_spec(clips, start) matches Ok(rows) && rows.len() == clips.len() && (forall|i: int|
            0 <= i < rows.len() ==> (#[trigger] rows[i]).timecode_out == encode_spec(
                frame + frames_before(clips, i + 1),
                fps,
            ) && rows[i].timecode_in == if i == 0 {
                start
            } else {
                encode_spec(frame + frames_before(clips, i) + 1, fps)
            }),
{
    lemma_seamless_from(clips, start, true, fps, frame);
}

} // verus!
