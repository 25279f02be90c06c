//! Which candidate files are taken into the log, and what is asked of the
//! caller on the way.
//!
//! The library neither lists a folder nor probes a file.  The caller does
//! both, one step at a time: it hands each answer to `step`, which decides
//! what becomes of the candidate and says what is to be done next.  Numbers
//! with a fraction are left to the caller as well: it is handed the texts,
//! and hands back the whole numbers that the timeline needs.
//!
//! Candidates are taken in the order in which the caller lists them.  That
//! order is the order of the listing, not an order by name or by age.

use crate::frame_rate::{rate_tokens, split_rate};
use crate::text::{trim, trimmed};
use crate::timeline::{ClipMetadata, ClipView};
use vstd::prelude::*;
use vstd::string::*;

verus! {

/// Where the collector stands between two steps.
#[derive(Clone, Copy, Debug, PartialEq, Eq, Structural)]
pub enum Stage {
    /// Ready for the next candidate.
    Ready,
    /// Waiting for the probe of the frame rate.
    FrameRateProbe,
    /// Waiting for the whole frames per second.
    FrameRateMeasure,
    /// Waiting for the probe of the duration.
    DurationProbe,
    /// Waiting for the whole frames that the clip lasts.
    DurationMeasure,
    /// The collection has failed.
    Failed,
}

/// Why a collection failed as a whole.
#[derive(Clone, Debug, PartialEq, Eq)]
pub enum CollectError {
    /// The path of a candidate is not valid Unicode.
    InvalidPath,
    /// A frame rate or a duration could not be read.
    InvalidFormat { detail: String },
    /// The probe of a duration failed.
    ProbeFailure { detail: String },
    /// The caller handed over an answer that nothing had asked for.
    OutOfTurn,
}

/// A collection error, as the contracts see it.
pub enum CollectErrorView {
    InvalidPath,
    InvalidFormat { detail: Seq<char> },
    ProbeFailure { detail: Seq<char> },
    OutOfTurn,
}

impl View for CollectError {
    type V = CollectErrorView;

    open spec fn view(&self) -> CollectErrorView {
        match self {
            CollectError::InvalidPath => CollectErrorView::InvalidPath,
            CollectError::InvalidFormat { detail } => CollectErrorView::InvalidFormat {
                detail: detail@,
            },
            CollectError::ProbeFailure { detail } => CollectErrorView::ProbeFailure {
                detail: detail@,
            },
            CollectError::OutOfTurn => CollectErrorView::OutOfTurn,
        }
    }
}

/// What the caller hands to the collector.
#[derive(Clone, Debug, PartialEq, Eq)]
pub enum Event {
    /// The listing could not read an entry.
    Unreadable { detail: String },
    /// The listing found a file.  `shown` is the path as a message shows
    /// it; `path` is the path where it is valid Unicode; `file_name` is the
    /// last component of the path where it has one.
    Found { shown: String, path: Option<String>, file_name: Option<String> },
    /// The probe could not be run.
    ProbeFailed { detail: String },
    /// The probe ran, and printed `text`.
    ProbeOutput { text: String },
    /// A text that was to be measured is no number.
    NotNumeric { detail: String },
    /// The denominator of a frame rate is zero.
    ZeroDenominator,
    /// The whole number that was asked for.
    Measured { value: i64 },
}

/// An event, as the contracts see it.
pub enum EventView {
    Unreadable { detail: Seq<char> },
    Found { shown: Seq<char>, path: Option<Seq<char>>, file_name: Option<Seq<char>> },
    ProbeFailed { detail: Seq<char> },
    ProbeOutput { text: Seq<char> },
    NotNumeric { detail: Seq<char> },
    ZeroDenominator,
    Measured { value: int },
}

impl View for Event {
    type V = EventView;

    open spec fn view(&self) -> EventView {
        match self {
            Event::Unreadable { detail } => EventView::Unreadable { detail: detail@ },
            Event::Found { shown, path, file_name } => EventView::Found {
                shown: shown@,
                path: path.deep_view(),
                file_name: file_name.deep_view(),
            },
            Event::ProbeFailed { detail } => EventView::ProbeFailed { detail: detail@ },
            Event::ProbeOutput { text } => EventView::ProbeOutput { text: text@ },
            Event::NotNumeric { detail } => EventView::NotNumeric { detail: detail@ },
            Event::ZeroDenominator => EventView::ZeroDenominator,
            Event::Measured { value } => EventView::Measured { value: *value as int },
        }
    }
}

/// What the collector asks of the caller.
#[derive(Clone, Debug, PartialEq, Eq)]
pub enum Action {
    /// Hand over the next candidate, or finish where none is left.
    Next,
    /// Probe the frame rate of the file at `path`.
    ProbeFrameRate { path: String },
    /// Divide `numerator` by `denominator` and hand back the quotient with
    /// its fraction cut off.
    MeasureFrameRate { numerator: String, denominator: String },
    /// Probe the duration of the file at `path`.
    ProbeDuration { path: String },
    /// Multiply the seconds in `text` by the frame rate and hand back the
    /// product with its fraction cut off.
    MeasureDuration { text: String },
    /// Give the collection up.
    Abort { error: CollectError },
}

/// An action, as the contracts see it.
pub enum ActionView {
    Next,
    ProbeFrameRate { path: Seq<char> },
    MeasureFrameRate { numerator: Seq<char>, denominator: Seq<char> },
    ProbeDuration { path: Seq<char> },
    MeasureDuration { text: Seq<char> },
    Abort { error: CollectErrorView },
}

impl View for Action {
    type V = ActionView;

    open spec fn view(&self) -> ActionView {
        match self {
            Action::Next => ActionView::Next,
            Action::ProbeFrameRate { path } => ActionView::ProbeFrameRate { path: path@ },
            Action::MeasureFrameRate { numerator, denominator } => ActionView::MeasureFrameRate {
                numerator: numerator@,
                denominator: denominator@,
            },
            Action::ProbeDuration { path } => ActionView::ProbeDuration { path: path@ },
            Action::MeasureDuration { text } => ActionView::MeasureDuration { text: text@ },
            Action::Abort { error } => ActionView::Abort { error: error@ },
        }
    }
}

/// What the collector has to report of a step.
#[derive(Clone, Debug, PartialEq, Eq)]
pub enum LogEntry {
    /// An entry of the listing could not be read, and was passed over.
    Unreadable { detail: String },
    /// A path has no last component, and was passed over.
    NoFileName { shown: String },
    /// A file whose name begins with a dot was passed over.
    HiddenFile,
    /// The frame rate of a file could not be probed; it was passed over.
    FrameRateProbeFailed { path: String, detail: String },
    /// The probe printed no frame rate for a file; it was passed over.
    EmptyFrameRate { path: String },
    /// The frame rate that the probe printed for a file.
    FrameRate { path: String, text: String },
    /// The log was written to the file at `path`; nothing follows.
    Saved { path: String },
    /// The collection failed; nothing follows.
    Failed { detail: String },
}

/// A log entry, as the contracts see it.
pub enum LogEntryView {
    Unreadable { detail: Seq<char> },
    NoFileName { shown: Seq<char> },
    HiddenFile,
    FrameRateProbeFailed { path: Seq<char>, detail: Seq<char> },
    EmptyFrameRate { path: Seq<char> },
    FrameRate { path: Seq<char>, text: Seq<char> },
    Saved { path: Seq<char> },
    Failed { detail: Seq<char> },
}

impl View for LogEntry {
    type V = LogEntryView;

    open spec fn view(&self) -> LogEntryView {
        match self {
            LogEntry::Unreadable { detail } => LogEntryView::Unreadable { detail: detail@ },
            LogEntry::NoFileName { shown } => LogEntryView::NoFileName { shown: shown@ },
            LogEntry::HiddenFile => LogEntryView::HiddenFile,
            LogEntry::FrameRateProbeFailed { path, detail } => LogEntryView::FrameRateProbeFailed {
                path: path@,
                detail: detail@,
            },
            LogEntry::EmptyFrameRate { path } => LogEntryView::EmptyFrameRate { path: path@ },
            LogEntry::FrameRate { path, text } => LogEntryView::FrameRate {
                path: path@,
                text: text@,
            },
            LogEntry::Saved { path } => LogEntryView::Saved { path: path@ },
            LogEntry::Failed { detail } => LogEntryView::Failed { detail: detail@ },
        }
    }
}

impl DeepView for LogEntry {
    type V = LogEntryView;

    open spec fn deep_view(&self) -> LogEntryView {
        self@
    }
}

/// The collector: the clips taken so far, and the candidate in hand.
///
/// `path`, `file_name` and `fps` belong to the candidate in hand.  Where
/// there is none, the two texts are empty and the number is zero.
#[derive(Clone, Debug, PartialEq, Eq)]
pub struct Collector {
    pub clips: Vec<ClipMetadata>,
    pub stage: Stage,
    pub path: String,
    pub file_name: String,
    pub fps: i64,
}

/// A collector, as the contracts see it.
pub struct CollectorView {
    pub clips: Seq<ClipView>,
    pub stage: Stage,
    pub path: Seq<char>,
    pub file_name: Seq<char>,
    pub fps: int,
}

impl View for Collector {
    type V = CollectorView;

    open spec fn view(&self) -> CollectorView {
        CollectorView {
            clips: self.clips.deep_view(),
            stage: self.stage,
            path: self.path@,
            file_name: self.file_name@,
            fps: self.fps as int,
        }
    }
}

/// What a step gives back: the collector after it, what the caller is to
/// do next, and what there is to report.
#[derive(Clone, Debug, PartialEq, Eq)]
pub struct Step {
    pub collector: Collector,
    pub action: Action,
    pub log: Option<LogEntry>,
}

/// A step, as the contracts see it.
pub struct StepView {
    pub collector: CollectorView,
    pub action: ActionView,
    pub log: Option<LogEntryView>,
}

impl View for Step {
    type V = StepView;

    open spec fn view(&self) -> StepView {
        StepView { collector: self.collector@, action: self.action@, log: self.log.deep_view() }
    }
}

/// Whether a file of this name is hidden: the name begins with a dot.
pub open spec fn is_hidden(file_name: Seq<char>) -> bool {
    file_name.len() > 0 && file_name[0] == '.'
}

/// What is said of a frame rate that is not a numerator, a slash and a
/// denominator.
pub open spec fn invalid_rate_detail() -> Seq<char> {
    "Invalid FPS format"@
}

/// What is said of a frame rate whose denominator is zero.
pub open spec fn zero_denominator_detail() -> Seq<char> {
    "Frame rate with a zero denominator"@
}

/// A collector with the clips given and no candidate in hand.
pub open spec fn at_rest(clips: Seq<ClipView>, stage: Stage) -> CollectorView {
    CollectorView { clips, stage, path: Seq::empty(), file_name: Seq::empty(), fps: 0 }
}

/// The candidate in hand is passed over; the clips stay as they are.
pub open spec fn passed_over(state: CollectorView, log: LogEntryView) -> StepView {
    StepView {
        collector: at_rest(state.clips, Stage::Ready),
        action: ActionView::Next,
        log: Some(log),
    }
}

/// The collection is given up.
pub open spec fn given_up(
    state: CollectorView,
    error: CollectErrorView,
    log: Option<LogEntryView>,
) -> StepView {
    StepView {
        collector: at_rest(state.clips, Stage::Failed),
        action: ActionView::Abort { error },
        log,
    }
}

/// The candidate in hand moves on to `stage`.
pub open spec fn moved_on(
    state: CollectorView,
    stage: Stage,
    action: ActionView,
    log: Option<LogEntryView>,
) -> StepView {
    StepView { collector: CollectorView { stage, ..state }, action, log }
}

/// What becomes of a candidate that the listing hands over.
///
/// An entry that could not be read, a path without a last component and a
/// hidden file are passed over, each with a report.  A path that is not
/// valid Unicode ends the collection.  Any other file is probed.
pub open spec fn on_candidate(state: CollectorView, event: EventView) -> StepView {
    match event {
        EventView::Unreadable { detail } => passed_over(state, LogEntryView::Unreadable { detail }),
        EventView::Found { shown, path, file_name } => match file_name {
            None => passed_over(state, LogEntryView::NoFileName { shown }),
            Some(name) => if is_hidden(name) {
                passed_over(state, LogEntryView::HiddenFile)
            } else {
                match path {
                    None => given_up(state, CollectErrorView::InvalidPath, None),
                    Some(path) => StepView {
                        collector: CollectorView {
                            clips: state.clips,
                            stage: Stage::FrameRateProbe,
                            path,
                            file_name: name,
                            fps: 0,
                        },
                        action: ActionView::ProbeFrameRate { path },
                        log: None,
                    },
                }
            },
        },
        _ => given_up(state, CollectErrorView::OutOfTurn, None),
    }
}

/// What becomes of the candidate in hand once its frame rate was probed.
///
/// Where the probe failed or printed nothing but white space, the file is
/// passed over.  What it printed is reported; where that is no frame rate,
/// the collection ends.
pub open spec fn on_frame_rate_probe(state: CollectorView, event: EventView) -> StepView {
    match event {
        EventView::ProbeFailed { detail } => passed_over(
            state,
            LogEntryView::FrameRateProbeFailed { path: state.path, detail },
        ),
        EventView::ProbeOutput { text } => {
            let rate = trimmed(text);
            let report = LogEntryView::FrameRate { path: state.path, text: rate };
            if rate.len() == 0 {
                passed_over(state, LogEntryView::EmptyFrameRate { path: state.path })
            } else {
                match rate_tokens(rate) {
                    None => given_up(
                        state,
                        CollectErrorView::InvalidFormat { detail: invalid_rate_detail() },
                        Some(report),
                    ),
                    Some((numerator, denominator)) => moved_on(
                        state,
                        Stage::FrameRateMeasure,
                        ActionView::MeasureFrameRate { numerator, denominator },
                        Some(report),
                    ),
                }
            }
        },
        _ => given_up(state, CollectErrorView::OutOfTurn, None),
    }
}

/// What becomes of the candidate in hand once its frame rate was measured.
/// A frame rate that is no number, or that has a zero denominator, ends the
/// collection.
pub open spec fn on_frame_rate_measure(state: CollectorView, event: EventView) -> StepView {
    match event {
        EventView::NotNumeric { detail } => given_up(
            state,
            CollectErrorView::InvalidFormat { detail },
            None,
        ),
        EventView::ZeroDenominator => given_up(
            state,
            CollectErrorView::InvalidFormat { detail: zero_denominator_detail() },
            None,
        ),
        EventView::Measured { value } => moved_on(
            CollectorView { fps: value, ..state },
            Stage::DurationProbe,
            ActionView::ProbeDuration { path: state.path },
            None,
        ),
        _ => given_up(state, CollectErrorView::OutOfTurn, None),
    }
}

/// What becomes of the candidate in hand once its duration was probed.  A
/// probe that failed ends the collection.
pub open spec fn on_duration_probe(state: CollectorView, event: EventView) -> StepView {
    match event {
        EventView::ProbeFailed { detail } => given_up(
            state,
            CollectErrorView::ProbeFailure { detail },
            None,
        ),
        EventView::ProbeOutput { text } => moved_on(
            state,
            Stage::DurationMeasure,
            ActionView::MeasureDuration { text: trimmed(text) },
            None,
        ),
        _ => given_up(state, CollectErrorView::OutOfTurn, None),
    }
}

/// What becomes of the candidate in hand once its duration was measured.
/// A duration that is no number ends the collection; any other makes the
/// candidate the last of the clips.
pub open spec fn on_duration_measure(state: CollectorView, event: EventView) -> StepView {
    match event {
        EventView::NotNumeric { detail } => given_up(
            state,
            CollectErrorView::InvalidFormat { detail },
            None,
        ),
        EventView::Measured { value } => StepView {
            collector: at_rest(
                state.clips.push(
                    ClipView {
                        file_path: state.path,
                        file_name: state.file_name,
                        fps: state.fps,
                        frame_count: value,
                    },
                ),
                Stage::Ready,
            ),
            action: ActionView::Next,
            log: None,
        },
        _ => given_up(state, CollectErrorView::OutOfTurn, None),
    }
}

/// One step of the collection: what `event` makes of `state`.
///
/// An event that does not answer what the collector last asked for ends
/// the collection, and so does every event after a failure.
pub open spec fn step_spec(state: CollectorView, event: EventView) -> StepView {
    match state.stage {
        Stage::Ready => on_candidate(state, event),
        Stage::FrameRateProbe => on_frame_rate_probe(state, event),
        Stage::FrameRateMeasure => on_frame_rate_measure(state, event),
        Stage::DurationProbe => on_duration_probe(state, event),
        Stage::DurationMeasure => on_duration_measure(state, event),
        Stage::Failed => given_up(state, CollectErrorView::OutOfTurn, None),
    }
}

/// Whether a file of this name is hidden.
pub fn is_hidden_name(file_name: &str) -> (hidden: bool)
    ensures
        hidden == is_hidden(file_name@),
{
    file_name.unicode_len() > 0 && file_name.get_char(0) == '.'
}

/// The collector after a step that leaves no candidate in hand.
fn rest(clips: Vec<ClipMetadata>, stage: Stage) -> (collector: Collector)
    ensures
        collector@ == at_rest(clips.deep_view(), stage),
{
    Collector { clips, stage, path: String::new(), file_name: String::new(), fps: 0 }
}

/// The step that passes the candidate in hand over.
fn pass_over(collector: Collector, log: LogEntry) -> (next: Step)
    ensures
        next@ == passed_over(collector@, log@),
{
    Step { collector: rest(collector.clips, Stage::Ready), action: Action::Next, log: Some(log) }
}

/// The step that gives the collection up.
fn give_up(collector: Collector, error: CollectError, log: Option<LogEntry>) -> (next: Step)
    ensures
        next@ == given_up(collector@, error@, log.deep_view()),
{
    Step { collector: rest(collector.clips, Stage::Failed), action: Action::Abort { error }, log }
}

/// The step for a candidate that the listing hands over.
fn candidate_step(collector: Collector, event: Event) -> (next: Step)
    ensures
        next@ == on_candidate(collector@, event@),
{
    match event {
        Event::Unreadable { detail } => pass_over(collector, LogEntry::Unreadable { detail }),
        Event::Found { shown, path, file_name } => match file_name {
            None => pass_over(collector, LogEntry::NoFileName { shown }),
            Some(name) => {
                if is_hidden_name(name.as_str()) {
                    pass_over(collector, LogEntry::HiddenFile)
                } else {
                    match path {
                        None => give_up(collector, CollectError::InvalidPath, None),
                        Some(path) => {
                            let asked = path.clone();
                            Step {
                                collector: Collector {
                                    clips: collector.clips,
                                    stage: Stage::FrameRateProbe,
                                    path,
                                    file_name: name,
                                    fps: 0,
                                },
                                action: Action::ProbeFrameRate { path: asked },
                                log: None,
                            }
                        },
                    }
                }
            },
        },
        _ => give_up(collector, CollectError::OutOfTurn, None),
    }
}

/// The step for the probe of a frame rate.
fn frame_rate_probe_step(collector: Collector, event: Event) -> (next: Step)
    ensures
        next@ == on_frame_rate_probe(collector@, event@),
{
    match event {
        Event::ProbeFailed { detail } => {
            let path = collector.path.clone();
            pass_over(collector, LogEntry::FrameRateProbeFailed { path, detail })
        },
        Event::ProbeOutput { text } => {
            let rate = trim(text.as_str());
            let path = collector.path.clone();
            if rate.unicode_len() == 0 {
                pass_over(collector, LogEntry::EmptyFrameRate { path })
            } else {
                let report = LogEntry::FrameRate { path, text: rate.to_owned() };
                match split_rate(rate) {
                    None => give_up(
                        collector,
                        CollectError::InvalidFormat {
                            detail: "Invalid FPS format".to_owned(),
                        },
                        Some(report),
                    ),
                    Some((numerator, denominator)) => Step {
                        collector: Collector { stage: Stage::FrameRateMeasure, ..collector },
                        action: Action::MeasureFrameRate { numerator, denominator },
                        log: Some(report),
                    },
                }
            }
        },
        _ => give_up(collector, CollectError::OutOfTurn, None),
    }
}

/// The step for the measure of a frame rate.
fn frame_rate_measure_step(collector: Collector, event: Event) -> (next: Step)
    ensures
        next@ == on_frame_rate_measure(collector@, event@),
{
    match event {
        Event::NotNumeric { detail } => give_up(
            collector,
            CollectError::InvalidFormat { detail },
            None,
        ),
        Event::ZeroDenominator => give_up(
            collector,
            CollectError::InvalidFormat {
                detail: "Frame rate with a zero denominator".to_owned(),
            },
            None,
        ),
        Event::Measured { value } => {
            let path = collector.path.clone();
            Step {
                collector: Collector { stage: Stage::DurationProbe, fps: value, ..collector },
                action: Action::ProbeDuration { path },
                log: None,
            }
        },
        _ => give_up(collector, CollectError::OutOfTurn, None),
    }
}

/// The step for the probe of a duration.
fn duration_probe_step(collector: Collector, event: Event) -> (next: Step)
    ensures
        next@ == on_duration_probe(collector@, event@),
{
    match event {
        Event::ProbeFailed { detail } => give_up(
            collector,
            CollectError::ProbeFailure { detail },
            None,
        ),
        Event::ProbeOutput { text } => {
            let seconds = trim(text.as_str()).to_owned();
            Step {
                collector: Collector { stage: Stage::DurationMeasure, ..collector },
                action: Action::MeasureDuration { text: seconds },
                log: None,
            }
        },
        _ => give_up(collector, CollectError::OutOfTurn, None),
    }
}

/// The step for the measure of a duration.
fn duration_measure_step(collector: Collector, event: Event) -> (next: Step)
    ensures
        next@ == on_duration_measure(collector@, event@),
{
    match event {
        Event::NotNumeric { detail } => give_up(
            collector,
            CollectError::InvalidFormat { detail },
            None,
        ),
        Event::Measured { value } => {
            let Collector { clips, stage: _, path, file_name, fps } = collector;
            let mut clips = clips;
            let clip = ClipMetadata { file_path: path, file_name, fps, frame_count: value };
            let ghost before = clips.deep_view();
            clips.push(clip);
            assert(clips.deep_view() =~= before.push(clip@));
            Step { collector: rest(clips, Stage::Ready), action: Action::Next, log: None }
        },
        _ => give_up(collector, CollectError::OutOfTurn, None),
    }
}

impl Collector {
    /// A collector that has taken no clip yet.
    pub fn new() -> (collector: Collector)
        ensures
            collector@ == at_rest(Seq::empty(), Stage::Ready),
    {
        let collector = rest(Vec::new(), Stage::Ready);
        assert(collector@.clips =~= Seq::<ClipView>::empty());
        collector
    }

    /// The clips that were taken, in the order in which they were handed
    /// over, where the collector is ready for the next candidate; `None`
    /// where it has a candidate in hand or has failed.
    pub fn finish(self) -> (clips: Option<Vec<ClipMetadata>>)
        ensures
            clips.deep_view() == if self@.stage == Stage::Ready {
                Some(self@.clips)
            } else {
                None
            },
    {
        match self.stage {
            Stage::Ready => Some(self.clips),
            _ => None,
        }
    }
}

/// One step of the collection: takes the answer of the caller, and says
/// what becomes of the candidate in hand and what is to be done next.
pub fn step(collector: Collector, event: Event) -> (next: Step)
    ensures
        next@ == step_spec(collector@, event@),
{
    match collector.stage {
        Stage::Ready => candidate_step(collector, event),
        Stage::FrameRateProbe => frame_rate_probe_step(collector, event),
        Stage::FrameRateMeasure => frame_rate_measure_step(collector, event),
        Stage::DurationProbe => duration_probe_step(collector, event),
        Stage::DurationMeasure => duration_measure_step(collector, event),
        Stage::Failed => give_up(collector, CollectError::OutOfTurn, None),
    }
}

/// The message of a log entry.
pub open spec fn message_spec(entry: LogEntryView) -> Seq<char> {
    match entry {
        LogEntryView::Unreadable { detail } => "Error accessing file: "@ + detail,
        LogEntryView::NoFileName { shown } => "Error accessing file name for "@ + shown,
        LogEntryView::HiddenFile =>
            "Skipping hidden video file as it is likely a Linux or MacOS system file and not a real rush."@,
        LogEntryView::FrameRateProbeFailed { path, detail } => "Error getting FPS for "@ + path
            + ": "@ + detail,
        LogEntryView::EmptyFrameRate { path } => "Empty FPS string for "@ + path,
        LogEntryView::FrameRate { path, text } => "FPS String for "@ + path + ": "@ + text,
        LogEntryView::Saved { path } => "Output file saved to "@ + path,
        LogEntryView::Failed { detail } => "Error getting metadata: "@ + detail,
    }
}

/// `head`, then `tail`.
fn joined(head: &str, tail: &str) -> (text: String)
    ensures
        text@ == head@ + tail@,
{
    let mut text = head.to_owned();
    text.append(tail);
    text
}

impl LogEntry {
    /// The message of this entry, as a reader of the log sees it.
    pub fn message(&self) -> (text: String)
        ensures
            text@ == message_spec(self@),
    {
        match self {
            LogEntry::Unreadable { detail } => joined("Error accessing file: ", detail.as_str()),
            LogEntry::NoFileName { shown } => joined(
                "Error accessing file name for ",
                shown.as_str(),
            ),
            LogEntry::HiddenFile =>
                "Skipping hidden video file as it is likely a Linux or MacOS system file and not a real rush.".to_owned(),
            LogEntry::FrameRateProbeFailed { path, detail } => {
                let mut text = joined("Error getting FPS for ", path.as_str());
                text.append(": ");
                text.append(detail.as_str());
                text
            },
            LogEntry::EmptyFrameRate { path } => joined("Empty FPS string for ", path.as_str()),
            LogEntry::FrameRate { path, text } => {
                let mut line = joined("FPS String for ", path.as_str());
                line.append(": ");
                line.append(text.as_str());
                line
            },
            LogEntry::Saved { path } => joined("Output file saved to ", path.as_str()),
            LogEntry::Failed { detail } => joined("Error getting metadata: ", detail.as_str()),
        }
    }
}

/// What a collection error says of itself.
pub open spec fn error_text(error: CollectErrorView) -> Seq<char> {
    match error {
        CollectErrorView::InvalidPath => "Invalid file path"@,
        CollectErrorView::InvalidFormat { detail } => detail,
        CollectErrorView::ProbeFailure { detail } => detail,
        CollectErrorView::OutOfTurn => "Answer out of turn"@,
    }
}

impl CollectError {
    /// What this error says of itself.
    pub fn message(&self) -> (text: String)
        ensures
            text@ == error_text(self@),
    {
        match self {
            CollectError::InvalidPath => "Invalid file path".to_owned(),
            CollectError::InvalidFormat { detail } => detail.clone(),
            CollectError::ProbeFailure { detail } => detail.clone(),
            CollectError::OutOfTurn => "Answer out of turn".to_owned(),
        }
    }
}

/// The extensions of the files that are candidates, each in lower and in
/// upper case, in the order in which the folder is searched for them.
pub open spec fn extensions() -> Seq<Seq<char>> {
    seq!["mp4"@, "MP4"@, "avi"@, "AVI"@, "mov"@, "MOV"@, "mpg"@, "MPG"@]
}

/// The pattern that finds the files with the extension `extension` in
/// `folder`.
pub open spec fn pattern_spec(folder: Seq<char>, extension: Seq<char>) -> Seq<char> {
    folder + "/*."@ + extension
}

/// The patterns that find the candidates in `folder`, in the order in
/// which they are searched for.
pub open spec fn candidate_patterns_spec(folder: Seq<char>) -> Seq<Seq<char>> {
    Seq::new(8, |i: int| pattern_spec(folder, extensions()[i]))
}

/// The pattern that finds the files with the extension `extension` in
/// `folder`.
fn pattern_for(folder: &str, extension: &str) -> (pattern: String)
    ensures
        pattern@ == pattern_spec(folder@, extension@),
{
    let mut pattern = joined(folder, "/*.");
    pattern.append(extension);
    pattern
}

/// The patterns that find the candidates in `folder`.  The candidates of
/// the first pattern come first, then those of the second, and so on.
pub fn candidate_patterns(folder: &str) -> (patterns: Vec<String>)
    ensures
        patterns.deep_view() == candidate_patterns_spec(folder@),
{
    let mut patterns: Vec<String> = Vec::new();
    patterns.push(pattern_for(folder, "mp4"));
    patterns.push(pattern_for(folder, "MP4"));
    patterns.push(pattern_for(folder, "avi"));
    patterns.push(pattern_for(folder, "AVI"));
    patterns.push(pattern_for(folder, "mov"));
    patterns.push(pattern_for(folder, "MOV"));
    patterns.push(pattern_for(folder, "mpg"));
    patterns.push(pattern_for(folder, "MPG"));
    patterns
}

/// A step leaves the clips that were taken as they are, and in their
/// order; at most it puts one clip after them.
pub proof fn lemma_step_keeps_clips(state: CollectorView, event: EventView)
    ensures
        ({
            let clips = step_spec(state, event).collector.clips;
            clips == state.clips || (clips.len() == state.clips.len() + 1 && clips.drop_last()
                == state.clips)
        }),
{
}

/// A hidden file is never taken: it is passed over with one report, and
/// the next candidate is asked for.
pub proof fn lemma_hidden_file_is_passed_over(
    state: CollectorView,
    shown: Seq<char>,
    path: Option<Seq<char>>,
    file_name: Seq<char>,
)
    requires
        state.stage == Stage::Ready,
        is_hidden(file_name),
    ensures
        ({
            let next = step_spec(state, EventView::Found { shown, path, file_name: Some(file_name) });
            &&& next.collector.clips == state.clips
            &&& next.collector.stage == Stage::Ready
            &&& next.action == ActionView::Next
            &&& next.log == Some(LogEntryView::HiddenFile)
        }),
{
}

} // verus!
