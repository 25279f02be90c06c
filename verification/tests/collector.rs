use autotclog::collector::{
    candidate_patterns, is_hidden_name, step, Action, CollectError, Collector, Event, LogEntry,
    Stage, Step,
};
use autotclog::timeline::{build_timeline, ClipMetadata};

fn found(path: &str, file_name: &str) -> Event {
    Event::Found {
        shown: format!("{path:?}"),
        path: Some(path.to_string()),
        file_name: Some(file_name.to_string()),
    }
}

fn output(text: &str) -> Event {
    Event::ProbeOutput { text: text.to_string() }
}

fn in_hand(stage: Stage, fps: i64) -> Collector {
    Collector {
        clips: Vec::new(),
        stage,
        path: "/rushes/a.mp4".to_string(),
        file_name: "a.mp4".to_string(),
        fps,
    }
}

fn at_rest(clips: Vec<ClipMetadata>, stage: Stage) -> Collector {
    Collector { clips, stage, path: String::new(), file_name: String::new(), fps: 0 }
}

/// Runs one file through the collector, as a caller with a working probe
/// would: `rate` and `seconds` are what the probe prints.
fn collect(collector: Collector, path: &str, file_name: &str, rate: &str, seconds: &str) -> Step {
    let next = step(collector, found(path, file_name));
    assert_eq!(next.action, Action::ProbeFrameRate { path: path.to_string() });
    let next = step(next.collector, output(rate));
    let fps = match &next.action {
        Action::MeasureFrameRate { numerator, denominator } => {
            numerator.parse::<f64>().unwrap() / denominator.parse::<f64>().unwrap()
        }
        other => panic!("{other:?}"),
    };
    let next = step(next.collector, Event::Measured { value: fps as i64 });
    assert_eq!(next.action, Action::ProbeDuration { path: path.to_string() });
    let next = step(next.collector, output(seconds));
    let duration = match &next.action {
        Action::MeasureDuration { text } => text.parse::<f64>().unwrap(),
        other => panic!("{other:?}"),
    };
    step(next.collector, Event::Measured { value: (duration * fps) as i64 })
}

#[test]
fn a_new_collector_holds_no_clips() {
    let collector = Collector::new();
    assert_eq!(collector, at_rest(Vec::new(), Stage::Ready));
    assert_eq!(collector.finish(), Some(Vec::new()));
}

#[test]
fn an_empty_folder_gives_no_clips_and_no_rows() {
    let clips = Collector::new().finish().unwrap();
    assert!(clips.is_empty());
    assert_eq!(build_timeline(&clips, "00:00:00:00"), Ok(Vec::new()));
}

#[test]
fn a_hidden_file_is_passed_over_with_one_report() {
    let mut log = Vec::new();
    let mut collector = Collector::new();
    for (path, name) in [("/rushes/._a.mp4", "._a.mp4"), ("/rushes/a.mp4", "a.mp4")] {
        let next = step(collector, found(path, name));
        log.extend(next.log.clone());
        collector = match next.action {
            Action::Next => next.collector,
            Action::ProbeFrameRate { .. } => {
                let next = collect(Collector::new(), path, name, "25/1\n", "2.000000\n");
                log.extend(next.log.clone());
                next.collector
            }
            other => panic!("{other:?}"),
        };
    }
    let clips = collector.finish().unwrap();
    assert_eq!(clips.len(), 1);
    assert_eq!(clips[0].file_name, "a.mp4");
    let skips: Vec<&LogEntry> = log.iter().filter(|entry| **entry == LogEntry::HiddenFile).collect();
    assert_eq!(skips.len(), 1);
    assert_eq!(log, vec![LogEntry::HiddenFile]);
}

#[test]
fn a_hidden_file_leaves_the_clips_as_they_are() {
    let taken = collect(Collector::new(), "/rushes/a.mp4", "a.mp4", "25/1", "2.0").collector;
    let next = step(taken.clone(), found("/rushes/.b.mp4", ".b.mp4"));
    assert_eq!(
        next,
        Step { collector: taken, action: Action::Next, log: Some(LogEntry::HiddenFile) }
    );
}

#[test]
fn a_hidden_file_is_passed_over_before_its_path_is_looked_at() {
    let event = Event::Found {
        shown: "\"/rushes/.\\xFF.mp4\"".to_string(),
        path: None,
        file_name: Some(".\u{fffd}.mp4".to_string()),
    };
    let next = step(Collector::new(), event);
    assert_eq!(next.action, Action::Next);
    assert_eq!(next.log, Some(LogEntry::HiddenFile));
}

#[test]
fn is_hidden_name_looks_at_the_first_character() {
    assert!(is_hidden_name(".DS_Store"));
    assert!(is_hidden_name("._clip.mp4"));
    assert!(is_hidden_name("."));
    assert!(!is_hidden_name("clip.mp4"));
    assert!(!is_hidden_name("a.b"));
    assert!(!is_hidden_name(""));
    assert!(!is_hidden_name(" .mp4"));
}

#[test]
fn an_entry_that_could_not_be_read_is_passed_over() {
    let next = step(Collector::new(), Event::Unreadable { detail: "denied".to_string() });
    assert_eq!(
        next,
        Step {
            collector: Collector::new(),
            action: Action::Next,
            log: Some(LogEntry::Unreadable { detail: "denied".to_string() }),
        }
    );
}

#[test]
fn a_path_without_a_last_component_is_passed_over() {
    let event = Event::Found {
        shown: "\"/rushes/..\"".to_string(),
        path: Some("/rushes/..".to_string()),
        file_name: None,
    };
    let next = step(Collector::new(), event);
    assert_eq!(
        next,
        Step {
            collector: Collector::new(),
            action: Action::Next,
            log: Some(LogEntry::NoFileName { shown: "\"/rushes/..\"".to_string() }),
        }
    );
}

#[test]
fn a_path_that_is_not_unicode_ends_the_collection() {
    let event = Event::Found {
        shown: "\"/rushes/a\\xFF.mp4\"".to_string(),
        path: None,
        file_name: Some("a\u{fffd}.mp4".to_string()),
    };
    let next = step(Collector::new(), event);
    assert_eq!(
        next,
        Step {
            collector: at_rest(Vec::new(), Stage::Failed),
            action: Action::Abort { error: CollectError::InvalidPath },
            log: None,
        }
    );
    assert_eq!(next.collector.finish(), None);
}

#[test]
fn a_file_is_probed_for_its_frame_rate_first() {
    let next = step(Collector::new(), found("/rushes/a.mp4", "a.mp4"));
    assert_eq!(
        next,
        Step {
            collector: in_hand(Stage::FrameRateProbe, 0),
            action: Action::ProbeFrameRate { path: "/rushes/a.mp4".to_string() },
            log: None,
        }
    );
}

#[test]
fn a_frame_rate_that_could_not_be_probed_passes_the_file_over() {
    let next = step(
        in_hand(Stage::FrameRateProbe, 0),
        Event::ProbeFailed { detail: "no probe".to_string() },
    );
    assert_eq!(
        next,
        Step {
            collector: Collector::new(),
            action: Action::Next,
            log: Some(LogEntry::FrameRateProbeFailed {
                path: "/rushes/a.mp4".to_string(),
                detail: "no probe".to_string(),
            }),
        }
    );
}

#[test]
fn an_empty_frame_rate_passes_the_file_over() {
    for printed in ["", "\n", "  \r\n"] {
        let next = step(in_hand(Stage::FrameRateProbe, 0), output(printed));
        assert_eq!(
            next,
            Step {
                collector: Collector::new(),
                action: Action::Next,
                log: Some(LogEntry::EmptyFrameRate { path: "/rushes/a.mp4".to_string() }),
            }
        );
    }
}

#[test]
fn a_frame_rate_is_reported_and_handed_out_in_two_parts() {
    let next = step(in_hand(Stage::FrameRateProbe, 0), output("30000/1001\n"));
    assert_eq!(
        next,
        Step {
            collector: in_hand(Stage::FrameRateMeasure, 0),
            action: Action::MeasureFrameRate {
                numerator: "30000".to_string(),
                denominator: "1001".to_string(),
            },
            log: Some(LogEntry::FrameRate {
                path: "/rushes/a.mp4".to_string(),
                text: "30000/1001".to_string(),
            }),
        }
    );
}

#[test]
fn a_frame_rate_without_two_parts_ends_the_collection() {
    for printed in ["abc\n", "25\n", "25/1\n25/1\n"] {
        let next = step(in_hand(Stage::FrameRateProbe, 0), output(printed));
        assert_eq!(
            next,
            Step {
                collector: at_rest(Vec::new(), Stage::Failed),
                action: Action::Abort {
                    error: CollectError::InvalidFormat { detail: "Invalid FPS format".to_string() },
                },
                log: Some(LogEntry::FrameRate {
                    path: "/rushes/a.mp4".to_string(),
                    text: printed.trim().to_string(),
                }),
            }
        );
    }
}

#[test]
fn a_frame_rate_that_is_no_number_ends_the_collection() {
    let next = step(
        in_hand(Stage::FrameRateMeasure, 0),
        Event::NotNumeric { detail: "invalid float literal".to_string() },
    );
    assert_eq!(
        next,
        Step {
            collector: at_rest(Vec::new(), Stage::Failed),
            action: Action::Abort {
                error: CollectError::InvalidFormat { detail: "invalid float literal".to_string() },
            },
            log: None,
        }
    );
}

#[test]
fn a_frame_rate_with_a_zero_denominator_ends_the_collection() {
    let next = step(in_hand(Stage::FrameRateProbe, 0), output("30/0"));
    assert_eq!(
        next.action,
        Action::MeasureFrameRate { numerator: "30".to_string(), denominator: "0".to_string() }
    );
    let next = step(next.collector, Event::ZeroDenominator);
    assert_eq!(
        next,
        Step {
            collector: at_rest(Vec::new(), Stage::Failed),
            action: Action::Abort {
                error: CollectError::InvalidFormat {
                    detail: "Frame rate with a zero denominator".to_string(),
                },
            },
            log: None,
        }
    );
}

#[test]
fn a_measured_frame_rate_is_kept_and_the_duration_is_probed() {
    let next = step(in_hand(Stage::FrameRateMeasure, 0), Event::Measured { value: 29 });
    assert_eq!(
        next,
        Step {
            collector: in_hand(Stage::DurationProbe, 29),
            action: Action::ProbeDuration { path: "/rushes/a.mp4".to_string() },
            log: None,
        }
    );
}

#[test]
fn a_duration_that_could_not_be_probed_ends_the_collection() {
    let next = step(
        in_hand(Stage::DurationProbe, 25),
        Event::ProbeFailed { detail: "no probe".to_string() },
    );
    assert_eq!(
        next,
        Step {
            collector: at_rest(Vec::new(), Stage::Failed),
            action: Action::Abort {
                error: CollectError::ProbeFailure { detail: "no probe".to_string() },
            },
            log: None,
        }
    );
}

#[test]
fn a_duration_is_handed_out_without_the_white_space_around_it() {
    let next = step(in_hand(Stage::DurationProbe, 25), output(" 12.480000\n"));
    assert_eq!(
        next,
        Step {
            collector: in_hand(Stage::DurationMeasure, 25),
            action: Action::MeasureDuration { text: "12.480000".to_string() },
            log: None,
        }
    );
    // an empty duration is handed out too: the caller finds that it is no number
    let next = step(in_hand(Stage::DurationProbe, 25), output("\n"));
    assert_eq!(next.action, Action::MeasureDuration { text: String::new() });
}

#[test]
fn a_duration_that_is_no_number_ends_the_collection() {
    let next = step(
        in_hand(Stage::DurationMeasure, 25),
        Event::NotNumeric { detail: "cannot parse float from empty string".to_string() },
    );
    assert_eq!(
        next,
        Step {
            collector: at_rest(Vec::new(), Stage::Failed),
            action: Action::Abort {
                error: CollectError::InvalidFormat {
                    detail: "cannot parse float from empty string".to_string(),
                },
            },
            log: None,
        }
    );
}

#[test]
fn a_measured_duration_makes_the_file_a_clip() {
    let next = step(in_hand(Stage::DurationMeasure, 25), Event::Measured { value: 312 });
    let clip = ClipMetadata {
        file_path: "/rushes/a.mp4".to_string(),
        file_name: "a.mp4".to_string(),
        fps: 25,
        frame_count: 312,
    };
    assert_eq!(
        next,
        Step { collector: at_rest(vec![clip], Stage::Ready), action: Action::Next, log: None }
    );
}

#[test]
fn clips_are_kept_in_the_order_in_which_they_were_handed_over() {
    let mut collector = Collector::new();
    for name in ["z.mp4", "a.mp4", "m.MOV"] {
        let path = format!("/rushes/{name}");
        collector = collect(collector, &path, name, "25/1\n", "1.5\n").collector;
    }
    let names: Vec<String> =
        collector.finish().unwrap().into_iter().map(|clip| clip.file_name).collect();
    assert_eq!(names, ["z.mp4", "a.mp4", "m.MOV"]);
}

#[test]
fn a_collected_clip_holds_whole_frames() {
    let next = collect(Collector::new(), "/rushes/a.mp4", "a.mp4", "30000/1001\n", "10.010000\n");
    let clips = next.collector.finish().unwrap();
    assert_eq!(
        clips,
        vec![ClipMetadata {
            file_path: "/rushes/a.mp4".to_string(),
            file_name: "a.mp4".to_string(),
            fps: 29,
            frame_count: 300,
        }]
    );
}

#[test]
fn an_answer_out_of_turn_ends_the_collection() {
    let failed = Step {
        collector: at_rest(Vec::new(), Stage::Failed),
        action: Action::Abort { error: CollectError::OutOfTurn },
        log: None,
    };
    assert_eq!(step(Collector::new(), output("25/1")), failed);
    assert_eq!(step(Collector::new(), Event::Measured { value: 25 }), failed);
    assert_eq!(step(Collector::new(), Event::ZeroDenominator), failed);
    assert_eq!(step(in_hand(Stage::FrameRateProbe, 0), found("/rushes/b.mp4", "b.mp4")), failed);
    assert_eq!(step(in_hand(Stage::FrameRateProbe, 0), Event::Measured { value: 25 }), failed);
    assert_eq!(step(in_hand(Stage::FrameRateMeasure, 0), output("25/1")), failed);
    assert_eq!(step(in_hand(Stage::DurationProbe, 25), Event::Measured { value: 1 }), failed);
    assert_eq!(step(in_hand(Stage::DurationProbe, 25), Event::ZeroDenominator), failed);
    assert_eq!(step(in_hand(Stage::DurationMeasure, 25), Event::ZeroDenominator), failed);
    assert_eq!(step(in_hand(Stage::DurationMeasure, 25), output("1.0")), failed);
    assert_eq!(step(at_rest(Vec::new(), Stage::Failed), found("/rushes/a.mp4", "a.mp4")), failed);
}

#[test]
fn a_collector_with_a_file_in_hand_cannot_finish() {
    assert_eq!(in_hand(Stage::FrameRateProbe, 0).finish(), None);
    assert_eq!(in_hand(Stage::DurationMeasure, 25).finish(), None);
    assert_eq!(at_rest(Vec::new(), Stage::Failed).finish(), None);
}

#[test]
fn log_entries_have_their_messages() {
    let path = || "/rushes/a.mp4".to_string();
    assert_eq!(
        LogEntry::Unreadable { detail: "denied".to_string() }.message(),
        "Error accessing file: denied"
    );
    assert_eq!(
        LogEntry::NoFileName { shown: "\"/rushes/..\"".to_string() }.message(),
        "Error accessing file name for \"/rushes/..\""
    );
    assert_eq!(
        LogEntry::HiddenFile.message(),
        "Skipping hidden video file as it is likely a Linux or MacOS system file and not a real rush."
    );
    assert_eq!(
        LogEntry::FrameRateProbeFailed { path: path(), detail: "no probe".to_string() }.message(),
        "Error getting FPS for /rushes/a.mp4: no probe"
    );
    assert_eq!(
        LogEntry::EmptyFrameRate { path: path() }.message(),
        "Empty FPS string for /rushes/a.mp4"
    );
    assert_eq!(
        LogEntry::FrameRate { path: path(), text: "25/1".to_string() }.message(),
        "FPS String for /rushes/a.mp4: 25/1"
    );
    assert_eq!(
        LogEntry::Saved { path: "/rushes/log.xlsx".to_string() }.message(),
        "Output file saved to /rushes/log.xlsx"
    );
    assert_eq!(
        LogEntry::Failed { detail: "Invalid FPS format".to_string() }.message(),
        "Error getting metadata: Invalid FPS format"
    );
}

#[test]
fn collect_errors_have_their_messages() {
    assert_eq!(CollectError::InvalidPath.message(), "Invalid file path");
    assert_eq!(
        CollectError::InvalidFormat { detail: "Invalid FPS format".to_string() }.message(),
        "Invalid FPS format"
    );
    assert_eq!(CollectError::ProbeFailure { detail: "no probe".to_string() }.message(), "no probe");
    assert_eq!(CollectError::OutOfTurn.message(), "Answer out of turn");
}

#[test]
fn candidates_are_searched_for_by_eight_patterns() {
    assert_eq!(
        candidate_patterns("/rushes/day 1"),
        [
            "/rushes/day 1/*.mp4",
            "/rushes/day 1/*.MP4",
            "/rushes/day 1/*.avi",
            "/rushes/day 1/*.AVI",
            "/rushes/day 1/*.mov",
            "/rushes/day 1/*.MOV",
            "/rushes/day 1/*.mpg",
            "/rushes/day 1/*.MPG",
        ]
    );
    assert_eq!(candidate_patterns("")[0], "/*.mp4");
}
