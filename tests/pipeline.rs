use std::collections::BTreeSet;
use video_cutter::error::{ExportError, ExportResult};
use video_cutter::pipeline::{Action, Event, Export, Phase};
use video_cutter::segment::Segment;
use video_cutter::target::parse_output_target;

#[derive(Debug, PartialEq)]
enum Done {
    MakeDir,
    Cut(usize, Vec<String>),
    Manifest(String, String),
    Join(Vec<String>),
    Copy(String, String),
    Clean(Vec<String>),
}

struct Run {
    log: Vec<Done>,
    files: BTreeSet<String>,
    outcome: Result<ExportResult, ExportError>,
}

const WORK: &str = "/tmp/work";

fn export(output: &str, merge: bool, segments: &[Segment]) -> Export {
    Export::new(
        "in.mov".to_string(),
        parse_output_target(output, merge),
        &segments.to_vec(),
        WORK.to_string(),
    )
}

/// Runs the machine against a simulated file system; `fail` may turn the
/// outcome of an action into a failure.
fn drive(mut e: Export, fail: impl Fn(Action) -> Option<Event>) -> Run {
    let mut log = Vec::new();
    let mut files = BTreeSet::new();
    let mut action = e.step(Event::Completed);
    for _ in 0..1000 {
        let failed = fail(action);
        let ok = failed.is_none();
        match action {
            Action::MakeDir => log.push(Done::MakeDir),
            Action::Cut(k) => {
                log.push(Done::Cut(k, e.cut_args_for(k)));
                if ok {
                    files.insert(e.temp_path(k));
                }
            }
            Action::WriteManifest => {
                log.push(Done::Manifest(e.manifest_path(), e.manifest()));
                if ok {
                    files.insert(e.manifest_path());
                }
            }
            Action::Join => {
                log.push(Done::Join(e.join_args()));
                files.insert(e.destination(0));
            }
            Action::Copy(k) => {
                log.push(Done::Copy(e.temp_path(k), e.destination(k)));
                files.insert(e.destination(k));
            }
            Action::Clean => {
                let paths = e.cleanup_paths();
                for p in &paths {
                    files.remove(p);
                }
                files.retain(|f| !f.starts_with(WORK));
                log.push(Done::Clean(paths));
            }
            Action::Finish => {
                return Run { log, files, outcome: e.finish() };
            }
        }
        action = e.step(failed.unwrap_or(Event::Completed));
    }
    panic!("the run did not finish");
}

fn no_failure(_: Action) -> Option<Event> {
    None
}

fn seg(start: u64, end: u64) -> Segment {
    Segment::new(start, end)
}

#[test]
fn empty_segments_fail_without_writes() {
    let run = drive(export("out.mp4", true, &[]), no_failure);
    assert!(run.log.is_empty());
    assert!(run.files.is_empty());
    assert!(matches!(run.outcome, Err(ExportError::NoSegments)));
}

#[test]
fn single_segment_merge_is_copied() {
    let run = drive(export("out.mp4", true, &[seg(1_000, 4_000)]), no_failure);
    assert_eq!(run.log[0], Done::MakeDir);
    assert!(matches!(run.log[1], Done::Cut(0, _)));
    assert_eq!(
        run.log[2],
        Done::Copy("/tmp/work/segment_0.mp4".to_string(), "out.mp4".to_string())
    );
    assert!(!run.log.iter().any(|d| matches!(d, Done::Join(_) | Done::Manifest(..))));
    assert!(matches!(run.log[3], Done::Clean(_)));
    assert_eq!(run.files.into_iter().collect::<Vec<_>>(), vec!["out.mp4".to_string()]);
    let r = run.outcome.unwrap();
    assert!(r.success);
    assert_eq!(r.message, "video exported successfully");
}

#[test]
fn merge_cuts_in_start_order_and_joins_once() {
    let run = drive(
        export("out.mp4", true, &[seg(20_000, 22_000), seg(0, 1_500), seg(10_000, 15_000)]),
        no_failure,
    );
    let cuts: Vec<(usize, String, String)> = run
        .log
        .iter()
        .filter_map(|d| match d {
            Done::Cut(k, a) => Some((*k, a[2].clone(), a[6].clone())),
            _ => None,
        })
        .collect();
    assert_eq!(
        cuts,
        vec![
            (0, "00:00:00.000".to_string(), "1.5".to_string()),
            (1, "00:00:10.000".to_string(), "5".to_string()),
            (2, "00:00:20.000".to_string(), "2".to_string()),
        ]
    );
    assert_eq!(
        run.log[4],
        Done::Manifest(
            "/tmp/work/concat_list.txt".to_string(),
            "file '/tmp/work/segment_0.mp4'\nfile '/tmp/work/segment_1.mp4'\nfile '/tmp/work/segment_2.mp4'\n"
                .to_string()
        )
    );
    assert_eq!(run.log.iter().filter(|d| matches!(d, Done::Join(_))).count(), 1);
    match &run.log[5] {
        Done::Join(a) => {
            assert_eq!(a[6], "/tmp/work/concat_list.txt");
            assert_eq!(a[11], "out.mp4");
        }
        other => panic!("expected the join, got {:?}", other),
    }
    assert!(run.files.iter().all(|f| !f.starts_with(WORK)));
    assert!(run.outcome.is_ok());
}

#[test]
fn merge_join_failure_leaves_nothing() {
    let run = drive(export("out.mp4", true, &[seg(0, 1_000), seg(2_000, 3_000)]), |a| {
        match a {
            Action::Join => Some(Event::ToolFailed("bad concat".to_string())),
            _ => None,
        }
    });
    assert_eq!(run.log.iter().filter(|d| matches!(d, Done::Join(_))).count(), 1);
    assert!(run.files.is_empty());
    let e = run.outcome.unwrap_err();
    assert!(matches!(&e, ExportError::AssemblyFailure(d) if d == "bad concat"));
    assert_eq!(e.message(), "joining the segments failed: bad concat");
}

#[test]
fn split_uses_supplied_then_default_names() {
    let run = drive(
        export("dir|a.mp4|b.mp4", false, &[seg(0, 1_000), seg(5_000, 6_000), seg(9_000, 9_500)]),
        no_failure,
    );
    let copies: Vec<&Done> = run.log.iter().filter(|d| matches!(d, Done::Copy(..))).collect();
    assert_eq!(
        copies,
        vec![
            &Done::Copy("/tmp/work/segment_0.mp4".to_string(), "dir/a.mp4".to_string()),
            &Done::Copy("/tmp/work/segment_1.mp4".to_string(), "dir/b.mp4".to_string()),
            &Done::Copy("/tmp/work/segment_2.mp4".to_string(), "dir/video_3.mp4".to_string()),
        ]
    );
    assert_eq!(
        run.files.into_iter().collect::<Vec<_>>(),
        vec!["dir/a.mp4".to_string(), "dir/b.mp4".to_string(), "dir/video_3.mp4".to_string()]
    );
    assert!(run.outcome.is_ok());
}

#[test]
fn split_two_segments_two_names() {
    let run = drive(export("dir|a.mp4|b.mp4", false, &[seg(5_000, 6_000), seg(0, 1_000)]), no_failure);
    let copies: Vec<&Done> = run.log.iter().filter(|d| matches!(d, Done::Copy(..))).collect();
    assert_eq!(
        copies,
        vec![
            &Done::Copy("/tmp/work/segment_0.mp4".to_string(), "dir/a.mp4".to_string()),
            &Done::Copy("/tmp/work/segment_1.mp4".to_string(), "dir/b.mp4".to_string()),
        ]
    );
}

#[test]
fn split_copy_failure_removes_written_outputs() {
    let run = drive(export("dir|a.mp4|b.mp4", false, &[seg(0, 1_000), seg(5_000, 6_000)]), |a| {
        match a {
            Action::Copy(1) => Some(Event::IoFailed("disk full".to_string())),
            _ => None,
        }
    });
    assert!(run.files.is_empty());
    assert!(matches!(run.outcome, Err(ExportError::Io(m)) if m == "disk full"));
}

#[test]
fn second_of_three_cuts_fails() {
    let run = drive(
        export("out.mp4", true, &[seg(0, 1_000), seg(2_000, 3_000), seg(4_000, 5_000)]),
        |a| match a {
            Action::Cut(1) => Some(Event::ToolFailed("broken frame".to_string())),
            _ => None,
        },
    );
    let cuts: Vec<usize> = run
        .log
        .iter()
        .filter_map(|d| match d {
            Done::Cut(k, _) => Some(*k),
            _ => None,
        })
        .collect();
    assert_eq!(cuts, vec![0, 1]);
    match run.log.last() {
        Some(Done::Clean(paths)) => {
            assert_eq!(paths, &vec!["/tmp/work/segment_0.mp4".to_string()])
        }
        other => panic!("expected the cleanup, got {:?}", other),
    }
    assert!(run.files.is_empty());
    let e = run.outcome.unwrap_err();
    assert!(matches!(&e, ExportError::SegmentFailure { index: 2, diagnostic } if diagnostic == "broken frame"));
    assert_eq!(e.message(), "cutting segment 2 failed: broken frame");
}

#[test]
fn launch_failure_still_cleans_up() {
    let run = drive(export("out.mp4", true, &[seg(0, 1_000)]), |a| match a {
        Action::Cut(0) => Some(Event::LaunchFailed("no such file".to_string())),
        _ => None,
    });
    assert!(matches!(run.log.last(), Some(Done::Clean(_))));
    let e = run.outcome.unwrap_err();
    assert_eq!(e.message(), "transcoding tool could not be run: no such file");
}

#[test]
fn make_dir_failure_is_reported() {
    let run = drive(export("out.mp4", true, &[seg(0, 1_000)]), |a| match a {
        Action::MakeDir => Some(Event::IoFailed("permission denied".to_string())),
        _ => None,
    });
    assert_eq!(run.log.len(), 2);
    assert!(matches!(run.outcome, Err(ExportError::Io(m)) if m == "permission denied"));
}

#[test]
fn machine_states_after_finish() {
    let mut e = export("out.mp4", true, &[]);
    assert_eq!(e.step(Event::Completed), Action::Finish);
    assert_eq!(e.phase, Phase::Done);
    assert_eq!(e.step(Event::Completed), Action::Finish);
}

#[test]
fn error_messages() {
    assert_eq!(ExportError::ToolNotFound.message(), "transcoding tool not found");
    assert_eq!(ExportError::NoSegments.message(), "at least one segment must be selected");
    assert_eq!(ExportError::Io("x".to_string()).message(), "x");
}
