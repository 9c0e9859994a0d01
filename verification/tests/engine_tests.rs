use rustreplay::entry::{DecodeError, ReplayFile};
use rustreplay::processor::BatchJob;
use rustreplay::props::{PropValue, Record};
use rustreplay::scanner::FileHandle;

fn handle(path: &str, mtime: u64) -> FileHandle {
    FileHandle { path: path.to_string(), mtime }
}

fn some_record() -> Record {
    Record {
        properties: vec![
            ("RecordFPS".to_string(), PropValue::FloatBits(30.0f32.to_bits())),
            ("NumFrames".to_string(), PropValue::Int(150)),
        ],
    }
}

#[test]
fn empty_job_is_born_finished_with_full_progress() {
    let job = BatchJob::start(vec![]);
    assert!(job.is_finished());
    assert_eq!(job.progress_percent(), 100);
    assert_eq!(job.progress_parts(), (0, 0));
    assert_eq!(job.current_path(), None);
}

#[test]
fn job_completes_after_one_step_per_path() {
    let paths = vec![handle("a.replay", 3), handle("b.replay", 2), handle("c.replay", 1)];
    let mut job = BatchJob::start(paths);
    assert!(!job.is_finished());
    assert_eq!(job.progress_percent(), 0);
    for _ in 0..3 {
        job.step_with_outcome(Some(some_record()));
    }
    assert!(job.is_finished());
    assert_eq!(job.progress_parts(), (3, 3));
    assert_eq!(job.completed.len(), 3);
    assert_eq!(job.progress_percent(), 100);
}

#[test]
fn step_on_a_finished_job_changes_nothing() {
    let mut job = BatchJob::start(vec![handle("a.replay", 1)]);
    job.step_with_outcome(None);
    assert!(job.is_finished());
    job.step_with_outcome(Some(some_record()));
    job.step(None);
    job.step(Some(vec![1, 2, 3]));
    assert_eq!(job.completed.len(), 1);
    assert_eq!(job.progress_parts(), (1, 1));
    // the empty job stays a no-op target as well
    let mut empty = BatchJob::start(vec![]);
    empty.step(None);
    assert_eq!(empty.completed.len(), 0);
}

#[test]
fn one_corrupt_file_does_not_abort_the_batch() {
    let paths = vec![handle("a.replay", 3), handle("b.replay", 2), handle("c.replay", 1)];
    let mut job = BatchJob::start(paths);
    job.step_with_outcome(Some(some_record()));
    job.step_with_outcome(None);
    job.step_with_outcome(Some(some_record()));
    assert!(job.is_finished());
    assert_eq!(job.progress_parts(), (3, 3));
    let flags: Vec<bool> = job.completed.iter().map(|e| e.is_corrupt()).collect();
    assert_eq!(flags, vec![false, true, false]);
}

#[test]
fn progress_counts_processed_paths() {
    let paths = vec![handle("a.replay", 3), handle("b.replay", 2), handle("c.replay", 1)];
    let mut job = BatchJob::start(paths);
    job.step_with_outcome(None);
    assert_eq!(job.progress_percent(), 33);
    assert_eq!(job.progress_parts(), (1, 3));
    assert_eq!(job.current_path(), Some("b.replay".to_string()));
    job.step_with_outcome(None);
    assert_eq!(job.progress_percent(), 66);
}

#[test]
fn step_names_the_entry_after_the_file_stem() {
    let mut job = BatchJob::start(vec![handle("saves/game1.replay", 1)]);
    job.step_with_outcome(Some(some_record()));
    let e = &job.completed[0];
    assert_eq!(e.name, "game1");
    assert_eq!(e.path, "saves/game1.replay");
    assert!(!e.is_corrupt());
}

#[test]
fn bytes_the_decoder_rejects_mark_the_entry_corrupt() {
    // a recording is far more than a few arbitrary bytes, so the decoder
    // must reject these
    let garbage = vec![0u8, 1, 2, 3, 4, 5, 6, 7];
    let mut job = BatchJob::start(vec![handle("bad.replay", 1)]);
    job.step(Some(garbage));
    assert!(job.is_finished());
    assert!(job.completed[0].is_corrupt());
    assert!(job.completed[0].get_replay().is_none());
}

#[test]
fn parse_replay_reports_each_failure_kind() {
    let mut e = ReplayFile::new("x".to_string(), "x.replay".to_string());
    assert!(!e.is_corrupt());
    assert!(e.get_replay().is_none());
    assert_eq!(e.parse_replay(None), Err(DecodeError::Unreadable));
    assert!(e.is_corrupt());
    assert_eq!(e.parse_replay(Some(vec![0u8; 16])), Err(DecodeError::Corrupt));
    assert!(e.is_corrupt());
    assert!(e.get_replay().is_none());
    assert_eq!(e.get_duration_parts(), None);
}

#[test]
fn a_successful_outcome_clears_the_corruption_mark() {
    let mut e = ReplayFile::new("x".to_string(), "x.replay".to_string());
    e.apply_decode_outcome(None);
    assert!(e.is_corrupt());
    e.apply_decode_outcome(Some(some_record()));
    assert!(!e.is_corrupt());
    let rec = e.get_replay().expect("record is held");
    assert_eq!(rec.lookup("NumFrames"), Some(PropValue::Int(150)));
    let parts = e.get_duration_parts().expect("derivable");
    assert_eq!(parts.num_frames, 150);
}
