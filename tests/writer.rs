use captains_log::writer::{effective_flush_millis, effective_flush_size, BatchBuffer};
use captains_log::{Rotation, WriterAction, WriterCore, WriterEvent};

fn writes_of(actions: Vec<WriterAction>) -> Vec<Vec<u8>> {
    actions
        .into_iter()
        .filter_map(|a| match a {
            WriterAction::Write(b) => Some(b),
            _ => None,
        })
        .collect()
}

#[test]
fn flush_interval_is_clamped() {
    assert_eq!(effective_flush_millis(0), 0);
    assert_eq!(effective_flush_millis(1), 1);
    assert_eq!(effective_flush_millis(1000), 1000);
    assert_eq!(effective_flush_millis(5000), 1000);
}

#[test]
fn flush_size_zero_means_default() {
    assert_eq!(effective_flush_size(0), 4096);
    assert_eq!(effective_flush_size(512), 512);
}

#[test]
fn batch_flushes_before_overflow() {
    let mut b = BatchBuffer::new(10);
    assert!(b.append(vec![1, 2, 3, 4]).is_empty());
    assert!(b.append(vec![5, 6, 7, 8]).is_empty());
    let w = b.append(vec![9, 10, 11, 12]);
    assert_eq!(w, vec![vec![1, 2, 3, 4, 5, 6, 7, 8]]);
    assert_eq!(b.buf, vec![9, 10, 11, 12]);
}

#[test]
fn batch_flushes_at_threshold() {
    let mut b = BatchBuffer::new(8);
    assert!(b.append(vec![0; 4]).is_empty());
    let w = b.append(vec![1; 4]);
    assert_eq!(w, vec![vec![0, 0, 0, 0, 1, 1, 1, 1]]);
    assert!(b.buf.is_empty());
}

#[test]
fn long_line_goes_out_whole() {
    let mut b = BatchBuffer::new(8);
    assert!(b.append(vec![7; 3]).is_empty());
    let w = b.append(vec![9; 20]);
    assert_eq!(w, vec![vec![7; 3], vec![9; 20]]);
    assert!(b.buf.is_empty());
}

#[test]
fn batching_keeps_every_byte_in_order() {
    let mut b = BatchBuffer::new(64);
    let mut appended = Vec::new();
    let mut written = Vec::new();
    for i in 0..300u32 {
        let line: Vec<u8> = format!("line {}\n", i * 7919 % 1000).into_bytes();
        appended.extend_from_slice(&line);
        for w in b.append(line) {
            assert!(w.len() <= 64 + 16);
            written.extend_from_slice(&w);
        }
    }
    written.extend_from_slice(&b.take());
    assert_eq!(written, appended);
}

#[test]
fn events_map_to_actions() {
    let mut core = WriterCore::new(16, 0, None);
    let a = core.on_event(WriterEvent::Line(b"hello".to_vec()));
    assert!(a.is_empty());
    let a = core.on_event(WriterEvent::Reopen);
    assert!(matches!(a.as_slice(), [WriterAction::Reopen]));
    let a = core.on_event(WriterEvent::Flush);
    assert!(matches!(a.as_slice(), [WriterAction::Write(b), WriterAction::WaitUpkeep] if b == b"hello"));
    let a = core.on_event(WriterEvent::Closed);
    assert!(matches!(
        a.as_slice(),
        [WriterAction::Write(b), WriterAction::WaitUpkeep, WriterAction::Stop] if b.is_empty()
    ));
}

#[test]
fn timed_out_and_drained_flush_pending() {
    let mut core = WriterCore::new(0, 250, None);
    assert_eq!(core.flush_millis, 250);
    assert_eq!(core.batch.threshold, 4096);
    core.on_event(WriterEvent::Line(b"abc".to_vec()));
    assert_eq!(writes_of(core.on_event(WriterEvent::TimedOut)), vec![b"abc".to_vec()]);
    core.on_event(WriterEvent::Line(b"def".to_vec()));
    assert_eq!(writes_of(core.on_event(WriterEvent::Drained)), vec![b"def".to_vec()]);
}

#[test]
fn flush_without_file_changes_nothing() {
    let rotate = Some(Rotation::by_size(1, None).build("/tmp/x.log"));
    let mut core = WriterCore::new(0, 0, rotate);
    assert!(!core.flushed(100, 0));
    assert_eq!(core.size, 0);
}

#[test]
fn flush_counts_bytes_and_rotates_by_size() {
    let rotate = Some(Rotation::by_size(100, None).build("/tmp/x.log"));
    let mut core = WriterCore::new(0, 0, rotate);
    core.opened(10, 0);
    assert!(!core.flushed(89, 0));
    assert_eq!(core.size, 99);
    assert!(core.flushed(1, 0));
    assert_eq!(core.size, 100);
    // a flush of nothing rotates too once the limit is reached
    assert!(core.flushed(0, 0));
    core.opened(0, 5);
    assert!(!core.flushed(0, 5));
}

#[test]
fn flush_rotates_by_age_with_no_bytes() {
    let rotate = Some(captains_log::Rotation::by_age(captains_log::Age::Hour, false, "%Y", None).build("/tmp/x.log"));
    let mut core = WriterCore::new(0, 0, rotate);
    core.opened(0, 1_000);
    assert!(!core.flushed(0, 1_000 + 3_600_000));
    assert!(core.flushed(0, 1_000 + 3_600_001));
}

#[test]
fn open_failure_drops_writes() {
    let rotate = Some(Rotation::by_size(1, None).build("/tmp/x.log"));
    let mut core = WriterCore::new(0, 0, rotate);
    core.opened(0, 0);
    core.open_failed();
    assert!(!core.has_file);
    assert!(!core.flushed(10, 0));
}

/// A buffered sink with threshold 4096, flush interval 0, rotation at 8192
/// bytes and two archives kept; 1000 lines of 40 bytes, the queue running
/// empty after each one.
#[test]
fn end_to_end_rotation_scenario() {
    let engine = Rotation::by_size(8192, Some(2)).build("/tmp/scenario/app.log");
    let mut core = WriterCore::new(4096, 0, Some(engine));
    core.opened(0, 0);
    let mut rotations = 0;
    let mut on_disk_archives: Vec<u64> = Vec::new();
    let mut live_bytes = 0usize;
    for i in 0..1000u32 {
        let line = format!("{:>39}\n", format!("line {}", i)).into_bytes();
        assert_eq!(line.len(), 40);
        let mut actions = core.on_event(WriterEvent::Line(line));
        actions.extend(core.on_event(WriterEvent::Drained));
        for a in actions {
            if let WriterAction::Write(bytes) = a {
                assert!(bytes.len() <= 4096 + 40);
                live_bytes += bytes.len();
                if core.flushed(bytes.len(), 0) {
                    rotations += 1;
                    let rot = core.rotate.as_mut().unwrap();
                    let renames = rot.archive_live();
                    assert_eq!(renames.last().unwrap().from, None);
                    let plan = rot.upkeep_archives();
                    on_disk_archives = rot.archives.entries.iter().map(|e| e.suffix).collect();
                    assert!(plan.compress.is_empty());
                    live_bytes = 0;
                    core.opened(0, 0);
                }
            }
        }
    }
    assert!(rotations >= 4, "rotations: {}", rotations);
    assert_eq!(on_disk_archives, vec![1, 2]);
    assert!(live_bytes > 0);
}
