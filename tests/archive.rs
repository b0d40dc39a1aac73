use captains_log::archive::{ArchiveEntry, ArchiveSet, Rename};

fn entry(suffix: u64, compressed: bool) -> ArchiveEntry {
    ArchiveEntry { suffix, compressed }
}

fn suffixes(set: &ArchiveSet) -> Vec<u64> {
    set.entries.iter().map(|e| e.suffix).collect()
}

#[test]
fn first_rotation_moves_live_file_to_one() {
    let mut set = ArchiveSet::new();
    let renames = set.rotate();
    assert_eq!(renames, vec![Rename { from: None, to: 1, compressed: false }]);
    assert_eq!(suffixes(&set), vec![1]);
}

#[test]
fn rotation_cascades_oldest_first() {
    let mut set = ArchiveSet::new();
    set.rotate();
    set.rotate();
    let renames = set.rotate();
    assert_eq!(
        renames,
        vec![
            Rename { from: Some(2), to: 3, compressed: false },
            Rename { from: Some(1), to: 2, compressed: false },
            Rename { from: None, to: 1, compressed: false },
        ]
    );
    assert_eq!(suffixes(&set), vec![1, 2, 3]);
}

#[test]
fn cascade_stops_at_a_gap() {
    let found = vec![entry(1, false), entry(3, true), entry(4, true)];
    let mut set = ArchiveSet::from_scan(&found);
    let renames = set.rotate();
    assert_eq!(
        renames,
        vec![Rename { from: Some(1), to: 2, compressed: false }, Rename { from: None, to: 1, compressed: false }]
    );
    assert_eq!(suffixes(&set), vec![1, 2, 3, 4]);
    assert!(set.entries[2].compressed);
}

#[test]
fn compressed_flag_moves_with_the_file() {
    let found = vec![entry(1, false), entry(2, true)];
    let mut set = ArchiveSet::from_scan(&found);
    let renames = set.rotate();
    assert_eq!(renames[0], Rename { from: Some(2), to: 3, compressed: true });
    assert_eq!(set.entries[2], entry(3, true));
}

#[test]
fn scan_drops_suffix_zero_and_disorder() {
    let found = vec![entry(0, false), entry(2, false), entry(1, false), entry(5, true)];
    let set = ArchiveSet::from_scan(&found);
    assert_eq!(suffixes(&set), vec![2, 5]);
}

#[test]
fn retention_keeps_the_most_recent() {
    let mut set = ArchiveSet::new();
    let mut deleted_total = Vec::new();
    for _ in 0..5 {
        set.rotate();
        let deleted = set.retain(2);
        deleted_total.extend(deleted.iter().map(|e| e.suffix));
    }
    assert_eq!(suffixes(&set), vec![1, 2]);
    assert_eq!(deleted_total, vec![3, 3, 3]);
}

#[test]
fn retention_with_fewer_archives_keeps_all() {
    let mut set = ArchiveSet::new();
    set.rotate();
    let deleted = set.retain(3);
    assert!(deleted.is_empty());
    assert_eq!(set.len(), 1);
}

#[test]
fn retention_of_zero_drops_everything() {
    let mut set = ArchiveSet::new();
    set.rotate();
    set.rotate();
    let deleted = set.retain(0);
    assert_eq!(deleted.len(), 2);
    assert_eq!(set.len(), 0);
}

#[test]
fn compression_boundary_after_several_rotations() {
    let mut set = ArchiveSet::new();
    let mut compressed_names = Vec::new();
    for _ in 0..4 {
        set.rotate();
        let pending = set.compress_beyond(1);
        compressed_names.extend(pending.iter().map(|e| e.suffix));
    }
    let flags: Vec<bool> = set.entries.iter().map(|e| e.compressed).collect();
    assert_eq!(flags, vec![false, true, true, true]);
    // each archive is compressed once, when it moves to suffix 2
    assert_eq!(compressed_names, vec![2, 2, 2]);
}

#[test]
fn compression_lists_oldest_first() {
    let found = vec![entry(1, false), entry(2, false), entry(3, false), entry(4, true)];
    let mut set = ArchiveSet::from_scan(&found);
    let pending = set.compress_beyond(1);
    assert_eq!(pending.iter().map(|e| e.suffix).collect::<Vec<_>>(), vec![3, 2]);
}

#[test]
fn compress_exclude_zero_compresses_all() {
    let mut set = ArchiveSet::new();
    set.rotate();
    set.rotate();
    let pending = set.compress_beyond(0);
    assert_eq!(pending.len(), 2);
    assert!(set.entries.iter().all(|e| e.compressed));
}
