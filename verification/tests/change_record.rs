use syncer::changes::{files_of, ChangeList, FsEntity};
use syncer::moves::file_name_of;
use syncer::sizes::FileSizes;

fn file(p: &str) -> FsEntity {
    FsEntity::File(p.to_string())
}

fn folder(p: &str) -> FsEntity {
    FsEntity::Folder(p.to_string())
}

fn sizes(entries: &[(&str, u64)]) -> FileSizes {
    let mut table = FileSizes::new();
    for (path, size) in entries {
        table.record(path.to_string(), *size);
    }
    table
}

fn record(deleted: Vec<FsEntity>, changed: Vec<FsEntity>) -> ChangeList {
    ChangeList { deleted, changed, moved: Vec::new() }
}

#[test]
fn collect_reads_deletion_and_transfer_lines() {
    let report = "'changed-file:del.;a/b.txt'\n'changed-file:send;a/b.txt/'\n";
    let record = ChangeList::collect(report).expect("two entries");
    assert_eq!(record.deleted, vec![file("a/b.txt")]);
    assert_eq!(record.changed, vec![folder("a/b.txt")]);
    assert!(record.moved.is_empty());
}

#[test]
fn collect_without_marked_lines_is_none() {
    let report = "sending incremental file list\n\nsent 76 bytes  received 19 bytes\n";
    assert!(ChangeList::collect(report).is_none());
    assert!(ChangeList::collect("").is_none());
    assert!(ChangeList::collect("\n\n").is_none());
}

#[test]
fn collect_keeps_the_order_of_the_lines() {
    let report = "sending incremental file list\n\
                  'changed-file:del.;z.txt'\n\
                  'changed-file:send;./'\n\
                  'changed-file:send;b/'\n\
                  'changed-file:del.;a/old/'\n\
                  'changed-file:send;b/new.txt'\n\
                  \n\
                  sent 1 bytes\n";
    let record = ChangeList::collect(report).unwrap();
    assert_eq!(record.deleted, vec![file("z.txt"), folder("a/old")]);
    assert_eq!(record.changed, vec![folder("."), folder("b"), file("b/new.txt")]);
}

#[test]
fn collect_reads_a_last_line_without_line_feed() {
    let record = ChangeList::collect("'changed-file:send;x.txt'").unwrap();
    assert_eq!(record.changed, vec![file("x.txt")]);
    assert!(record.deleted.is_empty());
}

#[test]
fn collect_takes_carriage_return_as_part_of_the_line_end() {
    let record = ChangeList::collect("'changed-file:del.;x.txt'\r\n'changed-file:send;y/'\r\n")
        .unwrap();
    assert_eq!(record.deleted, vec![file("x.txt")]);
    assert_eq!(record.changed, vec![folder("y")]);
}

#[test]
fn collect_passes_over_a_marker_without_anything_behind_it() {
    assert!(ChangeList::collect("'changed-file:del.;\n'changed-file:send;\n").is_none());
}

#[test]
fn collect_reads_an_empty_path_as_a_file() {
    let record = ChangeList::collect("'changed-file:del.;'\n").unwrap();
    assert_eq!(record.deleted, vec![file("")]);
}

#[test]
fn collect_wants_the_marker_at_the_start_of_the_line() {
    assert!(ChangeList::collect(" 'changed-file:del.;a'\nchanged-file:send;b'\n").is_none());
}

#[test]
fn collect_counts_characters_not_bytes() {
    let record = ChangeList::collect("'changed-file:send;d\u{e9}j\u{e0}/vu\u{2603}'\n").unwrap();
    assert_eq!(record.changed, vec![file("d\u{e9}j\u{e0}/vu\u{2603}")]);
}

#[test]
fn file_name_is_the_final_component() {
    assert_eq!(file_name_of("a/b/c.txt"), Some("c.txt".to_string()));
    assert_eq!(file_name_of("c.txt"), Some("c.txt".to_string()));
    assert_eq!(file_name_of("/c"), Some("c".to_string()));
    assert_eq!(file_name_of(".hidden"), Some(".hidden".to_string()));
    assert_eq!(file_name_of("a/..."), Some("...".to_string()));
    assert_eq!(file_name_of("d\u{e9}/\u{2603}.txt"), Some("\u{2603}.txt".to_string()));
}

#[test]
fn file_name_is_missing_where_the_path_names_no_file() {
    assert_eq!(file_name_of(""), None);
    assert_eq!(file_name_of("a/b/"), None);
    assert_eq!(file_name_of("a/.."), None);
    assert_eq!(file_name_of(".."), None);
    assert_eq!(file_name_of("."), None);
    assert_eq!(file_name_of("a/."), None);
}

#[test]
fn file_sizes_answer_by_path() {
    let mut table = FileSizes::new();
    assert_eq!(table.lookup("a"), None);
    table.record("a".to_string(), 1);
    table.record("b".to_string(), 2);
    assert_eq!(table.lookup("a"), Some(1));
    assert_eq!(table.lookup("b"), Some(2));
    assert_eq!(table.lookup("c"), None);
    table.record("a".to_string(), 3);
    assert_eq!(table.lookup("a"), Some(3));
}

#[test]
fn file_sizes_from_measurements_skip_what_was_not_measured() {
    let paths = vec!["a".to_string(), "b".to_string(), "c".to_string(), "d".to_string()];
    let table = FileSizes::from_measurements(&paths, &vec![Some(7), None, Some(0)]);
    assert_eq!(table.lookup("a"), Some(7));
    assert_eq!(table.lookup("b"), None);
    assert_eq!(table.lookup("c"), Some(0));
    assert_eq!(table.lookup("d"), None);
}

#[test]
fn files_of_lists_files_only() {
    let entities = vec![folder("a"), file("a/x"), file("y"), folder("b")];
    assert_eq!(files_of(&entities), vec!["a/x".to_string(), "y".to_string()]);
}

#[test]
fn extract_moves_finds_same_name_same_size() {
    let report = "'changed-file:del.;old/d.txt'\n'changed-file:send;new/d.txt'\n";
    let mut record = ChangeList::collect(report).unwrap();
    record.extract_moves(&sizes(&[("old/d.txt", 42)]), &sizes(&[("new/d.txt", 42)]));
    assert!(record.deleted.is_empty());
    assert_eq!(record.changed, vec![file("new/d.txt")]);
    assert_eq!(record.moved, vec![(file("old/d.txt"), "new/d.txt".to_string())]);
}

#[test]
fn extract_moves_keeps_deletion_of_other_size() {
    let report = "'changed-file:del.;old/d.txt'\n'changed-file:send;new/d.txt'\n";
    let mut record = ChangeList::collect(report).unwrap();
    record.extract_moves(&sizes(&[("old/d.txt", 42)]), &sizes(&[("new/d.txt", 43)]));
    assert_eq!(record.deleted, vec![file("old/d.txt")]);
    assert_eq!(record.changed, vec![file("new/d.txt")]);
    assert!(record.moved.is_empty());
}

#[test]
fn extract_moves_keeps_deletion_that_cannot_be_measured() {
    let mut changes = record(vec![file("old/d.txt")], vec![file("new/d.txt")]);
    changes.extract_moves(&FileSizes::new(), &sizes(&[("new/d.txt", 42)]));
    assert_eq!(changes.deleted, vec![file("old/d.txt")]);
    assert!(changes.moved.is_empty());
}

#[test]
fn extract_moves_passes_over_candidate_that_cannot_be_measured() {
    let mut changes = record(vec![file("old/d.txt")], vec![file("x/d.txt"), file("y/d.txt")]);
    changes.extract_moves(&sizes(&[("old/d.txt", 42)]), &sizes(&[("y/d.txt", 42)]));
    assert!(changes.deleted.is_empty());
    assert_eq!(changes.moved, vec![(file("old/d.txt"), "y/d.txt".to_string())]);
}

#[test]
fn extract_moves_never_moves_a_folder() {
    let mut changes = record(vec![folder("old/d")], vec![file("new/d"), folder("new/d")]);
    changes.extract_moves(&sizes(&[("old/d", 1)]), &sizes(&[("new/d", 1)]));
    assert_eq!(changes.deleted, vec![folder("old/d")]);
    assert!(changes.moved.is_empty());
}

#[test]
fn extract_moves_does_not_take_a_folder_as_candidate() {
    let mut changes = record(vec![file("old/d")], vec![folder("new/d")]);
    changes.extract_moves(&sizes(&[("old/d", 1)]), &sizes(&[("new/d", 1)]));
    assert_eq!(changes.deleted, vec![file("old/d")]);
    assert!(changes.moved.is_empty());
}

#[test]
fn extract_moves_takes_the_first_candidate_in_report_order() {
    let mut changes = record(
        vec![file("old/d.txt")],
        vec![file("a/other.txt"), file("b/d.txt"), file("c/d.txt"), file("e/d.txt")],
    );
    changes.extract_moves(
        &sizes(&[("old/d.txt", 5)]),
        &sizes(&[("a/other.txt", 5), ("b/d.txt", 6), ("c/d.txt", 5), ("e/d.txt", 5)]),
    );
    assert!(changes.deleted.is_empty());
    assert_eq!(changes.moved, vec![(file("old/d.txt"), "c/d.txt".to_string())]);
    assert_eq!(changes.changed.len(), 4);
}

#[test]
fn extract_moves_may_send_two_deletions_to_one_file() {
    let mut changes = record(
        vec![file("a/d.txt"), folder("a"), file("b/d.txt"), file("b/e.txt")],
        vec![file("c/d.txt")],
    );
    changes.extract_moves(
        &sizes(&[("a/d.txt", 9), ("b/d.txt", 9), ("b/e.txt", 9)]),
        &sizes(&[("c/d.txt", 9)]),
    );
    assert_eq!(changes.deleted, vec![folder("a"), file("b/e.txt")]);
    assert_eq!(
        changes.moved,
        vec![
            (file("a/d.txt"), "c/d.txt".to_string()),
            (file("b/d.txt"), "c/d.txt".to_string()),
        ]
    );
}

#[test]
fn extract_moves_adds_to_the_moves_that_are_there() {
    let mut changes = ChangeList {
        deleted: vec![file("old/d.txt")],
        changed: vec![file("new/d.txt")],
        moved: vec![(file("p"), "q".to_string())],
    };
    changes.extract_moves(&sizes(&[("old/d.txt", 0)]), &sizes(&[("new/d.txt", 0)]));
    assert_eq!(
        changes.moved,
        vec![(file("p"), "q".to_string()), (file("old/d.txt"), "new/d.txt".to_string())]
    );
}

#[test]
fn extract_moves_on_nothing_changes_nothing() {
    let mut changes = record(vec![], vec![file("x.txt")]);
    changes.extract_moves(&FileSizes::new(), &FileSizes::new());
    assert!(changes.deleted.is_empty());
    assert!(changes.moved.is_empty());
    assert_eq!(changes.changed, vec![file("x.txt")]);
}

#[test]
fn entity_clone_is_equal() {
    assert_eq!(file("a").clone(), file("a"));
    assert_eq!(folder("a").clone(), folder("a"));
    assert_ne!(file("a"), folder("a"));
}

#[test]
fn no_entity_is_both_moved_and_deleted() {
    let mut changes = record(
        vec![file("a/d.txt"), file("a/e.txt"), file("a/d.txt"), folder("a")],
        vec![file("b/d.txt"), file("b/f.txt")],
    );
    changes.extract_moves(
        &sizes(&[("a/d.txt", 2), ("a/e.txt", 2)]),
        &sizes(&[("b/d.txt", 2), ("b/f.txt", 2)]),
    );
    assert_eq!(changes.moved.len(), 2);
    for (from, _) in &changes.moved {
        assert!(!changes.deleted.contains(from));
    }
    assert_eq!(changes.deleted, vec![file("a/e.txt"), folder("a")]);
}
