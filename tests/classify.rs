use git_changes::classify::{classify, delta_path, Classifier, ClassifyError, DiffEvent};
use git_changes::model::FileChange;

fn file(p: &str) -> DiffEvent {
    DiffEvent::File { path: p.to_string() }
}

fn hunk(old_lines: u32, new_lines: u32) -> DiffEvent {
    DiffEvent::Hunk { old_lines, new_lines }
}

fn line(old_lineno: Option<u32>, new_lineno: Option<u32>) -> DiffEvent {
    DiffEvent::Line { old_lineno, new_lineno }
}

fn counters(c: &FileChange) -> [u32; 6] {
    [
        c.lines_added,
        c.lines_removed,
        c.lines_modified,
        c.hunks_added,
        c.hunks_removed,
        c.hunks_modified,
    ]
}

#[test]
fn empty_diff_has_no_records() {
    let r = classify(&Vec::new()).unwrap();
    assert!(r.is_empty());
}

#[test]
fn one_record_per_file_in_order() {
    let ev = vec![
        file("a.rs"),
        hunk(0, 2),
        line(None, Some(1)),
        line(None, Some(2)),
        file("b.rs"),
        file("c/d.rs"),
        hunk(1, 0),
        line(Some(4), None),
    ];
    let r = classify(&ev).unwrap();
    let paths: Vec<&str> = r.iter().map(|c| c.path.as_str()).collect();
    assert_eq!(paths, vec!["a.rs", "b.rs", "c/d.rs"]);
    assert_eq!(counters(&r[0]), [2, 0, 0, 1, 0, 0]);
    assert_eq!(counters(&r[1]), [0, 0, 0, 0, 0, 0]);
    assert_eq!(counters(&r[2]), [0, 1, 0, 0, 1, 0]);
}

#[test]
fn hunk_kinds_follow_line_counts() {
    let ev = vec![file("x"), hunk(0, 3), hunk(2, 0), hunk(2, 5), hunk(0, 0), hunk(1, 1)];
    let r = classify(&ev).unwrap();
    assert_eq!(r.len(), 1);
    // (0, 0) has an old-side count of zero: added.
    assert_eq!(r[0].hunks_added, 2);
    assert_eq!(r[0].hunks_removed, 1);
    assert_eq!(r[0].hunks_modified, 2);
}

#[test]
fn line_kinds_follow_line_numbers() {
    let ev = vec![
        file("x"),
        hunk(2, 2),
        line(None, Some(1)),
        line(Some(1), None),
        line(Some(2), Some(2)),
        line(Some(3), Some(3)),
        line(None, None),
    ];
    let r = classify(&ev).unwrap();
    assert_eq!(counters(&r[0]), [1, 1, 2, 0, 0, 1]);
}

#[test]
fn hunk_before_any_file_is_rejected() {
    let ev = vec![hunk(1, 1), file("x")];
    assert_eq!(classify(&ev).unwrap_err(), ClassifyError::HunkOutsideFile);
}

#[test]
fn line_before_any_file_is_rejected() {
    let ev = vec![line(None, Some(1))];
    assert_eq!(classify(&ev).unwrap_err(), ClassifyError::LineOutsideFile);
}

#[test]
fn counters_only_grow_while_feeding() {
    let ev = vec![
        file("x"),
        hunk(0, 2),
        line(None, Some(1)),
        line(None, Some(2)),
        hunk(3, 1),
        line(Some(5), None),
        line(Some(6), Some(2)),
    ];
    let mut last = [0u32; 6];
    for k in 1..=ev.len() {
        let mut c = Classifier::new();
        for e in &ev[..k] {
            c.feed(e).unwrap();
        }
        let out = c.finish();
        assert_eq!(out.len(), 1);
        let now = counters(&out[0]);
        let grown: u32 = now.iter().sum::<u32>() - last.iter().sum::<u32>();
        for j in 0..6 {
            assert!(now[j] >= last[j]);
        }
        assert!(grown <= 1);
        last = now;
    }
    assert_eq!(last, [2, 1, 1, 1, 0, 1]);
}

#[test]
fn step_methods_update_open_record() {
    let mut c = Classifier::new();
    assert_eq!(c.on_hunk(1, 1), Err(ClassifyError::HunkOutsideFile));
    assert_eq!(c.on_line(Some(1), None), Err(ClassifyError::LineOutsideFile));
    c.on_file("first".to_string());
    assert_eq!(c.on_hunk(0, 4), Ok(()));
    assert_eq!(c.on_line(None, Some(1)), Ok(()));
    c.on_file("second".to_string());
    assert_eq!(c.on_hunk(4, 0), Ok(()));
    let out = c.finish();
    assert_eq!(out.len(), 2);
    assert_eq!(out[0].path, "first");
    assert_eq!(counters(&out[0]), [1, 0, 0, 1, 0, 0]);
    assert_eq!(out[1].path, "second");
    assert_eq!(counters(&out[1]), [0, 0, 0, 0, 1, 0]);
}

#[test]
fn fresh_and_duplicated_records() {
    let c = FileChange::new("p".to_string());
    assert_eq!(c.path, "p");
    assert_eq!(counters(&c), [0; 6]);
    let mut d = c.duplicate();
    d.hunks_added = 7;
    assert_eq!(d.path, "p");
    assert_eq!(c.hunks_added, 0);
}

#[test]
fn delta_path_prefers_new_side() {
    assert_eq!(delta_path(Some("new".to_string()), Some("old".to_string())), Some("new".to_string()));
    assert_eq!(delta_path(None, Some("old".to_string())), Some("old".to_string()));
    assert_eq!(delta_path(None, None), None);
}
