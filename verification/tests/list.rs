use grov::commands::list::{format_ahead_behind, worktree_status, WorktreeStatus};
use grov::errors::GrovError;
use grov::git::worktree::{available_branches, is_unmerged_rejection, safe_delete_branch, WorktreeInfo};
use grov::text::split_lines;
use grov::tui::theme::Style;

fn parts(ab: Option<(u32, u32)>) -> Vec<(String, Style)> {
    format_ahead_behind(ab)
        .into_iter()
        .map(|p| (p.text, p.style))
        .collect()
}

#[test]
fn ahead_behind_parts_show_only_what_is_there() {
    assert_eq!(parts(None), vec![]);
    assert_eq!(parts(Some((0, 0))), vec![]);
    assert_eq!(parts(Some((2, 0))), vec![("\u{2191}2".to_string(), Style::Green)]);
    assert_eq!(parts(Some((0, 15))), vec![("\u{2193}15".to_string(), Style::Error)]);
    assert_eq!(
        parts(Some((4294967295, 1000))),
        vec![
            ("\u{2191}4294967295".to_string(), Style::Green),
            ("\u{2193}1000".to_string(), Style::Error),
        ]
    );
}

#[test]
fn status_of_a_worktree() {
    assert_eq!(worktree_status(false, &Ok(true)), WorktreeStatus::Missing);
    assert_eq!(worktree_status(true, &Ok(true)), WorktreeStatus::Dirty);
    assert_eq!(worktree_status(true, &Ok(false)), WorktreeStatus::Clean);
    assert_eq!(
        worktree_status(true, &Err(GrovError::WorktreeDirty)),
        WorktreeStatus::Unknown
    );
}

#[test]
fn unmerged_rejection_is_recognised() {
    assert!(is_unmerged_rejection(
        "git command failed: error: the branch 'x' is not fully merged."
    ));
    assert!(!is_unmerged_rejection("error: branch 'x' not found."));
    assert!(!is_unmerged_rejection("Not Fully Merged"));
    assert_eq!(safe_delete_branch("x"), vec!["branch", "-d", "x"]);
}

#[test]
fn available_branches_leave_out_checked_out_ones() {
    let worktrees = vec![
        WorktreeInfo {
            path: "/p/a".to_string(),
            head: "0".to_string(),
            branch: Some("main".to_string()),
            is_bare: false,
        },
        WorktreeInfo {
            path: "/p/develop".to_string(),
            head: "0".to_string(),
            branch: None,
            is_bare: false,
        },
    ];
    let branches = vec![
        "develop".to_string(),
        "main".to_string(),
        "topic".to_string(),
        "main".to_string(),
    ];
    assert_eq!(available_branches(&branches, &worktrees), vec!["develop", "topic"]);
    assert_eq!(available_branches(&branches, &[]), branches);
}

#[test]
fn lines_are_split_at_line_feeds() {
    assert_eq!(split_lines(""), Vec::<String>::new());
    assert_eq!(split_lines("a"), vec!["a"]);
    assert_eq!(split_lines("a\n"), vec!["a"]);
    assert_eq!(split_lines("a\nb"), vec!["a", "b"]);
    assert_eq!(split_lines("a\r\nb\r\n"), vec!["a", "b"]);
    assert_eq!(split_lines("\n\nb"), vec!["", "", "b"]);
    assert_eq!(split_lines("a\rb\n"), vec!["a\rb"]);
    assert_eq!(split_lines("a\n\r"), vec!["a", "\r"]);
    assert_eq!(split_lines("a\r"), vec!["a\r"]);
    for text in ["", "a", "a\n", "a\r\n\r\nb", "\n", "\r\n", "x\ny\r", "\r"] {
        let expected: Vec<&str> = text.lines().collect();
        assert_eq!(split_lines(text), expected);
    }
}

#[test]
fn compact_listing_names_branches_of_worktrees() {
    let worktrees = vec![
        WorktreeInfo {
            path: "/p/repo.git".to_string(),
            head: "0".to_string(),
            branch: Some("hidden".to_string()),
            is_bare: true,
        },
        WorktreeInfo {
            path: "/p/a".to_string(),
            head: "0".to_string(),
            branch: Some("main".to_string()),
            is_bare: false,
        },
        WorktreeInfo {
            path: "/p/b".to_string(),
            head: "0".to_string(),
            branch: None,
            is_bare: false,
        },
        WorktreeInfo {
            path: "/p/c".to_string(),
            head: "0".to_string(),
            branch: Some("topic".to_string()),
            is_bare: false,
        },
    ];
    assert_eq!(
        grov::commands::list::compact_listing(&worktrees),
        vec!["main", "topic"]
    );
    assert_eq!(grov::commands::list::compact_listing(&[]), Vec::<String>::new());
}
