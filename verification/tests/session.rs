use disk_scanner::session::{describe_file, describe_stats, Folder, ItemAction, Page, Session};
use disk_scanner::{
    compute_folder_stats, scan_directory, NodeKind, NodeMeta, Timestamp, WalkNode, WalkStep,
};

fn node(path: &str, depth: u32, kind: NodeKind, len: u64) -> WalkStep {
    let name = path.rsplit('/').next().unwrap_or(path).to_string();
    WalkStep::Node(WalkNode {
        path: path.to_string(),
        name,
        depth,
        kind,
        meta: Some(NodeMeta {
            len,
            modified: Some(Timestamp { secs: 1_609_556_645, nanos: 0 }),
        }),
    })
}

fn home() -> Folder {
    Folder {
        path: "/home/u".to_string(),
        root_name: Some("u".to_string()),
        walk: vec![
            node("/home/u", 0, NodeKind::Directory, 4096),
            node("/home/u/docs", 1, NodeKind::Directory, 4096),
            node("/home/u/docs/a.txt", 2, NodeKind::File, 1536),
            node("/home/u/b.txt", 1, NodeKind::File, 10),
        ],
    }
}

fn docs() -> Folder {
    Folder {
        path: "/home/u/docs".to_string(),
        root_name: Some("docs".to_string()),
        walk: vec![
            node("/home/u/docs", 0, NodeKind::Directory, 4096),
            node("/home/u/docs/a.txt", 1, NodeKind::File, 1536),
        ],
    }
}

fn gone() -> Folder {
    Folder {
        path: "/nowhere".to_string(),
        root_name: Some("nowhere".to_string()),
        walk: vec![WalkStep::Failure { depth: 0 }],
    }
}

fn names(session: &Session) -> Vec<String> {
    session.listing.iter().map(|e| e.name.clone()).collect()
}

#[test]
fn a_new_session_is_on_the_start_page() {
    let s = Session::new();
    assert_eq!(s.current_page, Page::Home);
    assert_eq!(s.selected_path, None);
    assert_eq!(s.root_path, None);
    assert!(s.listing.is_empty());
    assert!(s.description.is_empty());
    assert!(s.total.is_empty());
    assert_eq!(s.usage_hundredths, 0);
    assert_eq!(s.path_name, "");
    assert_eq!(s.selected_index, None);
    assert_eq!(s.last_click, None);
    assert!(!s.may_go_back());
}

#[test]
fn choosing_a_folder_shows_it() {
    let mut s = Session::new();
    let notice = s.folder_selected(Some(&home()));
    assert_eq!(notice, None);
    assert_eq!(s.current_page, Page::Normal);
    assert_eq!(s.selected_path, Some("/home/u".to_string()));
    assert_eq!(s.root_path, Some("/home/u".to_string()));
    assert_eq!(s.path_name, "/home/u");
    assert_eq!(names(&s), vec!["docs", "a.txt", "b.txt"]);
    assert_eq!(
        s.description,
        vec![
            "Name: u",
            "Total size: 9.51 KB",
            "Allocated size: 9.51 KB",
            "Item count: 4",
            "File count: 2",
            "Subdirectory count: 2",
            "Last modified: 02/01/2021 03:04:05",
        ]
    );
    assert_eq!(
        s.total,
        vec![
            "Drive Usage:",
            "Total Space: 1024.00 GB",
            "Used Space: 524.00 GB (51.17%)",
            "Free Space: 500.00 GB (48.83%)",
        ]
    );
    assert_eq!(s.usage_hundredths, 5117);
    assert!(!s.may_go_back());
}

#[test]
fn dismissing_the_dialog_changes_nothing() {
    let mut s = Session::new();
    s.folder_selected(Some(&home()));
    s.select_file(1);
    let notice = s.folder_selected(None);
    assert_eq!(notice, Some("No folder selected.".to_string()));
    assert_eq!(s.current_page, Page::Normal);
    assert_eq!(s.selected_path, Some("/home/u".to_string()));
    assert_eq!(names(&s), vec!["docs", "a.txt", "b.txt"]);
    assert_eq!(s.selected_index, Some(1));
    assert_eq!(s.description.len(), 7);

    let mut fresh = Session::new();
    assert_eq!(fresh.folder_selected(None), Some("No folder selected.".to_string()));
    assert_eq!(fresh.current_page, Page::Home);
    assert_eq!(fresh.selected_path, None);
}

#[test]
fn a_folder_that_cannot_be_opened_says_so() {
    let mut s = Session::new();
    s.folder_selected(Some(&gone()));
    assert_eq!(s.current_page, Page::Normal);
    assert_eq!(s.selected_path, Some("/nowhere".to_string()));
    assert!(s.listing.is_empty());
    assert_eq!(s.description, vec!["Failed to compute folder stats"]);
    assert_eq!(s.total, vec!["Failed to compute total stats"]);
    assert_eq!(s.usage_hundredths, 5117);
}

#[test]
fn loading_keeps_the_root_and_the_selection() {
    let mut s = Session::new();
    s.folder_selected(Some(&home()));
    s.select_file(2);
    s.load_folder_contents(&docs());
    assert_eq!(s.selected_path, Some("/home/u/docs".to_string()));
    assert_eq!(s.root_path, Some("/home/u".to_string()));
    assert_eq!(s.path_name, "/home/u/docs");
    assert_eq!(names(&s), vec!["a.txt"]);
    assert_eq!(s.description[0], "Name: docs");
    assert_eq!(s.description[3], "Item count: 2");
    assert_eq!(s.selected_index, Some(2));
    assert!(s.may_go_back());
    s.load_folder_contents(&home());
    assert!(!s.may_go_back());
}

#[test]
fn selecting_a_file_marks_it() {
    let mut s = Session::new();
    s.folder_selected(Some(&home()));
    s.select_file(7);
    assert_eq!(s.selected_index, Some(7));
}

#[test]
fn the_first_click_is_only_remembered() {
    let mut s = Session::new();
    s.folder_selected(Some(&home()));
    let action = s.select_item(1, 1_000);
    assert!(matches!(action, ItemAction::Stay));
    assert_eq!(s.last_click, Some(1_000));
    assert_eq!(s.selected_index, None);
    assert_eq!(s.description.len(), 7);
}

#[test]
fn a_slow_second_click_selects() {
    let mut s = Session::new();
    s.folder_selected(Some(&home()));
    s.select_item(1, 1_000);
    let action = s.select_item(2, 1_300);
    assert!(matches!(action, ItemAction::Stay));
    assert_eq!(s.selected_index, Some(2));
    assert_eq!(s.last_click, Some(1_300));
    assert_eq!(s.description.len(), 7);
}

#[test]
fn a_double_click_on_a_file_describes_it() {
    let mut s = Session::new();
    s.folder_selected(Some(&home()));
    s.select_item(1, 1_000);
    let action = s.select_item(1, 1_299);
    assert!(matches!(action, ItemAction::Stay));
    assert_eq!(
        s.description,
        vec!["Name : a.txt ", "Size: 1.50 KB Mb", "Last Modified: 02/01/2021 03:04:05"]
    );
    assert_eq!(s.selected_index, None);
    assert_eq!(s.last_click, Some(1_299));
}

#[test]
fn a_double_click_on_a_folder_asks_to_enter_it() {
    let mut s = Session::new();
    s.folder_selected(Some(&home()));
    s.select_item(0, 5_000);
    let action = s.select_item(0, 5_100);
    match action {
        ItemAction::Enter { base, name } => {
            assert_eq!(base, "/home/u");
            assert_eq!(name, "docs");
        }
        ItemAction::Stay => panic!("a double click on a folder enters it"),
    }
    assert_eq!(s.description.len(), 7);
    assert_eq!(s.selected_path, Some("/home/u".to_string()));
    assert_eq!(s.last_click, Some(5_100));
}

#[test]
fn a_click_beside_the_listing_is_ignored() {
    let mut s = Session::new();
    s.folder_selected(Some(&home()));
    s.select_item(0, 5_000);
    let action = s.select_item(3, 5_001);
    assert!(matches!(action, ItemAction::Stay));
    assert_eq!(s.last_click, Some(5_000));
    assert_eq!(s.selected_index, None);
}

#[test]
fn a_clock_that_went_back_counts_as_no_time_passed() {
    let mut s = Session::new();
    s.folder_selected(Some(&home()));
    s.select_item(2, 5_000);
    s.select_item(2, 4_000);
    assert_eq!(s.description[0], "Name : b.txt ");
    assert_eq!(s.last_click, Some(4_000));
}

#[test]
fn requests_are_resolved_against_the_shown_folder() {
    let mut s = Session::new();
    assert_eq!(s.request_base(), Err("Selected path is not set.".to_string()));
    s.folder_selected(Some(&home()));
    assert_eq!(s.request_base(), Ok("/home/u".to_string()));
}

#[test]
fn a_deleted_file_leaves_the_listing() {
    let mut s = Session::new();
    s.folder_selected(Some(&home()));
    s.select_file(2);
    let report = s.file_deleted("/home/u/b.txt", Ok(()));
    assert_eq!(report, None);
    assert_eq!(names(&s), vec!["docs", "a.txt"]);
    assert_eq!(s.selected_index, Some(2));
    assert_eq!(s.selected_path, Some("/home/u".to_string()));
    assert_eq!(s.description.len(), 7);
}

#[test]
fn a_failed_deletion_leaves_the_session_and_reports() {
    let mut s = Session::new();
    s.folder_selected(Some(&home()));
    let report = s.file_deleted("/home/u/b.txt", Err("gone already".to_string()));
    assert_eq!(report, Some("Failed to delete file: gone already".to_string()));
    assert_eq!(names(&s), vec!["docs", "a.txt", "b.txt"]);
}

#[test]
fn descriptions_of_stats_and_files() {
    let folder = home();
    let stats = compute_folder_stats(Some("u"), &folder.walk).unwrap();
    assert_eq!(
        describe_stats(&stats),
        vec![
            "Name: u",
            "Total size: 9.51 KB",
            "Allocated size: 9.51 KB",
            "Item count: 4",
            "File count: 2",
            "Subdirectory count: 2",
            "Last modified: 02/01/2021 03:04:05",
        ]
    );
    let entries = scan_directory(&folder.walk);
    assert_eq!(
        describe_file(&entries[2]),
        vec!["Name : b.txt ", "Size: 10 B Mb", "Last Modified: 02/01/2021 03:04:05"]
    );
}
