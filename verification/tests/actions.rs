use disk_scanner::actions::{blank, confirms, delete_report, folder_opener, open_report, Platform};

#[test]
fn yes_in_any_case_confirms() {
    assert!(confirms("yes"));
    assert!(confirms("YES"));
    assert!(confirms("Yes"));
    assert!(confirms("yEs"));
}

#[test]
fn white_space_around_the_answer_is_ignored() {
    assert!(confirms("yes\n"));
    assert!(confirms("  yes  "));
    assert!(confirms("\t\r\nYES\r\n"));
    assert!(confirms("\u{00A0}yes\u{3000}"));
}

#[test]
fn anything_else_is_a_no() {
    assert!(!confirms(""));
    assert!(!confirms("   "));
    assert!(!confirms("no"));
    assert!(!confirms("y"));
    assert!(!confirms("ye"));
    assert!(!confirms("yess"));
    assert!(!confirms("yes yes"));
    assert!(!confirms("y es"));
    assert!(!confirms("yes."));
    assert!(!confirms("oh yes"));
    assert!(!confirms("\u{200B}yes"));
}

#[test]
fn confirmation_agrees_with_trimming_and_comparing() {
    let words = ["yes", "YES", "yeS", "no", "ye", "yes!", "", "y e s", "yesyes"];
    let pads = ["", " ", "\n", "\t ", "\u{2003}", "\u{0085}", "x", "\u{180E}"];
    for w in words {
        for before in pads {
            for after in pads {
                let s = format!("{}{}{}", before, w, after);
                assert_eq!(confirms(&s), s.trim().eq_ignore_ascii_case("yes"), "{:?}", s);
            }
        }
    }
}

#[test]
fn white_space_is_what_trimming_removes() {
    let mut n: u32 = 0;
    while n <= 0x10FFFF {
        if let Some(c) = char::from_u32(n) {
            assert_eq!(blank(c), c.is_whitespace(), "U+{:04X}", n);
        }
        n += 1;
    }
}

#[test]
fn each_platform_has_its_program() {
    assert_eq!(folder_opener(Platform::Windows), Ok("explorer"));
    assert_eq!(folder_opener(Platform::MacOs), Ok("open"));
    assert_eq!(folder_opener(Platform::Linux), Ok("xdg-open"));
    assert_eq!(folder_opener(Platform::Other), Err("Unsupported OS".to_string()));
}

#[test]
fn reports_after_opening() {
    assert_eq!(open_report(Ok(())), "Folder opened successfully.");
    assert_eq!(
        open_report(Err("Unsupported OS".to_string())),
        "Error opening folder: Unsupported OS"
    );
}

#[test]
fn reports_after_deleting() {
    assert_eq!(delete_report(Ok(())), "File deleted successfully.");
    assert_eq!(
        delete_report(Err("permission denied".to_string())),
        "Failed to delete file: permission denied"
    );
}
