//! The decisions around opening a folder and deleting a file on request.
//!
//! Asking the question, starting a program and removing a file are the
//! caller's part. What is decided here: whether an answer says yes, which
//! program shows a folder on which platform, and what is reported afterwards.

use vstd::prelude::*;
use vstd::string::*;

verus! {

/// Whether `c` is white space: one of the characters U+0009 to U+000D,
/// U+0020, U+0085, U+00A0, U+1680, U+2000 to U+200A, U+2028, U+2029, U+202F,
/// U+205F and U+3000.
pub open spec fn is_blank(c: char) -> bool {
    let n = c as u32;
    (9 <= n <= 13) || n == 0x20 || n == 0x85 || n == 0xA0 || n == 0x1680 || (0x2000 <= n
        <= 0x200A) || n == 0x2028 || n == 0x2029 || n == 0x202F || n == 0x205F || n == 0x3000
}

/// Whether the word `yes`, in capitals or small letters, stands at `at` in
/// `text` with nothing but white space around it.
pub open spec fn yes_at(text: Seq<char>, at: int) -> bool {
    &&& 0 <= at
    &&& at + 3 <= text.len()
    &&& (text[at] == 'y' || text[at] == 'Y')
    &&& (text[at + 1] == 'e' || text[at + 1] == 'E')
    &&& (text[at + 2] == 's' || text[at + 2] == 'S')
    &&& forall|j: int| 0 <= j < text.len() && !(at <= j < at + 3) ==> is_blank(#[trigger] text[j])
}

/// Whether an answer says yes: it is the word `yes`, in capitals or small
/// letters, with nothing but white space before and after it.
pub open spec fn says_yes(text: Seq<char>) -> bool {
    exists|at: int| yes_at(text, at)
}

/// Whether `c` is white space.
pub fn blank(c: char) -> (b: bool)
    ensures
        b == is_blank(c),
{
    let n = c as u32;
    (9 <= n && n <= 13) || n == 0x20 || n == 0x85 || n == 0xA0 || n == 0x1680 || (0x2000 <= n && n
        <= 0x200A) || n == 0x2028 || n == 0x2029 || n == 0x202F || n == 0x205F || n == 0x3000
}

/// Decides whether an answer to a yes-or-no question says yes. White space
/// around the word and the case of its letters do not matter; anything else
/// is a no.
pub fn confirms(answer: &str) -> (yes: bool)
    ensures
        yes == says_yes(answer@),
{
    let ghost text = answer@;
    let n = answer.unicode_len();
    let mut start: usize = 0;
    let mut leading = true;
    while leading && start < n
        invariant
            text == answer@,
            n == text.len(),
            start <= n,
            forall|j: int| 0 <= j < start ==> is_blank(#[trigger] text[j]),
            !leading ==> start < n && !is_blank(text[start as int]),
        decreases n - start + if leading { 1int } else { 0int },
    {
        if blank(answer.get_char(start)) {
            start = start + 1;
        } else {
            leading = false;
        }
    }
    // The word can only begin at the first character that is not white space.
    assert forall|at: int| yes_at(text, at) implies at == start by {
        assert(!is_blank('y') && !is_blank('Y'));
        assert(!is_blank(text[at]));
        if at < start {
            assert(is_blank(text[at]));
        }
        if start < at {
            assert(is_blank(text[start as int]));
        }
    }
    if n - start < 3 {
        return false;
    }
    let first = answer.get_char(start);
    let second = answer.get_char(start + 1);
    let third = answer.get_char(start + 2);
    if !((first == 'y' || first == 'Y') && (second == 'e' || second == 'E') && (third == 's'
        || third == 'S')) {
        return false;
    }
    let mut end: usize = start + 3;
    while end < n
        invariant
            text == answer@,
            n == text.len(),
            start + 3 <= end <= n,
            forall|at: int| yes_at(text, at) ==> at == start,
            forall|j: int| start + 3 <= j < end ==> is_blank(#[trigger] text[j]),
        decreases n - end,
    {
        if !blank(answer.get_char(end)) {
            assert(!is_blank(text[end as int]));
            assert(!yes_at(text, start as int));
            return false;
        }
        end = end + 1;
    }
    assert(yes_at(text, start as int));
    true
}

/// The platform that a program runs on, as far as opening a folder goes.
#[derive(Clone, Copy, Debug, PartialEq, Eq, Structural)]
pub enum Platform {
    Windows,
    MacOs,
    Linux,
    Other,
}

/// The name of the program that shows a folder on `platform`, where there is
/// one.
pub open spec fn opener_name(platform: Platform) -> Option<Seq<char>> {
    match platform {
        Platform::Windows => Some("explorer"@),
        Platform::MacOs => Some("open"@),
        Platform::Linux => Some("xdg-open"@),
        Platform::Other => None,
    }
}

/// What is reported once opening a folder was tried.
pub open spec fn open_report_text(outcome: Result<(), Seq<char>>) -> Seq<char> {
    match outcome {
        Ok(_) => "Folder opened successfully."@,
        Err(reason) => "Error opening folder: "@ + reason,
    }
}

/// What is reported once deleting a file was tried.
pub open spec fn delete_report_text(outcome: Result<(), Seq<char>>) -> Seq<char> {
    match outcome {
        Ok(_) => "File deleted successfully."@,
        Err(reason) => "Failed to delete file: "@ + reason,
    }
}

/// The content of an outcome that carries a reason for failure.
pub open spec fn outcome_view(outcome: Result<(), String>) -> Result<(), Seq<char>> {
    match outcome {
        Ok(_) => Ok(()),
        Err(reason) => Err(reason@),
    }
}

/// Names the program that shows a folder on `platform`: `explorer` on
/// Windows, `open` on macOS, `xdg-open` on Linux. Elsewhere there is none,
/// and the reason to report is `Unsupported OS`.
pub fn folder_opener(platform: Platform) -> (program: Result<&'static str, String>)
    ensures
        match program {
            Ok(name) => opener_name(platform) == Some(name@),
            Err(reason) => opener_name(platform) is None && reason@ == "Unsupported OS"@,
        },
{
    match platform {
        Platform::Windows => Ok("explorer"),
        Platform::MacOs => Ok("open"),
        Platform::Linux => Ok("xdg-open"),
        Platform::Other => Err("Unsupported OS".to_owned()),
    }
}

/// Words the report on an attempt to open a folder.
pub fn open_report(outcome: Result<(), String>) -> (report: String)
    ensures
        report@ == open_report_text(outcome_view(outcome)),
{
    match outcome {
        Ok(_) => "Folder opened successfully.".to_owned(),
        Err(reason) => {
            let mut report = "Error opening folder: ".to_owned();
            report.append(reason.as_str());
            report
        },
    }
}

/// Words the report on an attempt to delete a file.
pub fn delete_report(outcome: Result<(), String>) -> (report: String)
    ensures
        report@ == delete_report_text(outcome_view(outcome)),
{
    match outcome {
        Ok(_) => "File deleted successfully.".to_owned(),
        Err(reason) => {
            let mut report = "Failed to delete file: ".to_owned();
            report.append(reason.as_str());
            report
        },
    }
}

} // verus!
