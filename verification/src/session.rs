//! The state of a browsing session and how each event changes it.
//!
//! A session shows one folder at a time: its listing, a description, the
//! drive report. The caller owns the window, the dialogs and the file system.
//! It hands each event to the session together with what it found outside: a
//! walked folder, the time of a click, the outcome of a deletion. The session
//! answers with its next state, and where more is to be done, with what.

use crate::cache::{delete_failure_text, settle_delete, without_path};
use crate::decimal::{decimal, push_decimal};
use crate::directory::{
    compute_folder_stats, entries_view, listing, scan_directory, stats_of, total_bytes, EntryView,
    FileEntry, FolderStats, StatsView,
};
use crate::stats::{
    drive_usage, lines_view, stand_in_lines, used_share, STAND_IN_FREE, STAND_IN_TOTAL,
};
use crate::walk::{root_unreadable, walk_view, StepView, WalkStep};
use vstd::prelude::*;
use vstd::string::*;

verus! {

/// Two clicks on one item less than this many milliseconds apart are a
/// double click.
pub const DOUBLE_CLICK_MS: u64 = 300;

/// Which page the session shows.
#[derive(Clone, Copy, Debug, PartialEq, Eq, Structural)]
pub enum Page {
    /// The start page, before any folder was chosen.
    Home,
    /// The page of the folder that is shown.
    Normal,
}

/// A folder as the caller found it: its path, the name of its last
/// component where it has one, and the record of a walk from it.
#[derive(Clone, Debug)]
pub struct Folder {
    pub path: String,
    pub root_name: Option<String>,
    pub walk: Vec<WalkStep>,
}

/// The state of a browsing session.
#[derive(Debug)]
pub struct Session {
    /// The folder that is shown.
    pub selected_path: Option<String>,
    /// The listing of the folder that is shown.
    pub listing: Vec<FileEntry>,
    /// The lines that describe the folder, or the file that was opened last.
    pub description: Vec<String>,
    /// The lines of the drive report.
    pub total: Vec<String>,
    /// The used share of the drive, in hundredths of a percent.
    pub usage_hundredths: u32,
    /// The path of the folder that is shown, as text.
    pub path_name: String,
    /// The page that is shown.
    pub current_page: Page,
    /// The folder that was chosen first; the session does not go above it.
    pub root_path: Option<String>,
    /// The position of the entry that is selected.
    pub selected_index: Option<usize>,
    /// When an entry was last clicked, in milliseconds on the caller's clock.
    pub last_click: Option<u64>,
}

/// What is left to the caller after a click on an entry.
#[derive(Debug)]
pub enum ItemAction {
    /// Nothing.
    Stay,
    /// Walk the folder `name` inside the folder `base` and load it.
    Enter { base: String, name: String },
}

/// The mathematical content of a `Folder`.
pub struct FolderView {
    pub path: Seq<char>,
    pub root_name: Option<Seq<char>>,
    pub walk: Seq<StepView>,
}

/// The mathematical content of a `Session`.
pub struct SessionView {
    pub selected_path: Option<Seq<char>>,
    pub listing: Seq<EntryView>,
    pub description: Seq<Seq<char>>,
    pub total: Seq<Seq<char>>,
    pub usage_hundredths: u32,
    pub path_name: Seq<char>,
    pub current_page: Page,
    pub root_path: Option<Seq<char>>,
    pub selected_index: Option<usize>,
    pub last_click: Option<u64>,
}

/// The mathematical content of an `ItemAction`.
pub enum ActionView {
    Stay,
    Enter { base: Seq<char>, name: Seq<char> },
}

/// The content of a text that may be missing.
pub open spec fn text_view(text: Option<String>) -> Option<Seq<char>> {
    match text {
        Some(t) => Some(t@),
        None => None,
    }
}

impl View for Folder {
    type V = FolderView;

    open spec fn view(&self) -> FolderView {
        FolderView {
            path: self.path@,
            root_name: text_view(self.root_name),
            walk: walk_view(self.walk@),
        }
    }
}

impl View for Session {
    type V = SessionView;

    open spec fn view(&self) -> SessionView {
        SessionView {
            selected_path: text_view(self.selected_path),
            listing: entries_view(self.listing@),
            description: lines_view(self.description@),
            total: lines_view(self.total@),
            usage_hundredths: self.usage_hundredths,
            path_name: self.path_name@,
            current_page: self.current_page,
            root_path: text_view(self.root_path),
            selected_index: self.selected_index,
            last_click: self.last_click,
        }
    }
}

impl View for ItemAction {
    type V = ActionView;

    open spec fn view(&self) -> ActionView {
        match *self {
            ItemAction::Stay => ActionView::Stay,
            ItemAction::Enter { base, name } => ActionView::Enter { base: base@, name: name@ },
        }
    }
}

/// The session before anything happened: the start page, nothing chosen,
/// nothing shown.
pub open spec fn initial() -> SessionView {
    SessionView {
        selected_path: None,
        listing: Seq::empty(),
        description: Seq::empty(),
        total: Seq::empty(),
        usage_hundredths: 0,
        path_name: Seq::empty(),
        current_page: Page::Home,
        root_path: None,
        selected_index: None,
        last_click: None,
    }
}

/// The lines that describe a folder's summary.
pub open spec fn stats_lines(stats: StatsView) -> Seq<Seq<char>> {
    seq![
        "Name: "@ + stats.file_name,
        "Total size: "@ + stats.total_size,
        "Allocated size: "@ + stats.allocated_size,
        "Item count: "@ + decimal(stats.item_count),
        "File count: "@ + decimal(stats.file_count),
        "Subdirectory count: "@ + decimal(stats.subdir_count),
        "Last modified: "@ + stats.last_modified,
    ]
}

/// The lines that describe a file of the listing.
pub open spec fn file_lines(entry: EntryView) -> Seq<Seq<char>> {
    seq![
        "Name : "@ + entry.name + " "@,
        "Size: "@ + entry.size + " Mb"@,
        "Last Modified: "@ + entry.modified,
    ]
}

/// The session after `folder` was loaded: the folder is the one shown, with
/// its listing. Where its root could be opened the description is that of its
/// summary and the drive report is shown; where not, each says so in a line.
pub open spec fn loaded(s: SessionView, folder: FolderView) -> SessionView {
    SessionView {
        selected_path: Some(folder.path),
        listing: listing(folder.walk),
        description: if root_unreadable(folder.walk) {
            seq!["Failed to compute folder stats"@]
        } else {
            stats_lines(stats_of(folder.root_name, folder.walk))
        },
        total: if root_unreadable(folder.walk) {
            seq!["Failed to compute total stats"@]
        } else {
            stand_in_lines()
        },
        path_name: folder.path,
        ..s
    }
}

/// The session after the folder dialog closed. With a folder chosen, the
/// session turns to the folder page, loads the folder and takes it as its
/// root. With none chosen it stays as it was.
pub open spec fn folder_chosen(s: SessionView, picked: Option<FolderView>) -> SessionView {
    match picked {
        Some(folder) => SessionView {
            current_page: Page::Normal,
            usage_hundredths: used_share(Ok(STAND_IN_TOTAL), Ok(STAND_IN_FREE)) as u32,
            root_path: Some(folder.path),
            ..loaded(s, folder)
        },
        None => s,
    }
}

/// Whether a click at `now` follows the click before it closely enough to
/// make a double click.
pub open spec fn is_double_click(last_click: Option<u64>, now: u64) -> bool {
    match last_click {
        Some(before) => now < before || now - before < DOUBLE_CLICK_MS,
        None => false,
    }
}

/// The session after a click at `now` on the entry at `index`.
///
/// A click beside the listing changes nothing. Any other click is
/// remembered with its time. The first click of a session does no more. A
/// double click on a file shows the file's description; one on a folder
/// leaves the entering to the caller. A single click selects the entry.
pub open spec fn item_clicked(s: SessionView, index: usize, now: u64) -> SessionView {
    if index >= s.listing.len() {
        s
    } else if s.last_click is None {
        SessionView { last_click: Some(now), ..s }
    } else if is_double_click(s.last_click, now) {
        if s.listing[index as int].is_folder {
            SessionView { last_click: Some(now), ..s }
        } else {
            SessionView {
                description: file_lines(s.listing[index as int]),
                last_click: Some(now),
                ..s
            }
        }
    } else {
        SessionView { selected_index: Some(index), last_click: Some(now), ..s }
    }
}

/// What a click at `now` on the entry at `index` leaves to the caller: to
/// enter the folder, after a double click on a folder while a folder is
/// shown, and nothing otherwise.
pub open spec fn click_action(s: SessionView, index: usize, now: u64) -> ActionView {
    if index < s.listing.len() && is_double_click(s.last_click, now) && s.listing[index as int].is_folder
        && s.selected_path is Some {
        ActionView::Enter { base: s.selected_path.unwrap(), name: s.listing[index as int].name }
    } else {
        ActionView::Stay
    }
}

/// Whether the session may go up: a folder is shown and it is not the root.
pub open spec fn below_root(s: SessionView) -> bool {
    s.selected_path is Some && s.root_path is Some && s.selected_path.unwrap()
        != s.root_path.unwrap()
}

fn labelled(label: &str, text: &str) -> (line: String)
    ensures
        line@ == label@ + text@,
{
    let mut line = label.to_owned();
    line.append(text);
    line
}

fn labelled_count(label: &str, count: usize) -> (line: String)
    ensures
        line@ == label@ + decimal(count as nat),
{
    let mut line = label.to_owned();
    push_decimal(&mut line, count as u64);
    line
}

/// Describes a folder's summary in seven lines: name, total size, allocated
/// size, the three counts and the latest modification.
pub fn describe_stats(stats: &FolderStats) -> (lines: Vec<String>)
    ensures
        lines_view(lines@) == stats_lines(stats@),
{
    let mut lines: Vec<String> = Vec::new();
    lines.push(labelled("Name: ", stats.file_name.as_str()));
    lines.push(labelled("Total size: ", stats.total_size.as_str()));
    lines.push(labelled("Allocated size: ", stats.allocated_size.as_str()));
    lines.push(labelled_count("Item count: ", stats.item_count));
    lines.push(labelled_count("File count: ", stats.file_count));
    lines.push(labelled_count("Subdirectory count: ", stats.subdir_count));
    lines.push(labelled("Last modified: ", stats.last_modified.as_str()));
    assert(lines_view(lines@) =~= stats_lines(stats@));
    lines
}

/// Describes a file of the listing in three lines: name, size and last
/// modification.
pub fn describe_file(entry: &FileEntry) -> (lines: Vec<String>)
    ensures
        lines_view(lines@) == file_lines(entry@),
{
    let mut lines: Vec<String> = Vec::new();
    let mut name = labelled("Name : ", entry.name.as_str());
    name.append(" ");
    let mut size = labelled("Size: ", entry.size.as_str());
    size.append(" Mb");
    lines.push(name);
    lines.push(size);
    lines.push(labelled("Last Modified: ", entry.modified.as_str()));
    assert(lines_view(lines@) =~= file_lines(entry@));
    lines
}

fn one_line(text: &str) -> (lines: Vec<String>)
    ensures
        lines_view(lines@) == seq![text@],
{
    let mut lines: Vec<String> = Vec::new();
    lines.push(text.to_owned());
    assert(lines_view(lines@) =~= seq![text@]);
    lines
}

impl Session {
    /// A session on its start page, with nothing chosen and nothing shown.
    pub fn new() -> (session: Session)
        ensures
            session@ == initial(),
    {
        let session = Session {
            selected_path: None,
            listing: Vec::new(),
            description: Vec::new(),
            total: Vec::new(),
            usage_hundredths: 0,
            path_name: String::new(),
            current_page: Page::Home,
            root_path: None,
            selected_index: None,
            last_click: None,
        };
        assert(session@.listing =~= Seq::<EntryView>::empty());
        assert(session@.description =~= Seq::<Seq<char>>::empty());
        assert(session@.total =~= Seq::<Seq<char>>::empty());
        session
    }

    /// Shows `folder`: its listing, the description of its summary, and the
    /// drive report. Where the folder's root could not be opened, the
    /// description and the report each say so in one line, and the listing
    /// is empty.
    ///
    /// The sizes in the walk must add up to less than 2^64.
    pub fn load_folder_contents(&mut self, folder: &Folder)
        requires
            total_bytes(walk_view(folder.walk@)) <= u64::MAX,
        ensures
            final(self)@ == loaded(old(self)@, folder@),
    {
        self.selected_path = Some(folder.path.clone());
        let root_name: Option<&str> = match &folder.root_name {
            Some(name) => Some(name.as_str()),
            None => None,
        };
        match compute_folder_stats(root_name, &folder.walk) {
            Some(stats) => {
                self.description = describe_stats(&stats);
                let report = drive_usage(folder.path.as_str());
                self.total = report.0;
            },
            None => {
                self.description = one_line("Failed to compute folder stats");
                self.total = one_line("Failed to compute total stats");
            },
        }
        self.listing = scan_directory(&folder.walk);
        self.path_name = folder.path.clone();
    }

    /// Takes the answer of the folder dialog. A chosen folder becomes the
    /// root of the session and is shown on the folder page. Where the dialog
    /// was dismissed the session stays exactly as it was, and the result is
    /// the notice to print.
    ///
    /// The sizes in the walk must add up to less than 2^64.
    pub fn folder_selected(&mut self, picked: Option<&Folder>) -> (notice: Option<String>)
        requires
            picked matches Some(folder) ==> total_bytes(walk_view(folder.walk@)) <= u64::MAX,
        ensures
            final(self)@ == folder_chosen(
                old(self)@,
                match picked {
                    Some(folder) => Some(folder@),
                    None => None,
                },
            ),
            picked is None ==> *final(self) == *old(self),
            match notice {
                Some(text) => picked is None && text@ == "No folder selected."@,
                None => picked is Some,
            },
    {
        match picked {
            Some(folder) => {
                self.current_page = Page::Normal;
                let report = drive_usage(folder.path.as_str());
                self.usage_hundredths = report.1;
                self.load_folder_contents(folder);
                self.root_path = Some(folder.path.clone());
                None
            },
            None => Some("No folder selected.".to_owned()),
        }
    }

    /// Selects the entry at `index`.
    pub fn select_file(&mut self, index: usize)
        ensures
            final(self)@ == (SessionView { selected_index: Some(index), ..old(self)@ }),
    {
        self.selected_index = Some(index);
    }

    /// Takes a click at the time `now`, in milliseconds, on the entry at
    /// `index`, and tells what is left to the caller.
    pub fn select_item(&mut self, index: usize, now: u64) -> (action: ItemAction)
        ensures
            final(self)@ == item_clicked(old(self)@, index, now),
            action@ == click_action(old(self)@, index, now),
    {
        if index >= self.listing.len() {
            return ItemAction::Stay;
        }
        let mut action = ItemAction::Stay;
        match self.last_click {
            Some(before) => {
                if now < before || now - before < DOUBLE_CLICK_MS {
                    if self.listing[index].is_folder {
                        match &self.selected_path {
                            Some(base) => {
                                action = ItemAction::Enter {
                                    base: base.clone(),
                                    name: self.listing[index].name.clone(),
                                };
                            },
                            None => {},
                        }
                    } else {
                        self.description = describe_file(&self.listing[index]);
                    }
                } else {
                    self.selected_index = Some(index);
                }
            },
            None => {},
        }
        self.last_click = Some(now);
        action
    }

    /// Whether the session may go up to the parent of the folder that is
    /// shown: a folder is shown, and it is not the root of the session.
    pub fn may_go_back(&self) -> (may: bool)
        ensures
            may == below_root(self@),
    {
        match &self.selected_path {
            Some(current) => match &self.root_path {
                Some(root) => !(*current == *root),
                None => false,
            },
            None => false,
        }
    }

    /// The folder against which the name of an entry is resolved when the
    /// entry is to be opened or deleted, or the notice to print where no
    /// folder is shown.
    pub fn request_base(&self) -> (base: Result<String, String>)
        ensures
            match base {
                Ok(path) => self@.selected_path == Some(path@),
                Err(notice) => self@.selected_path is None && notice@
                    == "Selected path is not set."@,
            },
    {
        match &self.selected_path {
            Some(path) => Ok(path.clone()),
            None => Err("Selected path is not set.".to_owned()),
        }
    }

    /// Takes the outcome of deleting the file at `path`. After a deletion
    /// that succeeded the entries with that path leave the listing; after one
    /// that failed the session stays exactly as it was and the result is the
    /// report of the failure.
    pub fn file_deleted(&mut self, path: &str, outcome: Result<(), String>) -> (report: Option<
        String,
    >)
        ensures
            match outcome {
                Ok(_) => report is None && final(self)@ == (SessionView {
                    listing: without_path(old(self)@.listing, path@),
                    ..old(self)@
                }),
                Err(reason) => *final(self) == *old(self) && report is Some && report.unwrap()@
                    == delete_failure_text(reason@),
            },
    {
        settle_delete(&mut self.listing, path, outcome)
    }
}

} // verus!
