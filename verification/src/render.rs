//! What the three panes show.
//!
//! Rendering turns the state into a description of the screen: for each pane
//! its place, its title and its lines of text. Painting that description onto
//! a terminal is not done here.

use crate::layout::{compute_panes, pane_layout, Rect};
use crate::state::{App, AppView};
use vstd::prelude::*;
use vstd::string::*;

verus! {

/// One line of text inside a pane.
#[derive(Clone, Debug, PartialEq, Eq)]
pub struct DisplayLine {
    /// The characters of the line.
    pub text: String,
    /// Whether the line is to stand out from the others.
    pub emphasized: bool,
}

/// The value a [`DisplayLine`] stands for.
pub struct DisplayLineView {
    pub text: Seq<char>,
    pub emphasized: bool,
}

impl View for DisplayLine {
    type V = DisplayLineView;

    open spec fn view(&self) -> DisplayLineView {
        DisplayLineView { text: self.text@, emphasized: self.emphasized }
    }
}

/// One pane of the dashboard: where it lies, its title and its content.
#[derive(Clone, Debug, PartialEq, Eq)]
pub struct Pane {
    /// The cells the pane occupies, border included.
    pub area: Rect,
    /// The title shown in the border.
    pub title: String,
    /// The content, from the top line down.
    pub lines: Vec<DisplayLine>,
}

/// The value a [`Pane`] stands for.
#[verifier::ext_equal]
pub struct PaneView {
    pub area: Rect,
    pub title: Seq<char>,
    pub lines: Seq<DisplayLineView>,
}

impl View for Pane {
    type V = PaneView;

    open spec fn view(&self) -> PaneView {
        PaneView {
            area: self.area,
            title: self.title@,
            lines: Seq::new(self.lines@.len(), |row: int| self.lines@[row]@),
        }
    }
}

/// The whole dashboard, pane by pane.
#[derive(Clone, Debug, PartialEq, Eq)]
pub struct Screen {
    /// The list of branches.
    pub branches: Pane,
    /// The list of commits.
    pub commits: Pane,
    /// The details of one commit.
    pub commit_info: Pane,
}

/// The value a [`Screen`] stands for.
#[verifier::ext_equal]
pub struct ScreenView {
    pub branches: PaneView,
    pub commits: PaneView,
    pub commit_info: PaneView,
}

impl View for Screen {
    type V = ScreenView;

    open spec fn view(&self) -> ScreenView {
        ScreenView {
            branches: self.branches@,
            commits: self.commits@,
            commit_info: self.commit_info@,
        }
    }
}

/// The two characters in front of a branch name: a pointer and a blank on the
/// row under the cursor, two blanks on every other row.
pub open spec fn marker(at_cursor: bool) -> Seq<char> {
    if at_cursor {
        seq!['\u{25BA}', ' ']
    } else {
        seq![' ', ' ']
    }
}

/// A pane that shows one fixed line of text.
pub open spec fn placeholder_pane(area: Rect, title: Seq<char>, text: Seq<char>) -> PaneView {
    PaneView { area, title, lines: seq![DisplayLineView { text, emphasized: false }] }
}

impl AppView {
    /// The line shown for the branch on row `row`: its marker and its name,
    /// emphasized if it is the confirmed selection.
    pub open spec fn branch_line(self, row: int) -> DisplayLineView {
        DisplayLineView {
            text: marker(row == self.cursor_index) + self.branches[row],
            emphasized: self.selected_index == Some(row as nat),
        }
    }

    /// One line for each branch, in the order of the branches.
    pub open spec fn branch_lines(self) -> Seq<DisplayLineView> {
        Seq::new(self.branches.len(), |row: int| self.branch_line(row))
    }

    /// What the dashboard shows in this state, with its panes at the given
    /// places.
    pub open spec fn rendered(self, branch_rect: Rect, commit_rect: Rect, info_rect: Rect)
        -> ScreenView {
        ScreenView {
            branches: PaneView {
                area: branch_rect,
                title: "Branches"@,
                lines: self.branch_lines(),
            },
            commits: placeholder_pane(commit_rect, "Commits"@, "Commits content placeholder"@),
            commit_info: placeholder_pane(info_rect, "Commit info"@, "Commit info placeholder"@),
        }
    }
}

fn marker_text(at_cursor: bool) -> (text: &'static str)
    ensures
        text@ == marker(at_cursor),
{
    proof {
        reveal_strlit("\u{25BA} ");
        reveal_strlit("  ");
    }
    if at_cursor {
        "\u{25BA} "
    } else {
        "  "
    }
}

fn make_placeholder_pane(area: Rect, title: &str, text: &str) -> (pane: Pane)
    ensures
        pane@ == placeholder_pane(area, title@, text@),
{
    let mut lines: Vec<DisplayLine> = Vec::new();
    lines.push(DisplayLine { text: String::from_str(text), emphasized: false });
    Pane { area, title: String::from_str(title), lines }
}

impl App {
    /// Describes the dashboard for the current state, with the three panes at
    /// the given places.
    ///
    /// The branch pane holds one line per branch: the marker of the row and
    /// the branch name, emphasized on the confirmed row. The other two panes
    /// hold a fixed text. The state is left as it is.
    pub fn render(&self, branch_rect: Rect, commit_rect: Rect, info_rect: Rect) -> (screen: Screen)
        ensures
            screen@ == self@.rendered(branch_rect, commit_rect, info_rect),
    {
        let names = self.branches();
        let cursor = self.cursor_index();
        let selected = self.selected_index();
        let mut lines: Vec<DisplayLine> = Vec::new();
        let mut row: usize = 0;
        while row < names.len()
            invariant
                row <= names.len(),
                names.deep_view() == self@.branches,
                cursor == self@.cursor_index,
                match selected {
                    Some(confirmed) => self@.selected_index == Some(confirmed as nat),
                    None => self@.selected_index is None,
                },
                lines@.len() == row,
                forall|k: int| 0 <= k < row ==> (#[trigger] lines@[k])@ == self@.branch_line(k),
            decreases names.len() - row,
        {
            let emphasized = match selected {
                Some(confirmed) => confirmed == row,
                None => false,
            };
            let text = String::from_str(marker_text(row == cursor)).concat(names[row].as_str());
            lines.push(DisplayLine { text, emphasized });
            row += 1;
        }
        let branches = Pane { area: branch_rect, title: String::from_str("Branches"), lines };
        assert(branches@.lines =~= self@.branch_lines());
        Screen {
            branches,
            commits: make_placeholder_pane(commit_rect, "Commits", "Commits content placeholder"),
            commit_info: make_placeholder_pane(info_rect, "Commit info", "Commit info placeholder"),
        }
    }

    /// Describes the dashboard for the current state inside the drawing area
    /// `area`: lays the panes out, then renders into them.
    pub fn draw(&self, area: Rect) -> (screen: Screen)
        ensures
            screen@ == self@.rendered(
                pane_layout(area).0,
                pane_layout(area).1,
                pane_layout(area).2,
            ),
    {
        let (branch_rect, commit_rect, info_rect) = compute_panes(area);
        self.render(branch_rect, commit_rect, info_rect)
    }
}

/// The branch pane shows one line per branch and none when there is no
/// branch. Each line is the two characters of its marker followed by the
/// name of its branch, and the pointer stands on the row under the cursor
/// and on no other row.
pub proof fn lemma_branch_lines(state: AppView, row: int)
    requires
        0 <= row < state.branches.len(),
    ensures
        state.branch_lines().len() == state.branches.len(),
        state.branch_lines()[row].text.len() == 2 + state.branches[row].len(),
        state.branch_lines()[row].text.subrange(0, 2) == marker(row == state.cursor_index),
        state.branch_lines()[row].text.skip(2) == state.branches[row],
        state.branch_lines()[row].text.first() == '\u{25BA}' <==> row == state.cursor_index,
        state.branch_lines()[row].emphasized <==> state.selected_index == Some(row as nat),
{
    let text = state.branch_lines()[row].text;
    assert(text.subrange(0, 2) =~= marker(row == state.cursor_index));
    assert(text.skip(2) =~= state.branches[row]);
}

} // verus!
