//! Where the panes of the screen go. The areas are split by ratatui's layout
//! solver; the library decides what is split, in which direction, and by
//! which constraints.

use vstd::prelude::*;
use crate::view::{commands_pane_heights, min_u16, saturating_diff, Area, DETAILS_HEIGHT};

verus! {

/// The direction in which an area is split.
#[derive(PartialEq, Eq, Structural, Clone, Copy, Debug)]
pub enum Direction {
    Horizontal,
    Vertical,
}

/// How large one part of a split should be.
#[derive(PartialEq, Eq, Structural, Clone, Copy, Debug)]
pub enum Constraint {
    /// Exactly this many cells.
    Length(u16),
    /// At least this many cells.
    Min(u16),
}

/// The width of the categories sidebar.
pub const SIDEBAR_WIDTH: u16 = 26;

/// The height of the search bar above the command list.
pub const SEARCH_HEIGHT: u16 = 2;

/// The width of the result count beside the search text.
pub const RESULT_COUNT_WIDTH: u16 = 15;

/// The least width of the key hints in the status bar.
pub const STATUS_KEYS_MIN_WIDTH: u16 = 85;

/// The parts into which ratatui's `Layout::split` cuts `area` in the given
/// direction by the given constraints.
pub uninterp spec fn ratatui_split(area: Area, direction: Direction, constraints: Seq<Constraint>) -> Seq<Area>;

/// `ratatui::layout::Layout::split` with the default margin, spacing and
/// flex: one part per constraint, each spanning the whole area across the
/// direction of the split. Where the parts lie along the direction is what
/// ratatui's constraint solver computes, and is only named here.
#[verifier::external_body]
fn split(area: Area, direction: Direction, constraints: &Vec<Constraint>) -> (r: Vec<Area>)
    ensures
        r@ == ratatui_split(area, direction, constraints@),
        r@.len() == constraints@.len(),
        forall|i: int|
            0 <= i < r@.len() ==> (direction == Direction::Vertical ==> (#[trigger] r@[i]).x
                == area.x && r@[i].width == area.width) && (direction == Direction::Horizontal
                ==> r@[i].y == area.y && r@[i].height == area.height),
{
    let direction = match direction {
        Direction::Horizontal => ratatui::layout::Direction::Horizontal,
        Direction::Vertical => ratatui::layout::Direction::Vertical,
    };
    let parts = constraints.iter().map(|c| match *c {
        Constraint::Length(n) => ratatui::layout::Constraint::Length(n),
        Constraint::Min(n) => ratatui::layout::Constraint::Min(n),
    });
    let rect = ratatui::layout::Rect { x: area.x, y: area.y, width: area.width, height: area.height };
    let rects = ratatui::layout::Layout::default().direction(direction).constraints(parts).split(rect);
    rects.iter().map(|r| Area { x: r.x, y: r.y, width: r.width, height: r.height }).collect()
}

/// Splits `area` into two parts.
fn split_two(area: Area, direction: Direction, first: Constraint, second: Constraint) -> (r: (
    Area,
    Area,
))
    ensures
        r.0 == ratatui_split(area, direction, seq![first, second])[0],
        r.1 == ratatui_split(area, direction, seq![first, second])[1],
{
    let parts = split(area, direction, &vec![first, second]);
    (parts[0], parts[1])
}

/// The areas of the main screen.
pub struct ScreenLayout {
    pub sidebar: Area,
    pub commands: Area,
    pub status: Area,
}

/// The main screen inside its border: a one-row status bar at the bottom,
/// and above it the sidebar of `SIDEBAR_WIDTH` columns beside the commands.
pub fn screen_layout(inner: Area) -> (r: ScreenLayout)
    ensures
        ({
            let rows = ratatui_split(
                inner,
                Direction::Vertical,
                seq![Constraint::Min(0), Constraint::Length(1)],
            );
            let columns = ratatui_split(
                rows[0],
                Direction::Horizontal,
                seq![Constraint::Length(SIDEBAR_WIDTH), Constraint::Min(0)],
            );
            &&& r.status == rows[1]
            &&& r.sidebar == columns[0]
            &&& r.commands == columns[1]
        }),
{
    let (main, status) = split_two(inner, Direction::Vertical, Constraint::Min(0), Constraint::Length(1));
    let (sidebar, commands) = split_two(
        main,
        Direction::Horizontal,
        Constraint::Length(SIDEBAR_WIDTH),
        Constraint::Min(0),
    );
    ScreenLayout { sidebar, commands, status }
}

/// The commands pane: the list above the details of the selected command,
/// with the heights that `commands_pane_heights` gives.
pub fn commands_pane_layout(area: Area) -> (r: (Area, Area))
    ensures
        ({
            let details = min_u16(DETAILS_HEIGHT, saturating_diff(area.height, 4));
            let parts = ratatui_split(
                area,
                Direction::Vertical,
                seq![
                    Constraint::Length((area.height - details) as u16),
                    Constraint::Length(details),
                ],
            );
            r.0 == parts[0] && r.1 == parts[1]
        }),
{
    let (list_h, details_h) = commands_pane_heights(area.height);
    split_two(area, Direction::Vertical, Constraint::Length(list_h), Constraint::Length(details_h))
}

/// The command list: the search bar of `SEARCH_HEIGHT` rows above the list.
pub fn command_list_layout(area: Area) -> (r: (Area, Area))
    ensures
        r.0 == ratatui_split(
            area,
            Direction::Vertical,
            seq![Constraint::Length(SEARCH_HEIGHT), Constraint::Min(0)],
        )[0],
        r.1 == ratatui_split(
            area,
            Direction::Vertical,
            seq![Constraint::Length(SEARCH_HEIGHT), Constraint::Min(0)],
        )[1],
{
    split_two(area, Direction::Vertical, Constraint::Length(SEARCH_HEIGHT), Constraint::Min(0))
}

/// The search bar: the query beside the result count of
/// `RESULT_COUNT_WIDTH` columns.
pub fn search_bar_layout(area: Area) -> (r: (Area, Area))
    ensures
        r.0 == ratatui_split(
            area,
            Direction::Horizontal,
            seq![Constraint::Min(0), Constraint::Length(RESULT_COUNT_WIDTH)],
        )[0],
        r.1 == ratatui_split(
            area,
            Direction::Horizontal,
            seq![Constraint::Min(0), Constraint::Length(RESULT_COUNT_WIDTH)],
        )[1],
{
    split_two(area, Direction::Horizontal, Constraint::Min(0), Constraint::Length(RESULT_COUNT_WIDTH))
}

/// The status bar: the key hints, at least `STATUS_KEYS_MIN_WIDTH` columns,
/// beside the status message.
pub fn status_bar_layout(area: Area) -> (r: (Area, Area))
    ensures
        r.0 == ratatui_split(
            area,
            Direction::Horizontal,
            seq![Constraint::Min(STATUS_KEYS_MIN_WIDTH), Constraint::Min(0)],
        )[0],
        r.1 == ratatui_split(
            area,
            Direction::Horizontal,
            seq![Constraint::Min(STATUS_KEYS_MIN_WIDTH), Constraint::Min(0)],
        )[1],
{
    split_two(
        area,
        Direction::Horizontal,
        Constraint::Min(STATUS_KEYS_MIN_WIDTH),
        Constraint::Min(0),
    )
}

/// The details of the selected command: one row each for the command, its
/// description and its note, and the rest for its examples.
pub fn details_layout(area: Area) -> (r: Vec<Area>)
    ensures
        r@ == ratatui_split(
            area,
            Direction::Vertical,
            seq![
                Constraint::Length(1),
                Constraint::Length(1),
                Constraint::Length(1),
                Constraint::Min(0),
            ],
        ),
        r@.len() == 4,
{
    split(
        area,
        Direction::Vertical,
        &vec![
            Constraint::Length(1),
            Constraint::Length(1),
            Constraint::Length(1),
            Constraint::Min(0),
        ],
    )
}

} // verus!
