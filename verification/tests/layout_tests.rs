use git_cheatsheet::layout::{
    command_list_layout, commands_pane_layout, details_layout, screen_layout, search_bar_layout,
    status_bar_layout,
};
use git_cheatsheet::view::Area;
use ratatui::layout::{Constraint, Direction, Layout, Rect};

fn area(x: u16, y: u16, width: u16, height: u16) -> Area {
    Area { x, y, width, height }
}

fn ratatui_parts(a: Area, direction: Direction, constraints: Vec<Constraint>) -> Vec<Area> {
    let rect = Rect { x: a.x, y: a.y, width: a.width, height: a.height };
    Layout::default()
        .direction(direction)
        .constraints(constraints)
        .split(rect)
        .iter()
        .map(|r| area(r.x, r.y, r.width, r.height))
        .collect()
}

#[test]
fn screen_splits_into_sidebar_commands_and_status() {
    let screen = screen_layout(area(1, 1, 98, 38));
    assert_eq!(screen.status, area(1, 38, 98, 1));
    assert_eq!(screen.sidebar, area(1, 1, 26, 37));
    assert_eq!(screen.commands, area(27, 1, 72, 37));
}

#[test]
fn commands_pane_keeps_details_below_the_list() {
    assert_eq!(commands_pane_layout(area(27, 1, 72, 37)), (area(27, 1, 72, 28), area(27, 29, 72, 9)));
    assert_eq!(commands_pane_layout(area(0, 0, 40, 3)), (area(0, 0, 40, 3), area(0, 3, 40, 0)));
}

#[test]
fn command_list_has_search_bar_on_top() {
    assert_eq!(command_list_layout(area(0, 0, 50, 20)), (area(0, 0, 50, 2), area(0, 2, 50, 18)));
}

#[test]
fn search_bar_leaves_room_for_the_count() {
    assert_eq!(search_bar_layout(area(0, 0, 50, 1)), (area(0, 0, 35, 1), area(35, 0, 15, 1)));
}

#[test]
fn status_bar_layout_matches_ratatui() {
    let a = area(1, 38, 98, 1);
    let expected = ratatui_parts(a, Direction::Horizontal, vec![Constraint::Min(85), Constraint::Min(0)]);
    let (keys, message) = status_bar_layout(a);
    assert_eq!(vec![keys, message], expected);
    assert_eq!(keys.width + message.width, 98);
}

#[test]
fn details_have_four_rows() {
    let parts = details_layout(area(0, 10, 60, 8));
    assert_eq!(parts, vec![area(0, 10, 60, 1), area(0, 11, 60, 1), area(0, 12, 60, 1), area(0, 13, 60, 5)]);
}
