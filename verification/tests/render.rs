use branch_browser::layout::{compute_panes, Rect};
use branch_browser::render::{DisplayLine, Pane, Screen};
use branch_browser::state::App;

fn names(list: &[&str]) -> Vec<String> {
    list.iter().map(|name| name.to_string()).collect()
}

fn rect(x: u16, y: u16, width: u16, height: u16) -> Rect {
    Rect { x, y, width, height }
}

fn line(text: &str, emphasized: bool) -> DisplayLine {
    DisplayLine { text: text.to_string(), emphasized }
}

fn render_at_fixed_places(app: &App) -> Screen {
    app.render(rect(0, 0, 50, 100), rect(51, 0, 50, 100), rect(102, 0, 50, 100))
}

#[test]
fn render_marks_the_cursor_row() {
    let app = App::init(names(&["main", "dev", "feature-x"]));
    let screen = render_at_fixed_places(&app);
    assert_eq!(
        screen.branches.lines,
        vec![line("\u{25BA} main", false), line("  dev", false), line("  feature-x", false)]
    );
}

#[test]
fn render_marker_is_two_characters() {
    let mut app = App::init(names(&["main", "dev"]));
    app.move_cursor_next();
    let screen = render_at_fixed_places(&app);
    let texts: Vec<Vec<char>> =
        screen.branches.lines.iter().map(|l| l.text.chars().collect()).collect();
    assert_eq!(texts[0], vec![' ', ' ', 'm', 'a', 'i', 'n']);
    assert_eq!(texts[1], vec!['\u{25BA}', ' ', 'd', 'e', 'v']);
}

#[test]
fn render_emphasizes_the_selected_row_apart_from_the_cursor() {
    let mut app = App::init(names(&["main", "dev", "feature-x"]));
    app.move_cursor_next();
    app.confirm_selection();
    app.move_cursor_next();
    let screen = render_at_fixed_places(&app);
    assert_eq!(
        screen.branches.lines,
        vec![line("  main", false), line("  dev", true), line("\u{25BA} feature-x", false)]
    );
}

#[test]
fn render_selected_row_under_the_cursor() {
    let mut app = App::init(names(&["main", "dev"]));
    app.confirm_selection();
    let screen = render_at_fixed_places(&app);
    assert_eq!(screen.branches.lines, vec![line("\u{25BA} main", true), line("  dev", false)]);
}

#[test]
fn render_empty_repository_has_no_rows() {
    let mut app = App::init(Vec::new());
    app.move_cursor_next();
    app.confirm_selection();
    let screen = render_at_fixed_places(&app);
    assert!(screen.branches.lines.is_empty());
    assert_eq!(screen.branches.title, "Branches");
}

#[test]
fn render_placeholder_panes() {
    let app = App::init(names(&["main"]));
    let screen = render_at_fixed_places(&app);
    assert_eq!(
        screen.commits,
        Pane {
            area: rect(51, 0, 50, 100),
            title: "Commits".to_string(),
            lines: vec![line("Commits content placeholder", false)],
        }
    );
    assert_eq!(
        screen.commit_info,
        Pane {
            area: rect(102, 0, 50, 100),
            title: "Commit info".to_string(),
            lines: vec![line("Commit info placeholder", false)],
        }
    );
}

#[test]
fn render_placeholders_do_not_depend_on_the_state() {
    let mut app = App::init(names(&["main", "dev"]));
    let before = render_at_fixed_places(&app);
    app.move_cursor_next();
    app.confirm_selection();
    app.exit();
    let after = render_at_fixed_places(&app);
    assert_eq!(before.commits, after.commits);
    assert_eq!(before.commit_info, after.commit_info);
    assert_ne!(before.branches, after.branches);
}

#[test]
fn render_puts_each_pane_at_the_given_place() {
    let app = App::init(names(&["main"]));
    let screen = app.render(rect(1, 2, 3, 4), rect(5, 6, 7, 8), rect(9, 10, 11, 12));
    assert_eq!(screen.branches.area, rect(1, 2, 3, 4));
    assert_eq!(screen.commits.area, rect(5, 6, 7, 8));
    assert_eq!(screen.commit_info.area, rect(9, 10, 11, 12));
    assert_eq!(screen.branches.title, "Branches");
}

#[test]
fn render_twice_gives_the_same_screen_and_leaves_the_state() {
    let mut app = App::init(names(&["main", "dev"]));
    app.move_cursor_next();
    app.confirm_selection();
    let first = render_at_fixed_places(&app);
    let second = render_at_fixed_places(&app);
    assert_eq!(first, second);
    assert_eq!(app.cursor_index(), 1);
    assert_eq!(app.selected_index(), Some(1));
    assert!(!app.exit_requested());
    assert_eq!(app.branches(), &names(&["main", "dev"]));
}

#[test]
fn draw_renders_into_the_computed_panes() {
    let mut app = App::init(names(&["main", "dev"]));
    app.move_cursor_next();
    let area = rect(4, 2, 80, 24);
    let (branch_rect, commit_rect, info_rect) = compute_panes(area);
    assert_eq!(app.draw(area), app.render(branch_rect, commit_rect, info_rect));
    let screen = app.draw(area);
    assert_eq!(screen.branches.area, rect(4, 2, 50, 100));
    assert_eq!(screen.commits.area, rect(55, 2, 50, 100));
    assert_eq!(screen.commit_info.area, rect(106, 2, 50, 100));
    assert_eq!(screen.branches.lines, vec![line("  main", false), line("\u{25BA} dev", false)]);
}
