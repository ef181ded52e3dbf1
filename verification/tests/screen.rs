use support_tools::app::App;
use support_tools::layout::{split_within, Constraint, Direction, Rect};
use support_tools::scene::{column_constraints, row_constraints, Alignment, Color, Emphasis};

fn rect(x: u16, y: u16, width: u16, height: u16) -> Rect {
    Rect { x, y, width, height }
}

fn inside(outer: Rect, inner: Rect) -> bool {
    outer.x <= inner.x
        && inner.x as u32 + inner.width as u32 <= outer.x as u32 + outer.width as u32
        && outer.y <= inner.y
        && inner.y as u32 + inner.height as u32 <= outer.y as u32 + outer.height as u32
}

#[test]
fn draw_lays_out_title_body_and_footer() {
    let scene = App::new().draw(rect(0, 0, 80, 24));
    assert_eq!(scene.title_area, rect(0, 0, 80, 1));
    assert_eq!(scene.commands_area, rect(0, 1, 40, 22));
    assert_eq!(scene.details_area, rect(40, 1, 40, 22));
    assert_eq!(scene.footer_area, rect(0, 23, 80, 1));
}

#[test]
fn draw_lays_out_an_area_that_does_not_start_at_the_origin() {
    let scene = App::new().draw(rect(4, 2, 20, 10));
    assert_eq!(scene.title_area, rect(4, 2, 20, 1));
    assert_eq!(scene.commands_area, rect(4, 3, 10, 8));
    assert_eq!(scene.details_area, rect(14, 3, 10, 8));
    assert_eq!(scene.footer_area, rect(4, 11, 20, 1));
}

#[test]
fn draw_shows_the_fixed_texts() {
    let scene = App::new().draw(rect(0, 0, 80, 24));
    assert_eq!(scene.title.text, "Support Tools");
    assert_eq!(scene.title.color, Color::Blue);
    assert!(scene.title.bold);
    assert_eq!(scene.title.alignment, Alignment::Center);
    assert_eq!(scene.footer.text, "Press `q` to quit the tool.");
    assert_eq!(scene.footer.color, Color::Default);
    assert!(!scene.footer.bold);
    assert_eq!(scene.footer.alignment, Alignment::Center);
}

#[test]
fn draw_shows_the_commands_with_the_selection() {
    let mut app = App::new();
    app.select_next();
    let scene = app.draw(rect(0, 0, 80, 24));
    assert_eq!(scene.commands.title, "Commands");
    assert_eq!(scene.commands.items, vec!["Fix apt/dpkg", "Item 2", "Item 3"]);
    assert_eq!(scene.commands.selected, Some(1));
    assert_eq!(scene.commands.marker, ">> ");
    assert_eq!(scene.commands.color, Color::White);
    assert_eq!(scene.commands.emphasis, Emphasis::Bold);
}

#[test]
fn draw_shows_the_details_without_a_selection() {
    let mut app = App::new();
    app.select_next();
    let scene = app.draw(rect(0, 0, 80, 24));
    assert_eq!(scene.details.title, "Details");
    assert_eq!(scene.details.items, vec!["Fix apt/dpkg", "Item 2", "Item 3"]);
    assert_eq!(scene.details.selected, None);
    assert_eq!(scene.details.marker, ">>");
    assert_eq!(scene.details.color, Color::White);
    assert_eq!(scene.details.emphasis, Emphasis::Italic);
}

#[test]
fn draw_follows_the_selection() {
    let mut app = App::new();
    for expected in [Some(0), Some(1), Some(2), Some(2)] {
        assert_eq!(app.draw(rect(0, 0, 40, 12)).commands.selected, expected);
        app.select_next();
    }
}

#[test]
fn draw_does_not_change_the_state() {
    let app = App::new();
    let before = app.clone();
    let first = app.draw(rect(0, 0, 80, 24));
    let second = app.draw(rect(0, 0, 80, 24));
    assert_eq!(app, before);
    assert_eq!(first, second);
}

#[test]
fn draw_keeps_every_widget_inside_the_area() {
    let areas = [
        rect(0, 0, 0, 0),
        rect(0, 0, 1, 1),
        rect(0, 0, 80, 1),
        rect(0, 0, 80, 2),
        rect(0, 0, 81, 3),
        rect(3, 5, 7, 9),
        rect(0, 0, 1, 200),
        rect(65000, 65000, 500, 500),
        rect(0, 0, 65535, 65535),
    ];
    for area in areas {
        let scene = App::new().draw(area);
        for part in [scene.title_area, scene.commands_area, scene.details_area, scene.footer_area] {
            assert!(inside(area, part));
        }
        assert_eq!((scene.title_area.x, scene.title_area.width), (area.x, area.width));
        assert_eq!((scene.footer_area.x, scene.footer_area.width), (area.x, area.width));
        assert_eq!(scene.commands_area.y, scene.details_area.y);
        assert_eq!(scene.commands_area.height, scene.details_area.height);
    }
}

#[test]
fn compose_puts_the_widgets_where_it_is_told() {
    let app = App::with_items(vec!["one".to_string(), "two".to_string()]);
    let scene = app.compose(rect(0, 0, 10, 1), rect(0, 1, 5, 3), rect(5, 1, 5, 3), rect(0, 4, 10, 1));
    assert_eq!(scene.title_area, rect(0, 0, 10, 1));
    assert_eq!(scene.commands_area, rect(0, 1, 5, 3));
    assert_eq!(scene.details_area, rect(5, 1, 5, 3));
    assert_eq!(scene.footer_area, rect(0, 4, 10, 1));
    assert_eq!(scene.commands.items, vec!["one", "two"]);
    assert_eq!(scene.commands.selected, Some(0));
    assert_eq!(scene.details.items, vec!["one", "two"]);
    assert_eq!(scene.title.text, "Support Tools");
}

#[test]
fn compose_of_an_empty_list_selects_nothing() {
    let app = App::with_items(Vec::new());
    let scene = app.compose(rect(0, 0, 1, 1), rect(0, 0, 1, 1), rect(0, 0, 1, 1), rect(0, 0, 1, 1));
    assert!(scene.commands.items.is_empty());
    assert_eq!(scene.commands.selected, None);
}

#[test]
fn the_rows_and_columns_that_are_asked_for() {
    assert_eq!(
        row_constraints(),
        vec![Constraint::Length(1), Constraint::Min(0), Constraint::Length(1)]
    );
    assert_eq!(column_constraints(), vec![Constraint::Fill(1), Constraint::Fill(1)]);
}

#[test]
fn clip_keeps_what_lies_inside() {
    let bounds = rect(10, 20, 30, 40);
    assert_eq!(rect(10, 20, 30, 40).clip(bounds), rect(10, 20, 30, 40));
    assert_eq!(rect(15, 25, 5, 5).clip(bounds), rect(15, 25, 5, 5));
    assert_eq!(rect(40, 60, 0, 0).clip(bounds), rect(40, 60, 0, 0));
}

#[test]
fn clip_cuts_off_what_lies_outside() {
    let bounds = rect(10, 20, 30, 40);
    assert_eq!(rect(0, 0, 100, 100).clip(bounds), rect(10, 20, 30, 40));
    assert_eq!(rect(5, 25, 10, 5).clip(bounds), rect(10, 25, 5, 5));
    assert_eq!(rect(35, 55, 10, 10).clip(bounds), rect(35, 55, 5, 5));
    assert_eq!(rect(0, 0, 5, 5).clip(bounds), rect(10, 20, 0, 0));
    assert_eq!(rect(50, 70, 5, 5).clip(bounds), rect(40, 60, 0, 0));
    assert_eq!(rect(15, 0, 5, 5).clip(bounds), rect(15, 20, 5, 0));
}

#[test]
fn clip_at_the_edge_of_the_coordinates() {
    let bounds = rect(65000, 65000, 65535, 65535);
    assert_eq!(rect(65535, 65535, 65535, 65535).clip(bounds), rect(65535, 65535, 65000, 65000));
    assert_eq!(rect(0, 0, 65535, 65535).clip(bounds), rect(65000, 65000, 535, 535));
    assert_eq!(rect(0, 0, 65535, 65535).clip(rect(0, 0, 0, 0)), rect(0, 0, 0, 0));
}

#[test]
fn split_within_gives_one_part_for_each_constraint() {
    let whole = rect(0, 0, 30, 10);
    let rows = split_within(
        Direction::Vertical,
        &vec![Constraint::Length(2), Constraint::Min(0), Constraint::Length(3)],
        whole,
    );
    assert_eq!(rows, vec![rect(0, 0, 30, 2), rect(0, 2, 30, 5), rect(0, 7, 30, 3)]);
    let columns = split_within(
        Direction::Horizontal,
        &vec![Constraint::Fill(1), Constraint::Fill(2)],
        whole,
    );
    assert_eq!(columns, vec![rect(0, 0, 10, 10), rect(10, 0, 20, 10)]);
    assert_eq!(split_within(Direction::Vertical, &Vec::new(), whole), Vec::new());
}

#[test]
fn split_within_keeps_the_parts_inside() {
    for whole in [rect(0, 0, 0, 0), rect(3, 4, 1, 1), rect(7, 9, 11, 2), rect(65000, 65000, 900, 900)] {
        for direction in [Direction::Horizontal, Direction::Vertical] {
            let asked = vec![Constraint::Length(5), Constraint::Min(3), Constraint::Fill(1)];
            let parts = split_within(direction, &asked, whole);
            assert_eq!(parts.len(), 3);
            for part in parts {
                assert!(inside(whole, part));
                match direction {
                    Direction::Horizontal => {
                        assert_eq!((part.y, part.height), (whole.y, whole.height))
                    }
                    Direction::Vertical => assert_eq!((part.x, part.width), (whole.x, whole.width)),
                }
            }
        }
    }
}
