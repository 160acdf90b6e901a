use levorg::app::{App, StatusColor};
use levorg::input::{InputEvent, KeyCode, KeyEvent, Modifiers};
use levorg::layout::{
    both_of_two, centered_area, centering_extents, middle_of_three, middle_part, split_in_two, Area,
    Axis, Extent,
};
use levorg::render::{CursorPlace, OVERLAY_PERCENT_X, OVERLAY_PERCENT_Y};
use std::path::PathBuf;

fn session(text: &str, row: usize, col: usize) -> App {
    let mut app = App::new(PathBuf::from("notes.txt"));
    app.load_content(Ok(text.to_string()));
    app.cursor_row = row;
    app.cursor_col = col;
    app
}

fn asking(text: &str) -> App {
    let mut app = session(text, 0, 0);
    app.dirty = true;
    let quit = KeyEvent::press(KeyCode::Char('q'), Modifiers::ctrl());
    app.life_cycle(InputEvent::Key(quit), 24);
    app
}

fn area(x: u16, y: u16, width: u16, height: u16) -> Area {
    Area { x, y, width, height }
}

fn within(outer: Area, inner: Area) -> bool {
    outer.x <= inner.x
        && outer.y <= inner.y
        && inner.x as u32 + inner.width as u32 <= outer.x as u32 + outer.width as u32
        && inner.y as u32 + inner.height as u32 <= outer.y as u32 + outer.height as u32
}

#[test]
fn frame_is_split_into_text_and_one_row_of_status() {
    let screen = session("abc", 0, 0).render(area(0, 0, 80, 24));
    assert_eq!(screen.text_area, area(0, 0, 80, 23));
    assert_eq!(screen.status_area, area(0, 23, 80, 1));
}

#[test]
fn split_in_two_keeps_position_and_size_across_the_axis() {
    let whole = area(3, 5, 40, 20);
    let (top, bottom) = split_in_two(Axis::Vertical, whole, Extent::Min(0), Extent::Length(1));
    assert_eq!(top, area(3, 5, 40, 19));
    assert_eq!(bottom, area(3, 24, 40, 1));
    let (left, right) =
        split_in_two(Axis::Horizontal, whole, Extent::Percentage(50), Extent::Percentage(50));
    assert_eq!(left, area(3, 5, 20, 20));
    assert_eq!(right, area(23, 5, 20, 20));
}

#[test]
fn split_in_two_of_nothing_is_nothing() {
    let whole = area(7, 9, 0, 0);
    let (top, bottom) = split_in_two(Axis::Vertical, whole, Extent::Min(0), Extent::Length(1));
    assert_eq!(top, area(7, 9, 0, 0));
    assert_eq!(bottom, area(7, 9, 0, 0));
}

#[test]
fn middle_part_takes_its_share() {
    assert_eq!(middle_part(Axis::Horizontal, area(0, 0, 100, 10), 60), area(20, 0, 60, 10));
    assert_eq!(middle_part(Axis::Vertical, area(0, 0, 10, 50), 40), area(0, 15, 10, 20));
    assert_eq!(middle_part(Axis::Vertical, area(2, 4, 10, 50), 100), area(2, 4, 10, 50));
}

#[test]
fn centered_area_lies_in_the_middle() {
    assert_eq!(centered_area(area(0, 0, 100, 50), 60, 40), area(20, 15, 60, 20));
    assert_eq!(centered_area(area(10, 10, 100, 50), 60, 40), area(30, 25, 60, 20));
}

#[test]
fn centered_area_lies_within_the_frame() {
    for (width, height) in [(0, 0), (1, 1), (2, 7), (80, 24), (133, 41), (65535, 65535)] {
        for (x, y) in [(0, 0), (5, 9), (65535, 65535)] {
            for percent in [0, 1, 33, 60, 99, 100] {
                let frame = area(x, y, width, height);
                let centered = centered_area(frame, percent, 100 - percent);
                assert!(centered.x >= frame.x && centered.y >= frame.y);
                let right = (frame.x as u32 + frame.width as u32).min(65535);
                let bottom = (frame.y as u32 + frame.height as u32).min(65535);
                assert!(centered.x as u32 + centered.width as u32 <= right);
                assert!(centered.y as u32 + centered.height as u32 <= bottom);
            }
        }
    }
}

#[test]
fn lines_in_view_start_at_the_scroll_offset() {
    let mut app = session("0\n1\n2\n3\n4\n5", 2, 0);
    app.scroll_row = 2;
    assert_eq!(app.render(area(0, 0, 80, 3)).lines, vec!["2", "3", "4"]);
    assert_eq!(app.visible_lines(3), vec!["2", "3", "4"]);
}

#[test]
fn lines_in_view_end_with_the_document() {
    let mut app = session("0\n1\n2\n3\n4\n5", 4, 0);
    app.scroll_row = 4;
    assert_eq!(app.render(area(0, 0, 80, 24)).lines, vec!["4", "5"]);
    assert_eq!(app.visible_lines(usize::MAX), vec!["4", "5"]);
    app.scroll_row = 6;
    assert_eq!(app.visible_lines(5), Vec::<String>::new());
    app.scroll_row = usize::MAX;
    assert_eq!(app.visible_lines(usize::MAX), Vec::<String>::new());
}

#[test]
fn no_lines_are_in_view_in_a_frame_without_rows() {
    let app = session("0\n1", 0, 0);
    assert_eq!(app.render(area(0, 0, 80, 0)).lines, Vec::<String>::new());
}

#[test]
fn status_is_shown_as_it_stands() {
    let mut app = session("abc", 0, 0);
    let screen = app.render(area(0, 0, 80, 24));
    assert_eq!(screen.status_message, "");
    assert_eq!(screen.status_color, StatusColor::Neutral);
    app.save_finished(Ok(()));
    let screen = app.render(area(0, 0, 80, 24));
    assert_eq!(screen.status_message, "Saved");
    assert_eq!(screen.status_color, StatusColor::Success);
    app.save_finished(Err("disk full".to_string()));
    let screen = app.render(area(0, 0, 80, 24));
    assert_eq!(screen.status_message, "disk full");
    assert_eq!(screen.status_color, StatusColor::Error);
}

#[test]
fn cursor_is_placed_by_its_distance_from_the_scroll_offset() {
    let mut app = session("0\n1\n2\n3 and more\n4", 3, 5);
    app.scroll_row = 2;
    assert_eq!(app.render(area(0, 0, 80, 24)).cursor, Some(CursorPlace { x: 5, y: 1 }));
    assert_eq!(app.cursor_place(), Some(CursorPlace { x: 5, y: 1 }));
    app.scroll_col = 2;
    assert_eq!(app.cursor_place(), Some(CursorPlace { x: 3, y: 1 }));
}

#[test]
fn cursor_has_no_place_before_the_scroll_offset() {
    let mut app = session("0\n1\n2\n3 and more\n4", 3, 5);
    app.scroll_row = 4;
    assert_eq!(app.cursor_place(), None);
    app.scroll_row = 0;
    app.scroll_col = 6;
    assert_eq!(app.cursor_place(), None);
}

#[test]
fn cursor_has_no_place_under_the_exit_question() {
    let app = asking("abc");
    let screen = app.render(area(0, 0, 80, 24));
    assert_eq!(screen.cursor, None);
    assert!(screen.overlay.is_some());
}

#[test]
fn no_overlay_while_editing() {
    let app = session("abc", 0, 0);
    assert!(app.render(area(0, 0, 80, 24)).overlay.is_none());
    assert!(app.overlay(area(0, 0, 80, 24)).is_none());
}

#[test]
fn overlay_carries_the_question_and_its_answers() {
    let app = asking("abc");
    let overlay = app.render(area(0, 0, 100, 50)).overlay.unwrap();
    assert_eq!(overlay.title, "Changes detected");
    assert_eq!(overlay.message, "Do you want to leave without saving?");
    assert_eq!(overlay.confirm_label, "[Y]es");
    assert_eq!(overlay.cancel_label, "[N]o");
}

#[test]
fn overlay_is_laid_out_in_the_middle_of_the_frame() {
    let app = asking("abc");
    let frame = area(0, 0, 100, 50);
    let overlay = app.render(frame).overlay.unwrap();
    assert_eq!((OVERLAY_PERCENT_X, OVERLAY_PERCENT_Y), (60, 40));
    assert_eq!(overlay.area, area(20, 15, 60, 20));
    assert_eq!(overlay.inner, area(21, 16, 58, 18));
    assert_eq!(overlay.message_area, area(21, 16, 58, 11));
    assert_eq!(overlay.answers_area, area(21, 27, 58, 7));
    assert_eq!(overlay.confirm_area, area(21, 27, 29, 7));
    assert_eq!(overlay.cancel_area, area(50, 27, 29, 7));
}

#[test]
fn overlay_border_takes_one_cell_on_every_side() {
    let app = asking("abc");
    for (width, height) in [(80, 24), (40, 10), (200, 60)] {
        let overlay = app.overlay(area(4, 2, width, height)).unwrap();
        assert_eq!(overlay.inner.x, overlay.area.x + 1);
        assert_eq!(overlay.inner.y, overlay.area.y + 1);
        assert_eq!(overlay.inner.width, overlay.area.width - 2);
        assert_eq!(overlay.inner.height, overlay.area.height - 2);
    }
}

#[test]
fn overlay_in_a_frame_too_small_for_a_border_has_no_room_inside() {
    let app = asking("abc");
    for (width, height) in [(0, 0), (1, 1), (2, 2), (3, 3)] {
        let frame = area(7, 9, width, height);
        let overlay = app.overlay(frame).unwrap();
        assert!(within(frame, overlay.area));
        assert_eq!(overlay.inner.width, overlay.area.width.saturating_sub(2));
        assert_eq!(overlay.inner.height, overlay.area.height.saturating_sub(2));
        assert_eq!(overlay.inner.x, (overlay.area.x + 1).min(overlay.area.x + overlay.area.width));
        assert_eq!(overlay.inner.y, (overlay.area.y + 1).min(overlay.area.y + overlay.area.height));
    }
}

#[test]
fn overlay_parts_lie_within_each_other() {
    let app = asking("abc");
    for (width, height) in [(80, 24), (100, 50), (33, 17), (12, 9)] {
        let frame = area(1, 2, width, height);
        let overlay = app.overlay(frame).unwrap();
        assert!(within(frame, overlay.area));
        assert!(within(overlay.area, overlay.inner));
        assert!(within(overlay.inner, overlay.message_area));
        assert!(within(overlay.inner, overlay.answers_area));
        assert!(within(overlay.answers_area, overlay.confirm_area));
        assert!(within(overlay.answers_area, overlay.cancel_area));
        assert_eq!(overlay.message_area.width, overlay.inner.width);
        assert_eq!(overlay.confirm_area.height, overlay.answers_area.height);
    }
}

#[test]
fn centering_extents_share_the_rest_evenly() {
    let percent = Extent::Percentage;
    assert_eq!(centering_extents(60), vec![percent(20), percent(60), percent(20)]);
    assert_eq!(centering_extents(40), vec![percent(30), percent(40), percent(30)]);
    assert_eq!(centering_extents(100), vec![percent(0), percent(100), percent(0)]);
    assert_eq!(centering_extents(0), vec![percent(50), percent(0), percent(50)]);
    assert_eq!(centering_extents(33), vec![percent(33), percent(33), percent(33)]);
}

#[test]
fn both_of_two_takes_exactly_two_parts() {
    let (a, b, c) = (area(0, 0, 1, 1), area(1, 0, 2, 1), area(3, 0, 4, 1));
    assert_eq!(both_of_two(&vec![a, b]), Some((a, b)));
    assert_eq!(both_of_two(&vec![b, a]), Some((b, a)));
    assert_eq!(both_of_two(&vec![]), None);
    assert_eq!(both_of_two(&vec![a]), None);
    assert_eq!(both_of_two(&vec![a, b, c]), None);
}

#[test]
fn middle_of_three_takes_the_second_of_exactly_three_parts() {
    let (a, b, c) = (area(0, 0, 1, 1), area(1, 0, 2, 1), area(3, 0, 4, 1));
    assert_eq!(middle_of_three(&vec![a, b, c]), Some(b));
    assert_eq!(middle_of_three(&vec![c, a, b]), Some(a));
    assert_eq!(middle_of_three(&vec![]), None);
    assert_eq!(middle_of_three(&vec![a, b]), None);
    assert_eq!(middle_of_three(&vec![a, b, c, a]), None);
}

#[test]
fn split_in_two_gives_the_parts_in_the_order_asked() {
    let whole = area(0, 0, 80, 24);
    let (one_row, rest) = split_in_two(Axis::Vertical, whole, Extent::Length(1), Extent::Min(0));
    assert_eq!(one_row, area(0, 0, 80, 1));
    assert_eq!(rest, area(0, 1, 80, 23));
}
