use pong_core::progress::{ProgressObserver, ProgressTracker};
use pong_core::screen::Screen;
use pong_core::widget::{
    big_label, blocking_overlay, body, column_center, column_of_buttons, header, label,
    loading_bar, overlay, paragraph, row_of_buttons, split_lines, stretch,
    update_loading_bar_fill, Layout, NodeContent, ThemeColor, Val,
};

#[test]
fn overlay_is_a_full_screen_pass_through() {
    let n = overlay(5);
    assert_eq!(n.name, "Overlay");
    assert_eq!(n.z_index, 5);
    assert!(n.pickable_ignore);
    assert!(!n.focus_block);
    assert!(n.style.absolute);
    assert_eq!(n.style.width, Val::PercentTenths(1000));
}

#[test]
fn blocking_overlay_blocks_focus() {
    let n = blocking_overlay(-2);
    assert_eq!(n.name, "BlockingOverlay");
    assert_eq!(n.z_index, -2);
    assert!(n.focus_block);
    assert!(!n.pickable_ignore);
}

#[test]
fn containers_carry_their_children() {
    let kids = vec![label("a"), label("b")];
    let n = body(kids);
    assert_eq!(n.name, "Body");
    assert_eq!(n.style.layout, Layout::Block);
    assert_eq!(n.children.len(), 2);

    let n = column_center(vec![label("x")]);
    assert_eq!(n.name, "ColumnCenter");
    assert_eq!(n.style.layout, Layout::ColumnCenter);
    assert_eq!(n.children.len(), 1);

    let n = column_of_buttons(Vec::new());
    assert_eq!(n.name, "ColumnOfButtons");
    assert_eq!(n.style.row_gap, Val::VwTenths(25));

    let n = row_of_buttons(Vec::new());
    assert_eq!(n.name, "RowOfButtons");
    assert_eq!(n.style.column_gap, Val::VwTenths(25));

    let n = stretch(Vec::new());
    assert_eq!(n.name, "Stretch");
    assert!(n.style.grow);
}

#[test]
fn labels_carry_their_text_and_size() {
    let n = label("hello");
    assert_eq!(n.name, "Label(\"hello\")");
    match &n.content {
        NodeContent::Text { text, font_size, color } => {
            assert_eq!(text, "hello");
            assert_eq!(*font_size, Val::VwTenths(35));
            assert_eq!(*color, ThemeColor::BodyText);
        },
        _ => panic!("label holds no text"),
    }

    let n = big_label("title");
    match &n.content {
        NodeContent::Text { font_size, .. } => assert_eq!(*font_size, Val::VwTenths(50)),
        _ => panic!("big label holds no text"),
    }

    let n = header("top");
    assert_eq!(n.name, "Label(\"top\")");
    assert_eq!(n.style.margin.bottom, Val::VwTenths(50));
}

#[test]
fn split_lines_matches_line_endings() {
    let lines = split_lines("one\ntwo\r\nthree\n");
    assert_eq!(lines, vec!["one", "two", "three"]);
    assert_eq!(split_lines(""), Vec::<String>::new());
    assert_eq!(split_lines("\n"), vec![""]);
    assert_eq!(split_lines("a\n\nb"), vec!["a", "", "b"]);
    assert_eq!(split_lines("tail\r"), vec!["tail\r"]);
}

#[test]
fn paragraph_makes_one_label_per_line() {
    let n = paragraph("first\nsecond");
    assert_eq!(n.name, "Paragraph");
    assert_eq!(n.children.len(), 2);
    assert_eq!(n.children[0].name, "Label(\"first\")");
    assert_eq!(n.children[1].name, "Label(\"second\")");
}

#[test]
fn loading_bar_holds_a_fill_for_its_screen() {
    let bar = loading_bar(Screen::Splash);
    assert_eq!(bar.name, "LoadingBar");
    assert_eq!(bar.style.width, Val::PercentTenths(600));
    assert_eq!(bar.border_color, Some(ThemeColor::BodyText));
    assert_eq!(bar.children.len(), 1);
    let fill = &bar.children[0];
    assert_eq!(fill.name, "LoadingBarFill");
    assert_eq!(fill.background, Some(ThemeColor::Primary));
    match &fill.content {
        NodeContent::LoadingFill(m) => assert_eq!(m.0, Screen::Splash),
        _ => panic!("the bar's child is not a fill"),
    }
}

#[test]
fn fill_width_tracks_progress_and_only_moves_on_change() {
    let mut bar = loading_bar(Screen::Splash);
    let mut tracker = ProgressTracker::new();
    tracker.register_contributor(Screen::Splash, 2);
    tracker.report_done(Screen::Splash, 1);
    let mut observer = ProgressObserver::new();

    let fill = &mut bar.children[0];
    update_loading_bar_fill(&tracker, fill, &mut observer);
    assert_eq!(fill.style.width, Val::PercentTenths(500));

    // Same done: nothing moves, even if the width is perturbed meanwhile.
    fill.style.width = Val::PercentTenths(1);
    update_loading_bar_fill(&tracker, fill, &mut observer);
    assert_eq!(fill.style.width, Val::PercentTenths(1));

    tracker.report_done(Screen::Splash, 1);
    update_loading_bar_fill(&tracker, fill, &mut observer);
    assert_eq!(fill.style.width, Val::PercentTenths(1000));
}
