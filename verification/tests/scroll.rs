use kube_tui::mode::AppMode;
use kube_tui::scroll::{viewport_height_for, ScrollOp, ScrollPosition, ScrollState, PAGE_SIZE};

fn position(content: usize, viewport: usize) -> ScrollPosition {
    let mut p = ScrollPosition::new();
    p.set_viewport_height(viewport);
    p.set_content_length(content, false);
    p
}

#[test]
fn scrolling_down_content_length_times_reaches_exactly_the_end() {
    for (content, viewport) in [(0usize, 0usize), (0, 10), (5, 10), (10, 10), (11, 10), (100, 7), (3, 0)] {
        let mut p = position(content, viewport);
        assert_eq!(p.offset(), 0);
        for _ in 0..content {
            p.scroll_down();
            assert!(p.offset() <= content.saturating_sub(viewport));
        }
        assert_eq!(p.offset(), content.saturating_sub(viewport));
        p.scroll_down();
        assert_eq!(p.offset(), content.saturating_sub(viewport));
    }
}

#[test]
fn scroll_up_stops_at_zero() {
    let mut p = position(50, 10);
    p.scroll_up();
    assert_eq!(p.offset(), 0);
    p.scroll_down();
    p.scroll_down();
    assert_eq!(p.offset(), 2);
    p.scroll_up();
    assert_eq!(p.offset(), 1);
    p.scroll_up();
    p.scroll_up();
    assert_eq!(p.offset(), 0);
}

#[test]
fn page_keys_move_by_ten_lines_and_clamp() {
    assert_eq!(PAGE_SIZE, 10);
    let mut p = position(35, 10);
    assert_eq!(p.max_offset(), 25);
    p.page_down();
    assert_eq!(p.offset(), 10);
    p.page_down();
    assert_eq!(p.offset(), 20);
    p.page_down();
    assert_eq!(p.offset(), 25);
    p.page_up();
    assert_eq!(p.offset(), 15);
    p.page_up();
    assert_eq!(p.offset(), 5);
    p.page_up();
    assert_eq!(p.offset(), 0);
}

#[test]
fn shrinking_content_pulls_the_offset_back() {
    let mut p = position(100, 10);
    p.apply(ScrollOp::End);
    assert_eq!(p.offset(), 90);
    p.set_content_length(50, false);
    assert_eq!(p.offset(), 40);
    p.set_content_length(5, false);
    assert_eq!(p.offset(), 0);
    p.set_content_length(100, false);
    assert_eq!(p.offset(), 0);
}

#[test]
fn growing_viewport_pulls_the_offset_back() {
    let mut p = position(100, 10);
    p.apply(ScrollOp::End);
    p.set_viewport_height(30);
    assert_eq!(p.offset(), 70);
    assert_eq!(p.viewport_height(), 30);
    assert_eq!(p.content_length(), 100);
    p.set_viewport_height(200);
    assert_eq!(p.offset(), 0);
}

#[test]
fn follow_moves_to_the_end_of_new_content() {
    let mut p = position(20, 10);
    p.set_content_length(45, true);
    assert_eq!(p.offset(), 35);
    p.set_content_length(8, true);
    assert_eq!(p.offset(), 0);
}

#[test]
fn scroll_state_touches_only_the_view_of_the_mode() {
    let mut s = ScrollState::new();
    s.set_viewport_height(10);
    for mode in [AppMode::Logs, AppMode::Describe, AppMode::YamlView, AppMode::TopView] {
        s.set_content_length(mode, 30);
    }
    // Auto-follow is on at the start, so the log view went to the end.
    assert_eq!(s.logs.offset(), 20);
    assert_eq!(s.describe.offset(), 0);
    s.scroll_down(AppMode::Describe);
    s.page_down(AppMode::YamlView);
    s.scroll_up(AppMode::Logs);
    assert_eq!(s.logs.offset(), 19);
    assert_eq!(s.describe.offset(), 1);
    assert_eq!(s.yaml.offset(), 10);
    assert_eq!(s.metrics.offset(), 0);
    // A mode that is no detail view has no offset to move.
    s.scroll_down(AppMode::PodList);
    s.page_up(AppMode::Help);
    assert_eq!(s.logs.offset(), 19);
    assert_eq!(s.describe.offset(), 1);
    s.reset(AppMode::YamlView);
    assert_eq!(s.yaml.offset(), 0);
    s.reset_all();
    assert_eq!(s.logs.offset(), 0);
    assert_eq!(s.describe.offset(), 0);
}

#[test]
fn auto_follow_freezes_the_offset_when_switched_off() {
    let mut s = ScrollState::new();
    s.set_viewport_height(5);
    assert!(s.auto_follow);
    s.set_content_length(AppMode::Logs, 12);
    assert_eq!(s.logs.offset(), 7);
    s.toggle_auto_follow();
    assert!(!s.auto_follow);
    assert_eq!(s.logs.offset(), 7);
    s.set_content_length(AppMode::Logs, 20);
    assert_eq!(s.logs.offset(), 7);
    s.toggle_auto_follow();
    assert!(s.auto_follow);
    assert_eq!(s.logs.offset(), 15);
    // Only the log view follows its content.
    s.set_content_length(AppMode::Describe, 50);
    assert_eq!(s.describe.offset(), 0);
}

#[test]
fn viewport_is_what_the_fixed_rows_leave() {
    assert_eq!(viewport_height_for(0), 0);
    assert_eq!(viewport_height_for(9), 0);
    assert_eq!(viewport_height_for(10), 1);
    assert_eq!(viewport_height_for(40), 31);
    assert_eq!(viewport_height_for(u16::MAX), 65526);
}
