use spotify_companion_widget::domain::WindowSettings;
use spotify_companion_widget::window::{
    choose_monitor, clamp_position, plan_restore, saved_position, toggle_action, MonitorInfo,
    Placement, ToggleAction,
};

#[test]
fn recovers_fully_offscreen_position() {
    assert_eq!(
        clamp_position((5000, -1000), (420, 172), (0, 0, 1920, 1080)),
        (1896, -148)
    );
}

#[test]
fn preserves_valid_position() {
    assert_eq!(
        clamp_position((1200, 800), (420, 172), (0, 0, 1920, 1080)),
        (1200, 800)
    );
}

#[test]
fn clamps_left_and_top_edges_to_keep_a_strip_visible() {
    // 24 px of a 420 x 172 window stay on the monitor at its top-left.
    assert_eq!(
        clamp_position((-5000, -5000), (420, 172), (0, 0, 1920, 1080)),
        (-396, -148)
    );
}

#[test]
fn clamps_against_an_offset_second_monitor() {
    assert_eq!(
        clamp_position((0, 0), (420, 172), (1920, 100, 1280, 1024)),
        (1920 - 420 + 24, 0)
    );
    assert_eq!(
        clamp_position((9000, 9000), (420, 172), (1920, 100, 1280, 1024)),
        (1920 + 1280 - 24, 100 + 1024 - 24)
    );
}

#[test]
fn clamping_twice_changes_nothing_more() {
    let once = clamp_position((7000, -3000), (300, 200), (-1280, 0, 1280, 1024));
    assert_eq!(clamp_position(once, (300, 200), (-1280, 0, 1280, 1024)), once);
}

fn monitor(name: Option<&str>, x: i32, width: u32, saved_x: i32) -> MonitorInfo {
    MonitorInfo {
        name: name.map(str::to_owned),
        x,
        y: 0,
        width,
        height: 1080,
        saved_x,
        saved_y: 100,
    }
}

#[test]
fn restores_on_the_saved_monitor_by_name() {
    let monitors = vec![
        monitor(Some("left"), 0, 1920, 2000),
        monitor(Some("right"), 1920, 1920, 2000),
    ];
    assert_eq!(choose_monitor(&monitors, Some("left")), 0);
    assert_eq!(choose_monitor(&monitors, Some("right")), 1);
}

#[test]
fn restores_on_the_monitor_holding_the_position_when_the_name_is_unknown() {
    let monitors = vec![
        monitor(Some("left"), 0, 1920, 2000),
        monitor(Some("right"), 1920, 1920, 2000),
    ];
    assert_eq!(choose_monitor(&monitors, Some("gone")), 1);
    assert_eq!(choose_monitor(&monitors, None), 1);
}

#[test]
fn falls_back_to_the_first_monitor() {
    let monitors = vec![
        monitor(None, 0, 1920, 9000),
        monitor(None, 1920, 1920, 9000),
    ];
    assert_eq!(choose_monitor(&monitors, None), 0);
}

#[test]
fn tray_click_hides_only_a_visible_focused_widget() {
    assert_eq!(toggle_action(true, true), ToggleAction::Hide);
    assert_eq!(toggle_action(true, false), ToggleAction::Show);
    assert_eq!(toggle_action(false, true), ToggleAction::Show);
    assert_eq!(toggle_action(false, false), ToggleAction::Show);
}

#[test]
fn a_later_extreme_monitor_does_not_stop_the_first_match() {
    let monitors = vec![
        monitor(Some("main"), 0, 1920, 100),
        monitor(Some("far"), i32::MAX - 10, 4000, 0),
    ];
    assert_eq!(choose_monitor(&monitors, Some("main")), 0);
    assert_eq!(choose_monitor(&monitors, None), 0);
}

#[test]
fn restoring_needs_both_saved_coordinates() {
    let mut settings = WindowSettings::default();
    assert_eq!(saved_position(&settings), None);
    settings.x = Some(5);
    assert_eq!(saved_position(&settings), None);
    settings.y = Some(-7);
    assert_eq!(saved_position(&settings), Some((5, -7)));
}

#[test]
fn restore_plan_clamps_on_the_chosen_monitor() {
    assert_eq!(plan_restore(&Vec::new(), None, (420, 172)), Placement::Keep);
    let monitors = vec![monitor(Some("left"), 0, 1920, 5000), monitor(Some("right"), 1920, 1920, 5000)];
    assert_eq!(plan_restore(&monitors, Some("right"), (420, 172)), Placement::MoveTo(3816, 100));
    assert_eq!(plan_restore(&monitors, None, (420, 172)), Placement::MoveTo(1896, 100));
    let tiny = vec![monitor(None, 0, 10, 0)];
    assert_eq!(plan_restore(&tiny, None, (10, 172)), Placement::OutOfRange);
}
