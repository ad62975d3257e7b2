use appmarkable::escalation::ExitInfo;
use appmarkable::geometry::{button_frame, placed_rect, resolve_position, row_below, Rect, DISPLAY_HEIGHT, DISPLAY_WIDTH};
use appmarkable::options::{check_icon_size, display_name, OptionError, MAX_ICON_SIZE, MIN_ICON_SIZE};
use appmarkable::status::{exit_report, ExitReport, StatusLine};

#[test]
fn missing_coordinates_center() {
    assert_eq!((DISPLAY_WIDTH, DISPLAY_HEIGHT), (1404, 1872));
    assert_eq!(resolve_position(None, None, 100, 60), (652, 906));
    assert_eq!(resolve_position(Some(7), None, 100, 61), (7, 906));
    assert_eq!(resolve_position(None, Some(1572), 501, 0), (452, 1572));
    assert_eq!(resolve_position(None, None, 2000, 4000), (-298, -1064));
}

#[test]
fn placed_rect_keeps_bits() {
    assert_eq!(placed_rect(652, 906, 100, 60), Rect { top: 906, left: 652, width: 100, height: 60 });
    assert_eq!(placed_rect(-1, -2, 3, 4), Rect { top: u32::MAX - 1, left: u32::MAX, width: 3, height: 4 });
}

#[test]
fn button_frame_surrounds_text() {
    let text = Rect { top: 100, left: 200, width: 300, height: 40 };
    assert_eq!(button_frame(text, 10, 20), Rect { top: 90, left: 180, width: 340, height: 60 });
    assert_eq!(button_frame(text, 0, 0), text);
}

#[test]
fn row_below_rect() {
    assert_eq!(row_below(Rect { top: 906, left: 0, width: 10, height: 60 }, 25), 991);
    assert_eq!(row_below(Rect { top: u32::MAX, left: 0, width: 0, height: u32::MAX }, u32::MAX), 3 * u32::MAX as i64);
}

#[test]
fn icon_size_bounds() {
    assert_eq!((MIN_ICON_SIZE, MAX_ICON_SIZE), (50, 1404));
    assert_eq!(check_icon_size(49), Err(OptionError::IconSize { size: 49 }));
    assert_eq!(check_icon_size(50), Ok(50));
    assert_eq!(check_icon_size(500), Ok(500));
    assert_eq!(check_icon_size(1404), Ok(1404));
    assert_eq!(check_icon_size(1405), Err(OptionError::IconSize { size: 1405 }));
    assert_eq!(check_icon_size(0), Err(OptionError::IconSize { size: 0 }));
}

#[test]
fn name_falls_back_to_command() {
    let cmd = String::from("/opt/bin/koreader");
    assert_eq!(display_name(Some(String::from("KOReader")), &cmd), "KOReader");
    assert_eq!(display_name(None, &cmd), "/opt/bin/koreader");
}

#[test]
fn exit_reports() {
    assert_eq!(exit_report(&ExitInfo { code: Some(0) }), ExitReport::Success);
    assert_eq!(exit_report(&ExitInfo { code: Some(3) }), ExitReport::Code { code: 3 });
    assert_eq!(exit_report(&ExitInfo { code: Some(-1) }), ExitReport::Code { code: -1 });
    assert_eq!(exit_report(&ExitInfo { code: None }), ExitReport::Unknown);
    assert!(ExitInfo { code: Some(0) }.success());
    assert!(!ExitInfo { code: None }.success());
}

#[test]
fn status_line_remembers_last_area() {
    let mut s = StatusLine::new();
    assert_eq!(s.area_to_clear(), None);
    let a = Rect { top: 1500, left: 300, width: 800, height: 70 };
    s.record(a);
    assert_eq!(s.area_to_clear(), Some(a));
    let b = Rect { top: 1500, left: 250, width: 900, height: 70 };
    s.record(b);
    assert_eq!(s.area_to_clear(), Some(b));
}
