use shortcut_key_map::db::{map_db_error, DatabaseError};
use shortcut_key_map::position::{window_origin, WindowPositionMode, WorkArea};
use shortcut_key_map::store::{
    app_not_found, changed_or_missing, collect_rows, found_or_missing, has_column,
    shortcut_from_columns,
};
use shortcut_key_map::text::{
    decimal_text, require_non_empty, text_contains, text_eq, text_eq_ignore_ascii_case,
    normalize_optional_text,
};
use shortcut_key_map::window::{
    toggle_action, tray_menu_command, window_event_response, TrayCommand, WindowEventKind,
    WindowEventResponse, WindowToggle,
};

const ALL_MODES: [WindowPositionMode; 9] = [
    WindowPositionMode::LeftTop,
    WindowPositionMode::TopCenter,
    WindowPositionMode::RightTop,
    WindowPositionMode::LeftCenter,
    WindowPositionMode::RightBottom,
    WindowPositionMode::RightCenter,
    WindowPositionMode::LeftBottom,
    WindowPositionMode::BottomCenter,
    WindowPositionMode::Center,
];

#[test]
fn trimming_removes_unicode_white_space() {
    assert_eq!(
        normalize_optional_text(Some("\u{3000}\t 提示\u{a0}\n".to_owned())),
        Some("提示".to_owned())
    );
    assert_eq!(normalize_optional_text(Some("\u{2003}\u{85}".to_owned())), None);
}

#[test]
fn require_non_empty_cases() {
    assert_eq!(require_non_empty("  x y ", "名称"), Ok("x y".to_owned()));
    assert_eq!(require_non_empty(" \r\n", "应用名称"), Err("应用名称不能为空".to_owned()));
}

#[test]
fn decimal_text_cases() {
    assert_eq!(decimal_text(0), "0");
    assert_eq!(decimal_text(7), "7");
    assert_eq!(decimal_text(-42), "-42");
    assert_eq!(decimal_text(1234567890), "1234567890");
    assert_eq!(decimal_text(i64::MAX), i64::MAX.to_string());
    assert_eq!(decimal_text(i64::MIN), i64::MIN.to_string());
    assert_eq!(app_not_found(12), "应用不存在: 12");
}

#[test]
fn text_search_and_comparison() {
    assert!(text_contains("unique constraint failed", "unique"));
    assert!(text_contains("abc", ""));
    assert!(!text_contains("uniq", "unique"));
    assert!(text_contains("外键 foreign key", "foreign key"));
    assert!(text_eq("左上", "左上"));
    assert!(!text_eq("a", "ab"));
    assert!(text_eq_ignore_ascii_case("IS_Pinned", "is_pinned"));
    assert!(!text_eq_ignore_ascii_case("is_pinned2", "is_pinned"));
    assert!(!text_eq_ignore_ascii_case("Ä", "ä"));
}

#[test]
fn parse_accepts_names_with_space_and_any_case() {
    assert_eq!(WindowPositionMode::parse(" LEFT_TOP "), Some(WindowPositionMode::LeftTop));
    assert_eq!(WindowPositionMode::parse("\tBottom_Center\n"), Some(WindowPositionMode::BottomCenter));
    assert_eq!(WindowPositionMode::parse("Center"), Some(WindowPositionMode::Center));
    assert_eq!(WindowPositionMode::parse("middle"), None);
    assert_eq!(WindowPositionMode::parse("left top"), None);
    assert_eq!(WindowPositionMode::parse(""), None);
}

#[test]
fn every_mode_name_parses_back() {
    let mut names: Vec<&str> = Vec::new();
    for mode in ALL_MODES {
        assert_eq!(WindowPositionMode::parse(mode.as_str()), Some(mode));
        assert_eq!(WindowPositionMode::from_name(mode.as_str()), Some(mode));
        assert!(!names.contains(&mode.as_str()));
        names.push(mode.as_str());
    }
    assert_eq!(WindowPositionMode::RightBottom.as_str(), "right_bottom");
}

fn area() -> WorkArea {
    WorkArea { x: 100, y: 50, width: 1920, height: 1080 }
}

#[test]
fn window_origin_per_grid_cell() {
    let size = Some((800, 600));
    assert_eq!(window_origin(WindowPositionMode::LeftTop, area(), size), (116, 66));
    assert_eq!(window_origin(WindowPositionMode::TopCenter, area(), size), (660, 66));
    assert_eq!(window_origin(WindowPositionMode::RightTop, area(), size), (1204, 66));
    assert_eq!(window_origin(WindowPositionMode::LeftCenter, area(), size), (116, 290));
    assert_eq!(window_origin(WindowPositionMode::Center, area(), size), (660, 290));
    assert_eq!(window_origin(WindowPositionMode::RightCenter, area(), size), (1204, 290));
    assert_eq!(window_origin(WindowPositionMode::LeftBottom, area(), size), (116, 514));
    assert_eq!(window_origin(WindowPositionMode::BottomCenter, area(), size), (660, 514));
    assert_eq!(window_origin(WindowPositionMode::RightBottom, area(), size), (1204, 514));
}

#[test]
fn window_origin_uses_fallback_size() {
    assert_eq!(window_origin(WindowPositionMode::Center, area(), None), (610, 240));
}

#[test]
fn window_origin_for_oversized_window() {
    let size = Some((2001, 1101));
    assert_eq!(window_origin(WindowPositionMode::RightBottom, area(), size), (100, 50));
    assert_eq!(window_origin(WindowPositionMode::Center, area(), size), (60, 40));
}

#[test]
fn db_errors_are_explained() {
    assert_eq!(
        map_db_error(DatabaseError::Sqlite("UNIQUE constraint failed: apps.name".to_owned())),
        "已存在重复记录，请更换名称或快捷键组合"
    );
    assert_eq!(
        map_db_error(DatabaseError::Sqlite("FOREIGN KEY constraint failed".to_owned())),
        "关联数据不存在或已被删除"
    );
    assert_eq!(
        map_db_error(DatabaseError::Sqlite("Disk I/O Error".to_owned())),
        "数据库错误: Disk I/O Error"
    );
    assert_eq!(
        map_db_error(DatabaseError::Other("Query returned no rows".to_owned())),
        "数据库错误: Query returned no rows"
    );
}

#[test]
fn has_column_scans_in_order() {
    let found = has_column(vec![Ok("id".to_owned()), Ok("IS_PINNED".to_owned())], "is_pinned");
    assert!(matches!(found, Ok(true)));
    let missing = has_column(vec![Ok("id".to_owned()), Ok("title".to_owned())], "is_pinned");
    assert!(matches!(missing, Ok(false)));
    let failed = has_column(vec![Ok("id".to_owned()), Err(rusqlite::Error::InvalidQuery)], "is_pinned");
    assert!(failed.is_err());
    let early = has_column(vec![Ok("is_pinned".to_owned()), Err(rusqlite::Error::InvalidQuery)], "is_pinned");
    assert!(matches!(early, Ok(true)));
}

#[test]
fn collect_rows_stops_at_first_failure() {
    let all = collect_rows(vec![Ok(1), Ok(2), Ok(3)]).expect("rows");
    assert_eq!(all, vec![1, 2, 3]);
    let failed = collect_rows(vec![Ok(1), Err(rusqlite::Error::InvalidQuery), Ok(3)]);
    assert!(matches!(failed, Err(rusqlite::Error::InvalidQuery)));
}

#[test]
fn pinned_flag_is_any_non_zero() {
    let s = shortcut_from_columns(1, 2, "t".to_owned(), "c".to_owned(), None, 5);
    assert!(s.is_pinned);
    let s = shortcut_from_columns(1, 2, "t".to_owned(), "c".to_owned(), None, 0);
    assert!(!s.is_pinned);
}

#[test]
fn window_decisions() {
    assert_eq!(toggle_action(true), WindowToggle::Hide);
    assert_eq!(toggle_action(false), WindowToggle::Present);
    assert_eq!(tray_menu_command("toggle-window"), Some(TrayCommand::ToggleWindow));
    assert_eq!(tray_menu_command("quit"), Some(TrayCommand::Quit));
    assert_eq!(tray_menu_command("about"), None);
    assert_eq!(window_event_response("main", WindowEventKind::CloseRequested), WindowEventResponse::HideInsteadOfClosing);
    assert_eq!(window_event_response("main", WindowEventKind::FocusLost), WindowEventResponse::Hide);
    assert_eq!(window_event_response("main", WindowEventKind::Other), WindowEventResponse::Ignore);
    assert_eq!(window_event_response("settings", WindowEventKind::FocusLost), WindowEventResponse::Ignore);
}

#[test]
fn outcome_mapping_of_changes_and_lookups() {
    assert_eq!(changed_or_missing(Ok(1), "gone".to_owned()), Ok(()));
    assert_eq!(changed_or_missing(Ok(0), "gone".to_owned()), Err("gone".to_owned()));
    assert_eq!(
        changed_or_missing(Err(rusqlite::Error::InvalidQuery), "gone".to_owned()),
        Err("数据库错误: Query is not read-only".to_owned())
    );
    assert_eq!(found_or_missing(Ok(Some(5)), "gone".to_owned()), Ok(5));
    assert_eq!(found_or_missing::<i32>(Ok(None), "gone".to_owned()), Err("gone".to_owned()));
    assert!(found_or_missing::<i32>(Err(rusqlite::Error::QueryReturnedNoRows), "gone".to_owned())
        .unwrap_err()
        .starts_with("数据库错误: "));
}
