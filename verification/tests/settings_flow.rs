use rusqlite::Connection;
use shortcut_key_map::db::Database;
use shortcut_key_map::position::WindowPositionMode;
use shortcut_key_map::settings::{
    advance_toggle_shortcut_update, get_settings, load_toggle_shortcut, load_window_position_mode,
    map_shortcut_error, prepare_database, read_setting, resolve_stored_toggle_shortcut,
    start_toggle_shortcut_update, startup_fallback_shortcut, stored_position_mode,
    update_window_position_mode, upsert_setting, ShortcutCommand, ShortcutEvent, ShortcutUpdate,
    DEFAULT_TOGGLE_SHORTCUT,
};
use shortcut_key_map::db::DatabaseError;
use shortcut_key_map::store::initialize_schema;

fn open_catalogue() -> Database {
    let mut db = Database::new(Connection::open_in_memory().expect("open in-memory db"));
    initialize_schema(&mut db).expect("initialize schema");
    db
}

fn command_text(command: &ShortcutCommand) -> String {
    match command {
        ShortcutCommand::Unregister(s) => format!("unregister {s}"),
        ShortcutCommand::Register(s) => format!("register {s}"),
        ShortcutCommand::Persist(s) => format!("persist {s}"),
        ShortcutCommand::Adopt(s) => format!("adopt {s}"),
    }
}

fn texts(commands: &[ShortcutCommand]) -> Vec<String> {
    commands.iter().map(command_text).collect()
}

#[test]
fn resolve_stored_toggle_shortcut_cases() {
    assert_eq!(resolve_stored_toggle_shortcut(None), (DEFAULT_TOGGLE_SHORTCUT.to_owned(), true));
    assert_eq!(resolve_stored_toggle_shortcut(Some("  ".to_owned())), (DEFAULT_TOGGLE_SHORTCUT.to_owned(), true));
    assert_eq!(
        resolve_stored_toggle_shortcut(Some(" CmdOrCtrl+Shift+K ".to_owned())),
        (DEFAULT_TOGGLE_SHORTCUT.to_owned(), true)
    );
    assert_eq!(
        resolve_stored_toggle_shortcut(Some(" Alt+Space\n".to_owned())),
        ("Alt+Space".to_owned(), false)
    );
}

#[test]
fn load_toggle_shortcut_upgrades_legacy_default() {
    let mut db = open_catalogue();
    upsert_setting(&mut db, "toggle_shortcut", "CmdOrCtrl+Shift+K").expect("store legacy");
    assert_eq!(load_toggle_shortcut(&mut db).expect("load"), DEFAULT_TOGGLE_SHORTCUT);
    assert_eq!(read_setting(&mut db, "toggle_shortcut").expect("read"), Some(DEFAULT_TOGGLE_SHORTCUT.to_owned()));
    upsert_setting(&mut db, "toggle_shortcut", "  Ctrl+Alt+M ").expect("store custom");
    assert_eq!(load_toggle_shortcut(&mut db).expect("load"), "Ctrl+Alt+M");
}

#[test]
fn read_setting_of_unknown_key_is_none() {
    let mut db = open_catalogue();
    assert_eq!(read_setting(&mut db, "no_such_key").expect("read"), None);
}

#[test]
fn load_window_position_mode_falls_back_to_default() {
    let mut db = open_catalogue();
    assert_eq!(load_window_position_mode(&mut db).expect("load"), WindowPositionMode::TopCenter);
    upsert_setting(&mut db, "window_position_mode", " Right_Bottom ").expect("store");
    assert_eq!(load_window_position_mode(&mut db).expect("load"), WindowPositionMode::RightBottom);
    upsert_setting(&mut db, "window_position_mode", "middle").expect("store");
    assert_eq!(load_window_position_mode(&mut db).expect("load"), WindowPositionMode::TopCenter);
    assert_eq!(read_setting(&mut db, "window_position_mode").expect("read"), Some("top_center".to_owned()));
}

#[test]
fn stored_position_mode_cases() {
    assert_eq!(stored_position_mode(None), None);
    assert_eq!(stored_position_mode(Some("center".to_owned())), Some(WindowPositionMode::Center));
    assert_eq!(stored_position_mode(Some("nowhere".to_owned())), None);
}

#[test]
fn prepare_database_loads_defaults() {
    let mut db = Database::new(Connection::open_in_memory().expect("open"));
    let (shortcut, mode) = prepare_database(&mut db).expect("prepare");
    assert_eq!(shortcut, DEFAULT_TOGGLE_SHORTCUT);
    assert_eq!(mode, WindowPositionMode::TopCenter);
}

#[test]
fn get_settings_shows_names() {
    let settings = get_settings("Alt+K", WindowPositionMode::LeftBottom);
    assert_eq!(settings.toggle_shortcut, "Alt+K");
    assert_eq!(settings.window_position_mode, "left_bottom");
}

#[test]
fn update_window_position_mode_cases() {
    let mut db = open_catalogue();
    let err = update_window_position_mode(&mut db, "upper", WindowPositionMode::TopCenter, "Alt+K").unwrap_err();
    assert_eq!(
        err,
        "窗口位置参数无效，可选值: left_top, top_center, right_top, left_center, center, right_center, left_bottom, bottom_center, right_bottom"
    );
    let (same, change) = update_window_position_mode(&mut db, " TOP_CENTER", WindowPositionMode::TopCenter, "Alt+K").expect("same");
    assert_eq!(same.window_position_mode, "top_center");
    assert_eq!(same.toggle_shortcut, "Alt+K");
    assert_eq!(change, None);
    let (moved, change) = update_window_position_mode(&mut db, "center", WindowPositionMode::TopCenter, "Alt+K").expect("moved");
    assert_eq!(moved.window_position_mode, "center");
    assert_eq!(change, Some(WindowPositionMode::Center));
    assert_eq!(read_setting(&mut db, "window_position_mode").expect("read"), Some("center".to_owned()));
}

#[test]
fn toggle_shortcut_update_refuses_blank() {
    let (update, commands) = start_toggle_shortcut_update("   ", "Alt+K", WindowPositionMode::Center);
    assert!(commands.is_empty());
    match update {
        ShortcutUpdate::Finished(Err(message)) => assert_eq!(message, "全局唤起快捷键不能为空"),
        _ => panic!("expected a refusal"),
    }
}

#[test]
fn toggle_shortcut_update_to_current_does_nothing() {
    let (update, commands) = start_toggle_shortcut_update(" Alt+K ", "Alt+K", WindowPositionMode::Center);
    assert!(commands.is_empty());
    match update {
        ShortcutUpdate::Finished(Ok(settings)) => {
            assert_eq!(settings.toggle_shortcut, "Alt+K");
            assert_eq!(settings.window_position_mode, "center");
        }
        _ => panic!("expected settings"),
    }
}

#[test]
fn toggle_shortcut_update_succeeds() {
    let (update, commands) = start_toggle_shortcut_update("Alt+J", "Alt+K", WindowPositionMode::LeftTop);
    assert_eq!(texts(&commands), vec!["unregister Alt+K", "register Alt+J"]);
    let (update, commands) = advance_toggle_shortcut_update(update, ShortcutEvent::Registered(Ok(())));
    assert_eq!(texts(&commands), vec!["persist Alt+J"]);
    let (update, commands) = advance_toggle_shortcut_update(update, ShortcutEvent::Persisted(Ok(())));
    assert_eq!(texts(&commands), vec!["adopt Alt+J"]);
    match update {
        ShortcutUpdate::Finished(Ok(settings)) => {
            assert_eq!(settings.toggle_shortcut, "Alt+J");
            assert_eq!(settings.window_position_mode, "left_top");
        }
        _ => panic!("expected settings"),
    }
}

#[test]
fn toggle_shortcut_update_restores_after_refused_registration() {
    let (update, _) = start_toggle_shortcut_update("Alt+J", "Alt+K", WindowPositionMode::LeftTop);
    let (update, commands) =
        advance_toggle_shortcut_update(update, ShortcutEvent::Registered(Err("already taken".to_owned())));
    assert_eq!(texts(&commands), vec!["register Alt+K"]);
    match update {
        ShortcutUpdate::Finished(Err(message)) => assert_eq!(message, "全局快捷键注册失败: already taken"),
        _ => panic!("expected a failure"),
    }
}

#[test]
fn toggle_shortcut_update_restores_after_failed_store() {
    let (update, _) = start_toggle_shortcut_update("Alt+J", "Alt+K", WindowPositionMode::LeftTop);
    let (update, _) = advance_toggle_shortcut_update(update, ShortcutEvent::Registered(Ok(())));
    let failure = DatabaseError::Sqlite("database is locked".to_owned());
    let (update, commands) = advance_toggle_shortcut_update(update, ShortcutEvent::Persisted(Err(failure)));
    assert_eq!(texts(&commands), vec!["unregister Alt+J", "register Alt+K"]);
    match update {
        ShortcutUpdate::Finished(Err(message)) => assert_eq!(message, "数据库错误: database is locked"),
        _ => panic!("expected a failure"),
    }
}

#[test]
fn toggle_shortcut_update_ignores_unexpected_outcome() {
    let (update, _) = start_toggle_shortcut_update("Alt+J", "Alt+K", WindowPositionMode::LeftTop);
    let (update, commands) = advance_toggle_shortcut_update(update, ShortcutEvent::Persisted(Ok(())));
    assert!(commands.is_empty());
    assert!(matches!(update, ShortcutUpdate::Registering { .. }));
}

#[test]
fn map_shortcut_error_prefixes_description() {
    assert_eq!(map_shortcut_error("HotKey already registered"), "全局快捷键注册失败: HotKey already registered");
}

#[test]
fn startup_fallback_only_for_custom_shortcuts() {
    assert_eq!(startup_fallback_shortcut("CmdOrCtrl+Shift+I"), None);
    assert_eq!(startup_fallback_shortcut("Alt+K"), Some("CmdOrCtrl+Shift+I"));
}
