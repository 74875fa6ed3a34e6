use rusqlite::Connection;
use shortcut_key_map::db::{Database, RowReader};
use shortcut_key_map::settings::{load_toggle_shortcut, DEFAULT_TOGGLE_SHORTCUT};
use shortcut_key_map::store::{
    create_app, create_shortcut, delete_app, delete_shortcut, ensure_shortcuts_is_pinned_column,
    fetch_app_by_id, initialize_schema,
    list_apps, list_shortcuts, update_app, update_shortcut, update_shortcut_pin, app_row_mapper,
    shortcut_row_mapper,
    CreateShortcutPayload, UpdateShortcutPayload, UpsertAppPayload,
};
use shortcut_key_map::text::normalize_optional_text;

fn open_catalogue() -> Database {
    let mut db = Database::new(Connection::open_in_memory().expect("open in-memory db"));
    initialize_schema(&mut db).expect("initialize schema");
    db
}

fn app_payload(name: &str, description: Option<&str>) -> UpsertAppPayload {
    UpsertAppPayload { name: name.to_owned(), description: description.map(|d| d.to_owned()) }
}

fn shortcut_payload(app_id: i64, title: &str, combo: &str, notes: Option<&str>) -> CreateShortcutPayload {
    CreateShortcutPayload {
        app_id,
        title: title.to_owned(),
        combo: combo.to_owned(),
        notes: notes.map(|n| n.to_owned()),
    }
}

#[test]
fn normalize_optional_text_should_trim_and_drop_empty() {
    assert_eq!(normalize_optional_text(None), None);
    assert_eq!(normalize_optional_text(Some("   ".to_owned())), None);
    assert_eq!(
        normalize_optional_text(Some("  hello  ".to_owned())),
        Some("hello".to_owned())
    );
}

#[test]
fn initialize_schema_should_create_default_toggle_shortcut() {
    let conn = Connection::open_in_memory().expect("open in-memory db");
    let mut db = Database::new(conn);
    initialize_schema(&mut db).expect("initialize schema");

    let toggle_shortcut = load_toggle_shortcut(&mut db).expect("load default toggle shortcut");
    assert_eq!(toggle_shortcut, DEFAULT_TOGGLE_SHORTCUT);
}

#[test]
fn shortcut_combo_should_be_unique_per_app() {
    let conn = Connection::open_in_memory().expect("open in-memory db");
    let mut db = Database::new(conn);
    initialize_schema(&mut db).expect("initialize schema");
    let conn = db.connection();

    conn.execute(
        "INSERT INTO apps (name, description) VALUES (?1, ?2)",
        ("VS Code", Option::<String>::None),
    )
    .expect("insert app");
    let app_id = conn.last_insert_rowid();

    conn.execute(
        "INSERT INTO shortcuts (app_id, title, combo, notes) VALUES (?1, ?2, ?3, ?4)",
        (app_id, "命令面板", "Command+Shift+P", Option::<String>::None),
    )
    .expect("insert shortcut");

    let duplicated = conn.execute(
        "INSERT INTO shortcuts (app_id, title, combo, notes) VALUES (?1, ?2, ?3, ?4)",
        (app_id, "重复命令", "Command+Shift+P", Option::<String>::None),
    );

    assert!(duplicated.is_err());
}

#[test]
fn initialize_schema_is_repeatable() {
    let mut db = open_catalogue();
    initialize_schema(&mut db).expect("second initialization");
    assert_eq!(list_apps(&mut db).expect("list").len(), 0);
}

#[test]
fn initialize_schema_adds_pinned_column_to_old_table() {
    let conn = Connection::open_in_memory().expect("open in-memory db");
    conn.execute_batch(
        "CREATE TABLE shortcuts (id INTEGER PRIMARY KEY AUTOINCREMENT, app_id INTEGER NOT NULL, title TEXT NOT NULL, combo TEXT NOT NULL, notes TEXT);",
    )
    .expect("old table");
    conn.execute("INSERT INTO shortcuts (id, app_id, title, combo, notes) VALUES (1, 1, 'a', 'K', NULL)", [])
        .expect("old row");
    let mut db = Database::new(conn);
    initialize_schema(&mut db).expect("initialize schema");
    ensure_shortcuts_is_pinned_column(&mut db).expect("second migration");
    let conn = db.connection();
    let mut statement = conn.prepare("PRAGMA table_info(shortcuts)").expect("prepare");
    let names: Vec<String> = statement
        .query_map([], |row| row.get::<_, String>(1))
        .expect("query")
        .map(|name| name.expect("name"))
        .collect();
    assert_eq!(names, vec!["id", "app_id", "title", "combo", "notes", "is_pinned"]);
    let flags: Vec<i64> = conn
        .prepare("SELECT is_pinned FROM shortcuts")
        .expect("prepare")
        .query_map([], |row| row.get::<_, i64>(0))
        .expect("query")
        .map(|flag| flag.expect("flag"))
        .collect();
    assert_eq!(flags, vec![0]);
}

#[test]
fn create_app_trims_and_counts_shortcuts() {
    let mut db = open_catalogue();
    let app = create_app(&mut db, app_payload("  Figma ", Some("   "))).expect("create");
    assert_eq!(app.name, "Figma");
    assert_eq!(app.description, None);
    assert_eq!(app.shortcut_count, 0);

    create_shortcut(&mut db, shortcut_payload(app.id, "复制", "Cmd+C", None)).expect("shortcut");
    let fetched = fetch_app_by_id(&mut db, app.id).expect("fetch");
    assert_eq!(fetched.shortcut_count, 1);
}

#[test]
fn create_app_rejects_blank_name() {
    let mut db = open_catalogue();
    let err = create_app(&mut db, app_payload(" \t ", None)).unwrap_err();
    assert_eq!(err, "应用名称不能为空");
}

#[test]
fn create_app_rejects_duplicate_name() {
    let mut db = open_catalogue();
    create_app(&mut db, app_payload("Xcode", None)).expect("first");
    let err = create_app(&mut db, app_payload("Xcode", Some("again"))).unwrap_err();
    assert_eq!(err, "已存在重复记录，请更换名称或快捷键组合");
}

#[test]
fn list_apps_orders_by_name_ignoring_case() {
    let mut db = open_catalogue();
    create_app(&mut db, app_payload("zed", None)).expect("zed");
    create_app(&mut db, app_payload("Arc", None)).expect("arc");
    create_app(&mut db, app_payload("bear", Some("notes app"))).expect("bear");
    let names: Vec<String> = list_apps(&mut db).expect("list").into_iter().map(|a| a.name).collect();
    assert_eq!(names, vec!["Arc".to_owned(), "bear".to_owned(), "zed".to_owned()]);
}

#[test]
fn update_app_changes_fields_and_reports_missing_ids() {
    let mut db = open_catalogue();
    let app = create_app(&mut db, app_payload("Safari", None)).expect("create");
    let updated = update_app(&mut db, app.id, app_payload("Safari Tech Preview", Some(" beta "))).expect("update");
    assert_eq!(updated.name, "Safari Tech Preview");
    assert_eq!(updated.description, Some("beta".to_owned()));
    assert_eq!(update_app(&mut db, 999, app_payload("x", None)).unwrap_err(), "应用不存在: 999");
    assert_eq!(update_app(&mut db, app.id, app_payload("", None)).unwrap_err(), "应用名称不能为空");
}

#[test]
fn delete_app_removes_its_shortcuts() {
    let mut db = open_catalogue();
    let app = create_app(&mut db, app_payload("Terminal", None)).expect("create");
    let shortcut = create_shortcut(&mut db, shortcut_payload(app.id, "新标签", "Cmd+T", None)).expect("shortcut");
    delete_app(&mut db, app.id).expect("delete");
    assert_eq!(delete_app(&mut db, app.id).unwrap_err(), format!("应用不存在: {}", app.id));
    assert_eq!(list_shortcuts(&mut db, app.id).unwrap_err(), format!("应用不存在: {}", app.id));
    assert_eq!(
        update_shortcut_pin(&mut db, shortcut.id, true).unwrap_err(),
        format!("快捷键不存在: {}", shortcut.id)
    );
}

#[test]
fn create_shortcut_validates_fields() {
    let mut db = open_catalogue();
    let app = create_app(&mut db, app_payload("Finder", None)).expect("create");
    assert_eq!(
        create_shortcut(&mut db, shortcut_payload(app.id, "  ", "Cmd+N", None)).unwrap_err(),
        "快捷键名称不能为空"
    );
    assert_eq!(
        create_shortcut(&mut db, shortcut_payload(app.id, "新窗口", "\n", None)).unwrap_err(),
        "快捷键组合不能为空"
    );
    let created = create_shortcut(&mut db, shortcut_payload(app.id, " 新窗口 ", " Cmd+N ", Some(" 常用 "))).expect("create");
    assert_eq!(created.title, "新窗口");
    assert_eq!(created.combo, "Cmd+N");
    assert_eq!(created.notes, Some("常用".to_owned()));
    assert!(!created.is_pinned);
    assert_eq!(created.app_id, app.id);
}

#[test]
fn create_shortcut_for_missing_app_reports_missing_relation() {
    let mut db = open_catalogue();
    let err = create_shortcut(&mut db, shortcut_payload(42, "x", "Cmd+X", None)).unwrap_err();
    assert_eq!(err, "关联数据不存在或已被删除");
}

#[test]
fn duplicate_combo_is_reported_to_the_user() {
    let mut db = open_catalogue();
    let app = create_app(&mut db, app_payload("VS Code", None)).expect("create");
    create_shortcut(&mut db, shortcut_payload(app.id, "命令面板", "Command+Shift+P", None)).expect("first");
    let err = create_shortcut(&mut db, shortcut_payload(app.id, "重复命令", "Command+Shift+P", None)).unwrap_err();
    assert_eq!(err, "已存在重复记录，请更换名称或快捷键组合");
    let other = create_app(&mut db, app_payload("Cursor", None)).expect("other");
    create_shortcut(&mut db, shortcut_payload(other.id, "命令面板", "Command+Shift+P", None)).expect("other app");
}

#[test]
fn list_shortcuts_puts_pinned_first_then_title() {
    let mut db = open_catalogue();
    let app = create_app(&mut db, app_payload("Chrome", None)).expect("create");
    create_shortcut(&mut db, shortcut_payload(app.id, "b tab", "Cmd+B", None)).expect("b");
    let c = create_shortcut(&mut db, shortcut_payload(app.id, "C reload", "Cmd+R", None)).expect("c");
    create_shortcut(&mut db, shortcut_payload(app.id, "a close", "Cmd+W", None)).expect("a");
    let pinned = update_shortcut_pin(&mut db, c.id, true).expect("pin");
    assert!(pinned.is_pinned);
    let titles: Vec<String> = list_shortcuts(&mut db, app.id).expect("list").into_iter().map(|s| s.title).collect();
    assert_eq!(titles, vec!["C reload".to_owned(), "a close".to_owned(), "b tab".to_owned()]);
    let unpinned = update_shortcut_pin(&mut db, c.id, false).expect("unpin");
    assert!(!unpinned.is_pinned);
}

#[test]
fn update_and_delete_shortcut() {
    let mut db = open_catalogue();
    let app = create_app(&mut db, app_payload("Notes", None)).expect("create");
    let s = create_shortcut(&mut db, shortcut_payload(app.id, "粗体", "Cmd+B", None)).expect("create");
    let payload = UpdateShortcutPayload { title: " 加粗 ".to_owned(), combo: "Cmd+Shift+B".to_owned(), notes: None };
    let updated = update_shortcut(&mut db, s.id, payload).expect("update");
    assert_eq!(updated.title, "加粗");
    assert_eq!(updated.combo, "Cmd+Shift+B");
    let missing = UpdateShortcutPayload { title: "x".to_owned(), combo: "y".to_owned(), notes: None };
    assert_eq!(update_shortcut(&mut db, -7, missing).unwrap_err(), "快捷键不存在: -7");
    delete_shortcut(&mut db, s.id).expect("delete");
    assert_eq!(delete_shortcut(&mut db, s.id).unwrap_err(), format!("快捷键不存在: {}", s.id));
}

#[test]
fn app_row_mapper_reads_columns_in_order() {
    let conn = Connection::open_in_memory().expect("open in-memory db");
    let item = conn
        .query_row("SELECT 7, 'Zed', NULL, 3", [], |row| {
            let mut reader = RowReader::new(row);
            app_row_mapper(&mut reader)
        })
        .expect("read row");
    assert_eq!(item.id, 7);
    assert_eq!(item.name, "Zed");
    assert_eq!(item.description, None);
    assert_eq!(item.shortcut_count, 3);
}

#[test]
fn shortcut_row_mapper_reads_columns_in_order() {
    let conn = Connection::open_in_memory().expect("open in-memory db");
    let item = conn
        .query_row("SELECT 4, 9, 'Save', 'Cmd+S', 'note', 2", [], |row| {
            let mut reader = RowReader::new(row);
            shortcut_row_mapper(&mut reader)
        })
        .expect("read row");
    assert_eq!(item.id, 4);
    assert_eq!(item.app_id, 9);
    assert_eq!(item.title, "Save");
    assert_eq!(item.combo, "Cmd+S");
    assert_eq!(item.notes.as_deref(), Some("note"));
    assert!(item.is_pinned);
}

#[test]
fn shortcut_row_mapper_fails_on_a_text_in_an_integer_column() {
    let conn = Connection::open_in_memory().expect("open in-memory db");
    let outcome = conn.query_row("SELECT 4, 'nine', 'Save', 'Cmd+S', NULL, 0", [], |row| {
        let mut reader = RowReader::new(row);
        shortcut_row_mapper(&mut reader)
    });
    assert!(outcome.is_err());
}

#[test]
fn created_records_carry_the_ids_sqlite_gave() {
    let mut db = open_catalogue();
    let first = create_app(&mut db, app_payload("First", None)).expect("create first");
    let second = create_app(&mut db, app_payload("Second", None)).expect("create second");
    assert_ne!(first.id, second.id);
    assert_eq!(second.name, "Second");
    let a = create_shortcut(&mut db, shortcut_payload(second.id, "A", "Cmd+A", None)).expect("create a");
    let b = create_shortcut(&mut db, shortcut_payload(second.id, "B", "Cmd+B", None)).expect("create b");
    assert_ne!(a.id, b.id);
    assert_eq!(b.title, "B");
    assert_eq!(b.app_id, second.id);
}
