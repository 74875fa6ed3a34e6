//! The two user settings, the global toggle shortcut and the window position:
//! their defaults, how they are stored and loaded, and how a change to each
//! is carried out.

use vstd::prelude::*;
use crate::db::{
    added, database_error_of, db_error_message, extends, is_db_error_message, lemma_sent_concat,
    lemma_sent_none, lemma_sent_push, map_db_error, Answer, Database, DatabaseError, Exchange,
    ParamView, SqlParam, SqlStatement, StatementView,
};
use crate::position::{lemma_name_parses_back, WindowPositionMode};
use crate::store::{initialize_schema, schema_initialized};
use crate::text::{
    ascii_lowercase, is_ascii_text, blank_field_message, lemma_trim_ws_of_trimmed, lemma_trim_ws_idempotent, opt_view, require_non_empty, text_eq, trim_str,
    trim_ws,
};

verus! {

/// The toggle shortcut used when none is configured.
pub const DEFAULT_TOGGLE_SHORTCUT: &'static str = "CmdOrCtrl+Shift+I";

/// The toggle shortcut that used to be the default; a stored copy of it is
/// replaced by the current default.
pub const LEGACY_DEFAULT_TOGGLE_SHORTCUT: &'static str = "CmdOrCtrl+Shift+K";

/// The window position used when none is configured.
pub const DEFAULT_WINDOW_POSITION_MODE: &'static str = "top_center";

/// The settings as shown to the user.
#[derive(Debug)]
pub struct AppSettings {
    pub toggle_shortcut: String,
    pub window_position_mode: String,
}

/// `settings` shows `toggle_shortcut` and `mode`.
pub open spec fn settings_show(settings: AppSettings, toggle_shortcut: Seq<char>, mode: WindowPositionMode) -> bool {
    settings.toggle_shortcut@ == toggle_shortcut && settings.window_position_mode@ == mode.name()
}

/// The settings for the given shortcut and position.
pub fn get_settings(toggle_shortcut: &str, mode: WindowPositionMode) -> (r: AppSettings)
    ensures
        settings_show(r, toggle_shortcut@, mode),
{
    AppSettings {
        toggle_shortcut: toggle_shortcut.to_owned(),
        window_position_mode: mode.as_str().to_owned(),
    }
}

/// The key of the toggle shortcut setting.
pub const TOGGLE_SHORTCUT_KEY: &'static str = "toggle_shortcut";

/// The key of the window position setting.
pub const WINDOW_POSITION_MODE_KEY: &'static str = "window_position_mode";

/// Stores a setting, replacing an earlier value under the same key.
pub const UPSERT_SETTING_SQL: &'static str = "INSERT INTO app_settings (key, value) VALUES (?1, ?2) ON CONFLICT(key) DO UPDATE SET value = excluded.value";

/// Reads the value stored under a key.
pub const READ_SETTING_SQL: &'static str = "SELECT value FROM app_settings WHERE key = ?1";

/// The statement that stores `value` under `key`.
pub open spec fn upsert_setting_statement(key: Seq<char>, value: Seq<char>) -> StatementView {
    StatementView {
        sql: UPSERT_SETTING_SQL@,
        params: seq![ParamView::Text(key), ParamView::Text(value)],
    }
}

/// The statement that reads the value under `key`.
pub open spec fn read_setting_statement(key: Seq<char>) -> StatementView {
    StatementView { sql: READ_SETTING_SQL@, params: seq![ParamView::Text(key)] }
}

/// Builds the statement that stores `value` under `key`.
pub fn build_upsert_setting(key: &str, value: &str) -> (r: SqlStatement)
    ensures
        r@ == upsert_setting_statement(key@, value@),
{
    let params = vec![SqlParam::Text(key.to_owned()), SqlParam::Text(value.to_owned())];
    let r = SqlStatement { sql: UPSERT_SETTING_SQL, params };
    assert(r@.params =~= upsert_setting_statement(key@, value@).params);
    r
}

/// Builds the statement that reads the value under `key`.
pub fn build_read_setting(key: &str) -> (r: SqlStatement)
    ensures
        r@ == read_setting_statement(key@),
{
    let params = vec![SqlParam::Text(key.to_owned())];
    let r = SqlStatement { sql: READ_SETTING_SQL, params };
    assert(r@.params =~= read_setting_statement(key@).params);
    r
}

/// From history `before` to `after`, exactly the statement storing `value`
/// under `key` was sent; `ok` tells whether SQLite carried it out.
pub open spec fn setting_stored(before: Seq<Exchange>, after: Seq<Exchange>, key: Seq<char>, value: Seq<char>, ok: bool) -> bool {
    &&& extends(before, after)
    &&& added(before, after).len() == 1
    &&& added(before, after)[0].statement == upsert_setting_statement(key, value)
    &&& (ok <==> added(before, after)[0].answer is Changed)
}

/// From history `before` to `after`, exactly the statement reading `key` was
/// sent; SQLite answered `value` (`None` when no row holds the key), or the
/// read failed when `read` is `None`.
pub open spec fn setting_read(before: Seq<Exchange>, after: Seq<Exchange>, key: Seq<char>, read: Option<Option<Seq<char>>>) -> bool {
    &&& extends(before, after)
    &&& added(before, after).len() == 1
    &&& added(before, after)[0].statement == read_setting_statement(key)
    &&& added(before, after)[0].answer == match read {
        Some(value) => Answer::Text(value),
        None => Answer::Failed,
    }
}

/// Stores a setting, replacing an earlier value under the same key.
pub fn upsert_setting(db: &mut Database, key: &str, value: &str) -> (r: Result<(), DatabaseError>)
    ensures
        setting_stored(old(db).history(), final(db).history(), key@, value@, r is Ok),
{
    let ghost before = db.history();
    let outcome = db.run(build_upsert_setting(key, value));
    proof {
        lemma_sent_push(before, db.history().last());
        assert(db.history() == before.push(db.history().last()));
    }
    match outcome {
        Err(e) => Err(database_error_of(e)),
        Ok(_) => Ok(()),
    }
}

/// Reads a setting; `None` when it was never stored.
pub fn read_setting(db: &mut Database, key: &str) -> (r: Result<Option<String>, DatabaseError>)
    ensures
        setting_read(
            old(db).history(),
            final(db).history(),
            key@,
            match r {
                Ok(value) => Some(opt_view(value)),
                Err(_) => None,
            },
        ),
{
    let ghost before = db.history();
    let outcome = db.query_text(build_read_setting(key));
    proof {
        lemma_sent_push(before, db.history().last());
        assert(db.history() == before.push(db.history().last()));
    }
    match outcome {
        Err(e) => Err(database_error_of(e)),
        Ok(value) => Ok(value),
    }
}

/// The toggle shortcut to use for a stored value, and whether the default
/// must be written back: a missing, blank or legacy value gives the default.
pub open spec fn resolved_toggle_shortcut(stored: Option<Seq<char>>) -> (Seq<char>, bool) {
    match stored {
        None => (DEFAULT_TOGGLE_SHORTCUT@, true),
        Some(value) => {
            let trimmed = trim_ws(value);
            if trimmed.len() == 0 || trimmed == LEGACY_DEFAULT_TOGGLE_SHORTCUT@ {
                (DEFAULT_TOGGLE_SHORTCUT@, true)
            } else {
                (trimmed, false)
            }
        },
    }
}

/// A toggle shortcut that loading can give: the default, or a value without
/// surrounding white space that is neither blank nor the legacy default.
pub open spec fn is_loadable_toggle_shortcut(shortcut: Seq<char>) -> bool {
    ||| shortcut == DEFAULT_TOGGLE_SHORTCUT@
    ||| shortcut.len() > 0 && trim_ws(shortcut) == shortcut && shortcut != LEGACY_DEFAULT_TOGGLE_SHORTCUT@
}

/// Every outcome of resolving a stored value is loadable.
pub proof fn lemma_resolved_toggle_shortcut_loadable(stored: Option<Seq<char>>)
    ensures
        is_loadable_toggle_shortcut(resolved_toggle_shortcut(stored).0),
{
    if let Some(value) = stored {
        lemma_trim_ws_idempotent(value);
    }
}

/// Decides the toggle shortcut for a stored value (see
/// `resolved_toggle_shortcut`).
pub fn resolve_stored_toggle_shortcut(stored: Option<String>) -> (r: (String, bool))
    ensures
        (r.0@, r.1) == resolved_toggle_shortcut(opt_view(stored)),
{
    match stored {
        None => (DEFAULT_TOGGLE_SHORTCUT.to_owned(), true),
        Some(value) => {
            let trimmed = trim_str(value.as_str());
            if trimmed.is_empty() || text_eq(trimmed, LEGACY_DEFAULT_TOGGLE_SHORTCUT) {
                (DEFAULT_TOGGLE_SHORTCUT.to_owned(), true)
            } else {
                (trimmed.to_owned(), false)
            }
        },
    }
}

/// From history `before` to `after`, the toggle shortcut was loaded: its
/// key was read, and for a value `v` read the result is
/// `resolved_toggle_shortcut(v).0`, the default being stored under the key
/// first exactly when `resolved_toggle_shortcut(v).1` holds. `loaded` is the
/// result, `None` for a failure.
pub open spec fn toggle_shortcut_loaded(before: Seq<Exchange>, after: Seq<Exchange>, loaded: Option<Seq<char>>) -> bool {
    let sent = added(before, after);
    &&& extends(before, after)
    &&& sent.len() >= 1
    &&& sent[0].statement == read_setting_statement(TOGGLE_SHORTCUT_KEY@)
    &&& match sent[0].answer {
        Answer::Text(value) => {
            let (shortcut, write_back) = resolved_toggle_shortcut(value);
            if write_back {
                &&& sent.len() == 2
                &&& sent[1].statement == upsert_setting_statement(
                    TOGGLE_SHORTCUT_KEY@,
                    DEFAULT_TOGGLE_SHORTCUT@,
                )
                &&& (loaded is Some <==> sent[1].answer is Changed)
                &&& (loaded is Some ==> loaded == Some(shortcut))
            } else {
                sent.len() == 1 && loaded == Some(shortcut)
            }
        },
        _ => sent.len() == 1 && loaded is None,
    }
}

/// Loads the toggle shortcut, writing the default back when the stored
/// value is missing, blank or the legacy default.
pub fn load_toggle_shortcut(db: &mut Database) -> (r: Result<String, DatabaseError>)
    ensures
        toggle_shortcut_loaded(
            old(db).history(),
            final(db).history(),
            match r {
                Ok(s) => Some(s@),
                Err(_) => None,
            },
        ),
        r is Ok ==> is_loadable_toggle_shortcut(r->Ok_0@),
{
    let ghost before = db.history();
    let stored = match read_setting(db, TOGGLE_SHORTCUT_KEY) {
        Err(e) => {
            return Err(e);
        },
        Ok(stored) => stored,
    };
    let ghost after_read = db.history();
    let ghost stored_view = opt_view(stored);
    let (shortcut, needs_write) = resolve_stored_toggle_shortcut(stored);
    proof {
        lemma_resolved_toggle_shortcut_loadable(stored_view);
    }
    if needs_write {
        let written = upsert_setting(db, TOGGLE_SHORTCUT_KEY, DEFAULT_TOGGLE_SHORTCUT);
        proof {
            lemma_sent_concat(before, after_read, db.history());
        }
        if let Err(e) = written {
            return Err(e);
        }
    } else {
        proof {
            lemma_sent_none(after_read);
            lemma_sent_concat(before, after_read, db.history());
        }
    }
    Ok(shortcut)
}

/// The position mode a stored value names, if it names one.
pub open spec fn stored_mode(stored: Option<Seq<char>>) -> Option<WindowPositionMode> {
    match stored {
        None => None,
        Some(raw) => WindowPositionMode::parsed(raw),
    }
}

/// The position mode a stored value names, if it names one.
pub fn stored_position_mode(stored: Option<String>) -> (r: Option<WindowPositionMode>)
    ensures
        r == stored_mode(opt_view(stored)),
        stored matches Some(raw) ==> (is_ascii_text(trim_ws(raw@)) ==> r == WindowPositionMode::named(
            ascii_lowercase(trim_ws(raw@)),
        )),
{
    match stored {
        None => None,
        Some(raw) => WindowPositionMode::parse(raw.as_str()),
    }
}

/// From history `before` to `after`, the window position was loaded: its
/// key was read; a value naming a mode gives that mode, otherwise
/// `top_center` is stored under the key and the result is the top-centre
/// mode. `loaded` is the result, `None` for a failure.
pub open spec fn window_position_loaded(before: Seq<Exchange>, after: Seq<Exchange>, loaded: Option<WindowPositionMode>) -> bool {
    let sent = added(before, after);
    &&& extends(before, after)
    &&& sent.len() >= 1
    &&& sent[0].statement == read_setting_statement(WINDOW_POSITION_MODE_KEY@)
    &&& match sent[0].answer {
        Answer::Text(value) => match stored_mode(value) {
            Some(mode) => sent.len() == 1 && loaded == Some(mode),
            None => {
                &&& sent.len() == 2
                &&& sent[1].statement == upsert_setting_statement(
                    WINDOW_POSITION_MODE_KEY@,
                    DEFAULT_WINDOW_POSITION_MODE@,
                )
                &&& (loaded is Some <==> sent[1].answer is Changed)
                &&& (loaded is Some ==> loaded == Some(WindowPositionMode::TopCenter))
            },
        },
        _ => sent.len() == 1 && loaded is None,
    }
}

/// Loads the window position, writing the default back when the stored
/// value is missing or names no mode.
pub fn load_window_position_mode(db: &mut Database) -> (r: Result<WindowPositionMode, DatabaseError>)
    ensures
        window_position_loaded(
            old(db).history(),
            final(db).history(),
            match r {
                Ok(m) => Some(m),
                Err(_) => None,
            },
        ),
{
    let ghost before = db.history();
    let stored = match read_setting(db, WINDOW_POSITION_MODE_KEY) {
        Err(e) => {
            return Err(e);
        },
        Ok(stored) => stored,
    };
    let ghost after_read = db.history();
    if let Some(mode) = stored_position_mode(stored) {
        return Ok(mode);
    }
    let written = upsert_setting(db, WINDOW_POSITION_MODE_KEY, DEFAULT_WINDOW_POSITION_MODE);
    proof {
        lemma_sent_concat(before, after_read, db.history());
    }
    if let Err(e) = written {
        return Err(e);
    }
    proof {
        lemma_name_parses_back(WindowPositionMode::TopCenter);
    }
    let mode = match WindowPositionMode::parse(DEFAULT_WINDOW_POSITION_MODE) {
        Some(mode) => mode,
        None => WindowPositionMode::TopCenter,
    };
    assert(mode == WindowPositionMode::TopCenter);
    Ok(mode)
}

/// Creates what is missing of the database and loads both settings, in that
/// order, stopping at the first failure.
pub fn prepare_database(db: &mut Database) -> (r: Result<(String, WindowPositionMode), DatabaseError>)
    ensures
        r is Ok ==> exists|h1: Seq<Exchange>, h2: Seq<Exchange>|
            #![trigger schema_initialized(old(db).history(), h1, true), toggle_shortcut_loaded(h1, h2, Some(r->Ok_0.0@))]
            schema_initialized(old(db).history(), h1, true) && toggle_shortcut_loaded(
                h1,
                h2,
                Some(r->Ok_0.0@),
            ) && window_position_loaded(h2, final(db).history(), Some(r->Ok_0.1)),
        r is Err ==> {
            ||| schema_initialized(old(db).history(), final(db).history(), false)
            ||| exists|h1: Seq<Exchange>|
                #![trigger schema_initialized(old(db).history(), h1, true)]
                schema_initialized(old(db).history(), h1, true) && toggle_shortcut_loaded(
                    h1,
                    final(db).history(),
                    None,
                )
            ||| exists|h1: Seq<Exchange>, h2: Seq<Exchange>, s: Seq<char>|
                #![trigger schema_initialized(old(db).history(), h1, true), toggle_shortcut_loaded(h1, h2, Some(s))]
                schema_initialized(old(db).history(), h1, true) && toggle_shortcut_loaded(
                    h1,
                    h2,
                    Some(s),
                ) && window_position_loaded(h2, final(db).history(), None)
        },
        r is Ok ==> is_loadable_toggle_shortcut(r->Ok_0.0@),
{
    let ghost h0 = db.history();
    if let Err(e) = initialize_schema(db) {
        return Err(e);
    }
    let ghost h1 = db.history();
    let toggle_shortcut = match load_toggle_shortcut(db) {
        Err(e) => {
            assert(schema_initialized(h0, h1, true) && toggle_shortcut_loaded(h1, db.history(), None));
            return Err(e);
        },
        Ok(s) => s,
    };
    let ghost h2 = db.history();
    let window_position_mode = match load_window_position_mode(db) {
        Err(e) => {
            assert(schema_initialized(h0, h1, true) && toggle_shortcut_loaded(h1, h2, Some(toggle_shortcut@))
                && window_position_loaded(h2, db.history(), None));
            return Err(e);
        },
        Ok(m) => m,
    };
    let r: Result<(String, WindowPositionMode), DatabaseError> = Ok((toggle_shortcut, window_position_mode));
    assert(exists|g1: Seq<Exchange>, g2: Seq<Exchange>|
        #![trigger schema_initialized(h0, g1, true), toggle_shortcut_loaded(g1, g2, Some(r->Ok_0.0@))]
        schema_initialized(h0, g1, true) && toggle_shortcut_loaded(g1, g2, Some(r->Ok_0.0@))
            && window_position_loaded(g2, db.history(), Some(r->Ok_0.1))) by {
        assert(schema_initialized(h0, h1, true) && toggle_shortcut_loaded(h1, h2, Some(r->Ok_0.0@))
            && window_position_loaded(h2, db.history(), Some(r->Ok_0.1)));
    }
    r
}

/// The message for a window position that names no mode.
pub open spec fn invalid_position_message() -> Seq<char> {
    "窗口位置参数无效，可选值: left_top, top_center, right_top, left_center, center, right_center, left_bottom, bottom_center, right_bottom"@
}

/// Changes the window position to the mode `mode` names. A mode equal to
/// `current` needs no change; a new one is stored first. On success the
/// settings are returned with the mode the caller must now adopt (and place
/// the window by), `None` when nothing changed.
pub fn update_window_position_mode(
    db: &mut Database,
    mode: &str,
    current: WindowPositionMode,
    toggle_shortcut: &str,
) -> (r: Result<(AppSettings, Option<WindowPositionMode>), String>)
    ensures
        WindowPositionMode::parse_spec(mode@) is None ==> r is Err && r->Err_0@
            == invalid_position_message() && final(db).history() == old(db).history(),
        WindowPositionMode::parse_spec(mode@) == Some(current) ==> r is Ok && settings_show(
            r->Ok_0.0,
            toggle_shortcut@,
            current,
        ) && r->Ok_0.1 is None && final(db).history() == old(db).history(),
        forall|target: WindowPositionMode|
            WindowPositionMode::parse_spec(mode@) == Some(target) && target != current ==> {
                &&& setting_stored(
                    old(db).history(),
                    final(db).history(),
                    WINDOW_POSITION_MODE_KEY@,
                    target.name(),
                    r is Ok,
                )
                &&& r is Ok ==> settings_show(r->Ok_0.0, toggle_shortcut@, target) && r->Ok_0.1
                    == Some(target)
                &&& r is Err ==> is_db_error_message(r->Err_0@)
            },
{
    let target = match WindowPositionMode::parse(mode) {
        None => {
            return Err(
                String::from_str(
                    "窗口位置参数无效，可选值: left_top, top_center, right_top, left_center, center, right_center, left_bottom, bottom_center, right_bottom",
                ),
            );
        },
        Some(target) => target,
    };
    if target == current {
        return Ok((get_settings(toggle_shortcut, target), None));
    }
    match upsert_setting(db, WINDOW_POSITION_MODE_KEY, target.as_str()) {
        Err(e) => {
            let ghost error = e;
            let message = map_db_error(e);
            assert(db_error_message(error) == message@);
            Err(message)
        },
        Ok(()) => Ok((get_settings(toggle_shortcut, target), Some(target))),
    }
}

/// The message for a shortcut the system refused to register.
pub open spec fn registration_failure_message(description: Seq<char>) -> Seq<char> {
    "全局快捷键注册失败: "@ + description
}

/// The message for a shortcut the system refused to register, from the
/// refusal's description.
pub fn map_shortcut_error(description: &str) -> (r: String)
    ensures
        r@ == registration_failure_message(description@),
{
    String::from_str("全局快捷键注册失败: ").concat(description)
}

/// What the caller must do, in order, while a toggle shortcut update runs.
pub enum ShortcutCommand {
    /// Release this global shortcut; the outcome does not matter.
    Unregister(String),
    /// Register this global shortcut. The outcome is reported back while the
    /// update waits for it; otherwise it does not matter.
    Register(String),
    /// Store this shortcut as the toggle shortcut setting and report the outcome.
    Persist(String),
    /// Make this shortcut the one in effect.
    Adopt(String),
}

/// A toggle shortcut update in progress, or its result.
pub enum ShortcutUpdate {
    /// `previous` was released and `target` is being registered.
    Registering { target: String, previous: String, mode: WindowPositionMode },
    /// `target` is registered and is being stored.
    Persisting { target: String, previous: String, mode: WindowPositionMode },
    /// The update is over.
    Finished(Result<AppSettings, String>),
}

/// An outcome reported back to a running update.
pub enum ShortcutEvent {
    /// Registering the target ended, with the refusal's description on failure.
    Registered(Result<(), String>),
    /// Storing the target ended.
    Persisted(Result<(), DatabaseError>),
}

/// `command` releases `shortcut`.
pub open spec fn unregisters(command: ShortcutCommand, shortcut: Seq<char>) -> bool {
    command matches ShortcutCommand::Unregister(s) && s@ == shortcut
}

/// `command` registers `shortcut`.
pub open spec fn registers(command: ShortcutCommand, shortcut: Seq<char>) -> bool {
    command matches ShortcutCommand::Register(s) && s@ == shortcut
}

/// `command` stores `shortcut`.
pub open spec fn persists(command: ShortcutCommand, shortcut: Seq<char>) -> bool {
    command matches ShortcutCommand::Persist(s) && s@ == shortcut
}

/// `command` puts `shortcut` into effect.
pub open spec fn adopts(command: ShortcutCommand, shortcut: Seq<char>) -> bool {
    command matches ShortcutCommand::Adopt(s) && s@ == shortcut
}

/// `update` is over with the message `message`.
pub open spec fn finished_with_error(update: ShortcutUpdate, message: Seq<char>) -> bool {
    update matches ShortcutUpdate::Finished(Err(m)) && m@ == message
}

/// `update` is over with settings showing `toggle_shortcut` and `mode`.
pub open spec fn finished_with_settings(update: ShortcutUpdate, toggle_shortcut: Seq<char>, mode: WindowPositionMode) -> bool {
    update matches ShortcutUpdate::Finished(Ok(s)) && settings_show(s, toggle_shortcut, mode)
}

/// `update` registers `target` after `previous` was released.
pub open spec fn is_registering(update: ShortcutUpdate, target: Seq<char>, previous: Seq<char>, mode: WindowPositionMode) -> bool {
    update matches ShortcutUpdate::Registering { target: t, previous: p, mode: m } && t@ == target
        && p@ == previous && m == mode
}

/// `update` stores `target`, `previous` having been released.
pub open spec fn is_persisting(update: ShortcutUpdate, target: Seq<char>, previous: Seq<char>, mode: WindowPositionMode) -> bool {
    update matches ShortcutUpdate::Persisting { target: t, previous: p, mode: m } && t@ == target
        && p@ == previous && m == mode
}

/// Starts changing the global toggle shortcut from `current` to `requested`.
/// A blank request is refused; a request equal to the shortcut in effect
/// finishes at once with nothing to do; otherwise the current shortcut is
/// released and the requested one registered.
pub fn start_toggle_shortcut_update(requested: &str, current: &str, mode: WindowPositionMode) -> (r: (ShortcutUpdate, Vec<ShortcutCommand>))
    ensures
        trim_ws(requested@).len() == 0 ==> finished_with_error(
            r.0,
            blank_field_message("全局唤起快捷键"@),
        ) && r.1@.len() == 0,
        trim_ws(requested@).len() > 0 && trim_ws(requested@) == current@ ==> finished_with_settings(
            r.0,
            current@,
            mode,
        ) && r.1@.len() == 0,
        trim_ws(requested@).len() > 0 && trim_ws(requested@) != current@ ==> is_registering(
            r.0,
            trim_ws(requested@),
            current@,
            mode,
        ) && r.1@.len() == 2 && unregisters(r.1@[0], current@) && registers(
            r.1@[1],
            trim_ws(requested@),
        ),
{
    let target = match require_non_empty(requested, "全局唤起快捷键") {
        Err(message) => {
            return (ShortcutUpdate::Finished(Err(message)), Vec::new());
        },
        Ok(target) => target,
    };
    if text_eq(target.as_str(), current) {
        return (ShortcutUpdate::Finished(Ok(get_settings(target.as_str(), mode))), Vec::new());
    }
    let commands = vec![
        ShortcutCommand::Unregister(current.to_owned()),
        ShortcutCommand::Register(target.clone()),
    ];
    (ShortcutUpdate::Registering { target, previous: current.to_owned(), mode }, commands)
}

/// Moves a toggle shortcut update on with a reported outcome. A refused
/// registration re-registers the previous shortcut; a failed store releases
/// the target and re-registers the previous shortcut; a successful store
/// puts the target into effect. An outcome the update is not waiting for
/// changes nothing.
pub fn advance_toggle_shortcut_update(update: ShortcutUpdate, event: ShortcutEvent) -> (r: (ShortcutUpdate, Vec<ShortcutCommand>))
    ensures
        forall|t: Seq<char>, p: Seq<char>, m: WindowPositionMode|
            is_registering(update, t, p, m) ==> match event {
                ShortcutEvent::Registered(Err(description)) => finished_with_error(
                    r.0,
                    registration_failure_message(description@),
                ) && r.1@.len() == 1 && registers(r.1@[0], p),
                ShortcutEvent::Registered(Ok(())) => is_persisting(r.0, t, p, m) && r.1@.len() == 1
                    && persists(r.1@[0], t),
                ShortcutEvent::Persisted(_) => r.0 == update && r.1@.len() == 0,
            },
        forall|t: Seq<char>, p: Seq<char>, m: WindowPositionMode|
            is_persisting(update, t, p, m) ==> match event {
                ShortcutEvent::Persisted(Err(error)) => finished_with_error(
                    r.0,
                    db_error_message(error),
                ) && r.1@.len() == 2 && unregisters(r.1@[0], t) && registers(r.1@[1], p),
                ShortcutEvent::Persisted(Ok(())) => finished_with_settings(r.0, t, m) && r.1@.len()
                    == 1 && adopts(r.1@[0], t),
                ShortcutEvent::Registered(_) => r.0 == update && r.1@.len() == 0,
            },
        update is Finished ==> r.0 == update && r.1@.len() == 0,
{
    match update {
        ShortcutUpdate::Registering { target, previous, mode } => match event {
            ShortcutEvent::Registered(Err(description)) => {
                let message = map_shortcut_error(description.as_str());
                (ShortcutUpdate::Finished(Err(message)), vec![ShortcutCommand::Register(previous)])
            },
            ShortcutEvent::Registered(Ok(())) => {
                let commands = vec![ShortcutCommand::Persist(target.clone())];
                (ShortcutUpdate::Persisting { target, previous, mode }, commands)
            },
            ShortcutEvent::Persisted(_) => {
                (ShortcutUpdate::Registering { target, previous, mode }, Vec::new())
            },
        },
        ShortcutUpdate::Persisting { target, previous, mode } => match event {
            ShortcutEvent::Persisted(Err(error)) => {
                let message = map_db_error(error);
                (
                    ShortcutUpdate::Finished(Err(message)),
                    vec![ShortcutCommand::Unregister(target), ShortcutCommand::Register(previous)],
                )
            },
            ShortcutEvent::Persisted(Ok(())) => {
                let settings = get_settings(target.as_str(), mode);
                (ShortcutUpdate::Finished(Ok(settings)), vec![ShortcutCommand::Adopt(target)])
            },
            ShortcutEvent::Registered(_) => {
                (ShortcutUpdate::Persisting { target, previous, mode }, Vec::new())
            },
        },
        ShortcutUpdate::Finished(result) => (ShortcutUpdate::Finished(result), Vec::new()),
    }
}

/// The shortcut to fall back to when the configured one cannot be
/// registered at start-up: the default, unless the configured one already
/// is the default.
pub fn startup_fallback_shortcut(configured: &str) -> (r: Option<&'static str>)
    ensures
        configured@ == DEFAULT_TOGGLE_SHORTCUT@ ==> r is None,
        configured@ != DEFAULT_TOGGLE_SHORTCUT@ ==> r is Some && r->0@ == DEFAULT_TOGGLE_SHORTCUT@,
{
    if text_eq(configured, DEFAULT_TOGGLE_SHORTCUT) {
        None
    } else {
        Some(DEFAULT_TOGGLE_SHORTCUT)
    }
}

/// The value a history last stored under `key`: that of the latest storing
/// statement for `key` that SQLite carried out, if there is one.
pub open spec fn last_stored(history: Seq<Exchange>, key: Seq<char>) -> Option<Seq<char>>
    decreases history.len(),
{
    if history.len() == 0 {
        None
    } else {
        let e = history.last();
        if e.answer is Changed && e.statement.sql == UPSERT_SETTING_SQL@ && e.statement.params.len()
            == 2 && e.statement.params[0] == ParamView::Text(key) && e.statement.params[1] is Text {
            Some(e.statement.params[1]->Text_0)
        } else {
            last_stored(history.drop_last(), key)
        }
    }
}

/// A history in which SQLite answered every successful read of a setting
/// with the value last stored under its key before the read, wherever one
/// had been stored: what a settings table keyed by its primary key does.
pub open spec fn reads_see_stores(history: Seq<Exchange>) -> bool {
    forall|i: int, key: Seq<char>|
        #![trigger history[i], last_stored(history.take(i), key)]
        0 <= i < history.len() && history[i].statement == read_setting_statement(key)
            && history[i].answer is Text && last_stored(history.take(i), key) is Some
            ==> history[i].answer == Answer::Text(last_stored(history.take(i), key))
}

/// Storing a setting makes its value the last stored under its key, and
/// leaves every other key's last stored value as it was.
pub proof fn lemma_store_sets_last_stored(
    before: Seq<Exchange>,
    after: Seq<Exchange>,
    key: Seq<char>,
    value: Seq<char>,
    other: Seq<char>,
)
    requires
        setting_stored(before, after, key, value, true),
    ensures
        last_stored(after, key) == Some(value),
        other != key ==> last_stored(after, other) == last_stored(before, other),
{
    assert(after == before + added(before, after));
    assert(after.last() == added(before, after)[0]);
    assert(after.drop_last() =~= before);
}

/// Every loadable toggle shortcut, once stored, loads back unchanged with
/// nothing written back.
pub proof fn lemma_loadable_toggle_shortcut_resolves(shortcut: Seq<char>)
    requires
        is_loadable_toggle_shortcut(shortcut),
    ensures
        resolved_toggle_shortcut(Some(shortcut)) == (shortcut, false),
{
    reveal_strlit("CmdOrCtrl+Shift+I");
    reveal_strlit("CmdOrCtrl+Shift+K");
    if shortcut == DEFAULT_TOGGLE_SHORTCUT@ {
        lemma_trim_ws_of_trimmed(shortcut);
        assert(DEFAULT_TOGGLE_SHORTCUT@[16] != LEGACY_DEFAULT_TOGGLE_SHORTCUT@[16]);
    }
}

/// A toggle shortcut that was stored and is loadable is what the next load
/// gives, with nothing written back, when SQLite answers reads with what
/// was stored.
pub proof fn lemma_toggle_shortcut_read_back(
    h0: Seq<Exchange>,
    h1: Seq<Exchange>,
    h2: Seq<Exchange>,
    shortcut: Seq<char>,
    loaded: Option<Seq<char>>,
)
    requires
        setting_stored(h0, h1, TOGGLE_SHORTCUT_KEY@, shortcut, true),
        is_loadable_toggle_shortcut(shortcut),
        toggle_shortcut_loaded(h1, h2, loaded),
        reads_see_stores(h2),
        added(h1, h2)[0].answer is Text,
    ensures
        loaded == Some(shortcut),
        added(h1, h2).len() == 1,
{
    lemma_store_sets_last_stored(h0, h1, TOGGLE_SHORTCUT_KEY@, shortcut, TOGGLE_SHORTCUT_KEY@);
    let i = h1.len() as int;
    assert(h2.take(i) =~= h1);
    assert(h2[i] == added(h1, h2)[0]);
    assert(last_stored(h2.take(i), TOGGLE_SHORTCUT_KEY@) is Some);
    lemma_loadable_toggle_shortcut_resolves(shortcut);
}

/// A window position that was stored by its name is what the next load
/// gives, with nothing written back, when SQLite answers reads with what
/// was stored.
pub proof fn lemma_window_position_read_back(
    h0: Seq<Exchange>,
    h1: Seq<Exchange>,
    h2: Seq<Exchange>,
    mode: WindowPositionMode,
    loaded: Option<WindowPositionMode>,
)
    requires
        setting_stored(h0, h1, WINDOW_POSITION_MODE_KEY@, mode.name(), true),
        window_position_loaded(h1, h2, loaded),
        reads_see_stores(h2),
        added(h1, h2)[0].answer is Text,
    ensures
        loaded == Some(mode),
        added(h1, h2).len() == 1,
{
    lemma_store_sets_last_stored(h0, h1, WINDOW_POSITION_MODE_KEY@, mode.name(), WINDOW_POSITION_MODE_KEY@);
    let i = h1.len() as int;
    assert(h2.take(i) =~= h1);
    assert(h2[i] == added(h1, h2)[0]);
    assert(last_stored(h2.take(i), WINDOW_POSITION_MODE_KEY@) is Some);
    lemma_name_parses_back(mode);
}

} // verus!
