use notecli::db::{
    ColumnError, Database, SqlValue, Statement, SummaryRow, FTS_NEEDS_REBUILD, NOTE_COUNT,
    PAGE_COUNT, PAGE_SIZE, PRAGMAS, SCHEMA,
};
use notecli::models::{Account, NormalizedNote, NormalizedUser, StoredServer};
use rusqlite::types::Value;
use rusqlite::Connection;

fn migrate(conn: &mut Connection) {
    let migration = refinery::Migration::unapplied("V1__initial", SCHEMA).unwrap();
    refinery::Runner::new(&[migration]).run(conn).unwrap();
}

fn temp_db() -> Connection {
    let mut conn = Connection::open_in_memory().unwrap();
    conn.execute_batch(PRAGMAS).unwrap();
    migrate(&mut conn);
    conn
}

fn to_sql(v: &SqlValue) -> Value {
    match v {
        SqlValue::Null => Value::Null,
        SqlValue::Int(n) => Value::Integer(*n),
        SqlValue::Text(s) => Value::Text(s.clone()),
        SqlValue::Other => Value::Blob(Vec::new()),
    }
}

fn from_sql(v: Value) -> SqlValue {
    match v {
        Value::Null => SqlValue::Null,
        Value::Integer(n) => SqlValue::Int(n),
        Value::Text(s) => SqlValue::Text(s),
        _ => SqlValue::Other,
    }
}

fn exec(conn: &Connection, s: &Statement) {
    let params: Vec<Value> = s.params.iter().map(to_sql).collect();
    conn.execute(&s.sql, rusqlite::params_from_iter(params))
        .unwrap();
}

fn query(conn: &Connection, s: &Statement) -> Vec<Vec<SqlValue>> {
    let params: Vec<Value> = s.params.iter().map(to_sql).collect();
    let mut stmt = conn.prepare(&s.sql).unwrap();
    let n = stmt.column_count();
    let mut rows = stmt.query(rusqlite::params_from_iter(params)).unwrap();
    let mut out = Vec::new();
    while let Some(row) = rows.next().unwrap() {
        let mut values = Vec::new();
        for i in 0..n {
            values.push(from_sql(row.get::<_, Value>(i).unwrap()));
        }
        out.push(values);
    }
    out
}

fn number(conn: &Connection, sql: &str) -> i64 {
    conn.query_row(sql, [], |row| row.get(0)).unwrap()
}

#[test]
fn migration_creates_all_tables() {
    let conn = temp_db();
    let tables: Vec<String> = conn
        .prepare("SELECT name FROM sqlite_master WHERE type='table' ORDER BY name")
        .unwrap()
        .query_map([], |row| row.get(0))
        .unwrap()
        .collect::<Result<Vec<_>, _>>()
        .unwrap();
    assert!(tables.contains(&"accounts".to_string()));
    assert!(tables.contains(&"servers".to_string()));
    assert!(tables.contains(&"notes_cache".to_string()));
    assert!(tables.contains(&"ogp_cache".to_string()));
    assert!(tables.contains(&"refinery_schema_history".to_string()));
}

#[test]
fn migration_creates_fts5_virtual_table() {
    let conn = temp_db();
    let count = number(
        &conn,
        "SELECT COUNT(*) FROM sqlite_master WHERE type='table' AND name='notes_fts'",
    );
    assert_eq!(count, 1);
}

#[test]
fn migration_is_idempotent() {
    let mut conn = temp_db();
    migrate(&mut conn);
    let accounts = Database::accounts_from(&query(&conn, &Database::load_accounts())).unwrap();
    assert!(accounts.is_empty());
}

#[test]
fn migration_tracks_schema_version() {
    let conn = temp_db();
    let version = number(&conn, "SELECT MAX(version) FROM refinery_schema_history");
    assert!(version >= 1);
}

#[test]
fn ogp_cache_has_summaly_columns() {
    let conn = temp_db();
    let columns: Vec<String> = conn
        .prepare("SELECT name FROM pragma_table_info('ogp_cache')")
        .unwrap()
        .query_map([], |row| row.get(0))
        .unwrap()
        .collect::<Result<Vec<_>, _>>()
        .unwrap();
    for expected in &[
        "icon",
        "player_url",
        "player_width",
        "player_height",
        "player_allow",
        "final_url",
        "sensitive",
        "medias_json",
    ] {
        assert!(
            columns.contains(&expected.to_string()),
            "Missing column: {expected}"
        );
    }
}

#[test]
fn notes_cache_has_timeline_type_column() {
    let conn = temp_db();
    let has = number(
        &conn,
        "SELECT COUNT(*) FROM pragma_table_info('notes_cache') WHERE name='timeline_type'",
    );
    assert_eq!(has, 1);
}

fn sample_account() -> Account {
    Account {
        id: "acc-1".to_string(),
        host: "misskey.io".to_string(),
        token: "test-token".to_string(),
        user_id: "user-1".to_string(),
        username: "alice".to_string(),
        display_name: Some("Alice".to_string()),
        avatar_url: None,
        software: "misskey".to_string(),
    }
}

#[test]
fn account_upsert_and_load() {
    let conn = temp_db();
    exec(&conn, &Database::upsert_account(&sample_account()));

    let accounts = Database::accounts_from(&query(&conn, &Database::load_accounts())).unwrap();
    assert_eq!(accounts.len(), 1);
    assert_eq!(accounts[0].username, "alice");
    assert_eq!(accounts[0].host, "misskey.io");
    assert_eq!(accounts[0], sample_account());
}

#[test]
fn account_upsert_keeps_the_id_of_the_same_user() {
    let conn = temp_db();
    exec(&conn, &Database::upsert_account(&sample_account()));
    let mut again = sample_account();
    again.id = "acc-2".to_string();
    again.token = "newer".to_string();
    exec(&conn, &Database::upsert_account(&again));
    let accounts = Database::accounts_from(&query(&conn, &Database::load_accounts())).unwrap();
    assert_eq!(accounts.len(), 1);
    assert_eq!(accounts[0].id, "acc-1");
    assert_eq!(accounts[0].token, "newer");
}

#[test]
fn account_get_by_id() {
    let conn = temp_db();
    exec(&conn, &Database::upsert_account(&sample_account()));

    let acc = Database::first_account(&query(&conn, &Database::get_account("acc-1")))
        .unwrap()
        .unwrap();
    assert_eq!(acc.username, "alice");

    assert!(
        Database::first_account(&query(&conn, &Database::get_account("nonexistent")))
            .unwrap()
            .is_none()
    );
}

#[test]
fn account_get_by_host_and_user() {
    let conn = temp_db();
    exec(&conn, &Database::upsert_account(&sample_account()));
    let by_host = Database::first_account(&query(
        &conn,
        &Database::get_account_by_host("misskey.io"),
    ))
    .unwrap();
    assert_eq!(by_host, Some(sample_account()));
    let by_user = Database::first_account(&query(
        &conn,
        &Database::get_account_by_host_user("misskey.io", "user-2"),
    ))
    .unwrap();
    assert_eq!(by_user, None);
}

#[test]
fn account_delete() {
    let conn = temp_db();
    exec(&conn, &Database::upsert_account(&sample_account()));
    exec(&conn, &Database::delete_account("acc-1"));
    assert!(
        Database::accounts_from(&query(&conn, &Database::load_accounts()))
            .unwrap()
            .is_empty()
    );
}

#[test]
fn account_clear_token() {
    let conn = temp_db();
    exec(&conn, &Database::upsert_account(&sample_account()));
    exec(&conn, &Database::clear_token("acc-1"));

    let acc = Database::first_account(&query(&conn, &Database::get_account("acc-1")))
        .unwrap()
        .unwrap();
    assert!(acc.token.is_empty());
}

fn sample_server() -> StoredServer {
    StoredServer {
        host: "misskey.io".to_string(),
        software: "misskey".to_string(),
        version: "2025.3.0".to_string(),
        features_json: "{}".to_string(),
        updated_at: 1700000000,
    }
}

#[test]
fn server_upsert_and_load() {
    let conn = temp_db();
    exec(&conn, &Database::upsert_server(&sample_server()));

    let servers = Database::servers_from(&query(&conn, &Database::load_servers())).unwrap();
    assert_eq!(servers.len(), 1);
    assert_eq!(servers[0].host, "misskey.io");
    assert_eq!(servers[0], sample_server());
}

#[test]
fn server_get_by_host() {
    let conn = temp_db();
    exec(&conn, &Database::upsert_server(&sample_server()));

    let s = Database::first_server(&query(&conn, &Database::get_server("misskey.io")))
        .unwrap()
        .unwrap();
    assert_eq!(s.version, "2025.3.0");

    assert!(
        Database::first_server(&query(&conn, &Database::get_server("nonexistent")))
            .unwrap()
            .is_none()
    );
}

fn sample_note(id: &str, text: &str) -> NormalizedNote {
    NormalizedNote {
        id: id.to_string(),
        account_id: "acc-1".to_string(),
        server_host: "misskey.io".to_string(),
        created_at: "2025-01-01T00:00:00Z".to_string(),
        text: Some(text.to_string()),
        cw: None,
        user: NormalizedUser {
            id: "user-1".to_string(),
            username: "alice".to_string(),
            host: None,
            name: None,
            avatar_url: None,
            emojis: Vec::new(),
            is_bot: false,
            avatar_decorations: Vec::new(),
            instance: None,
        },
        visibility: "public".to_string(),
        emojis: Vec::new(),
        reaction_emojis: Vec::new(),
        reactions: Vec::new(),
        my_reaction: None,
        renote_count: 0,
        replies_count: 0,
        files: Vec::new(),
        poll: None,
        reply_id: None,
        renote_id: None,
        channel_id: None,
        reaction_acceptance: None,
        uri: None,
        url: None,
        updated_at: None,
        local_only: false,
        visible_user_ids: Vec::new(),
        is_favorited: false,
        mode_flags: Vec::new(),
        reply: None,
        renote: None,
    }
}

fn json_of(id: &str) -> String {
    format!("{{\"id\":\"{id}\"}}")
}

fn cache(conn: &Connection, notes: Vec<NormalizedNote>) {
    let jsons: Vec<String> = notes.iter().map(|n| json_of(&n.id)).collect();
    for s in Database::cache_notes(&notes, &jsons, "home", 1700000000) {
        exec(conn, &s);
    }
}

#[test]
fn cache_note_and_retrieve() {
    let conn = temp_db();
    cache(&conn, vec![sample_note("note-1", "Hello world")]);

    let rows = query(&conn, &Database::get_cached_timeline("acc-1", "home", 10));
    let cached = Database::note_texts(&rows).unwrap();
    assert_eq!(cached.len(), 1);
    assert_eq!(cached[0], json_of("note-1"));
    let other = query(&conn, &Database::get_cached_timeline("acc-1", "local", 10));
    assert!(other.is_empty());
}

#[test]
fn cache_note_delete() {
    let conn = temp_db();
    cache(&conn, vec![sample_note("note-1", "test")]);
    exec(&conn, &Database::delete_cached_note("note-1"));

    let rows = query(&conn, &Database::get_cached_timeline("acc-1", "home", 10));
    assert!(Database::note_texts(&rows).unwrap().is_empty());
}

#[test]
fn fts_search_finds_cached_notes() {
    let conn = temp_db();
    cache(
        &conn,
        vec![
            sample_note("n1", "Rust programming language"),
            sample_note("n2", "Python scripting"),
        ],
    );

    let rows = query(&conn, &Database::search_cached_notes("acc-1", "Rust", 10));
    let results = Database::found_texts(&rows);
    assert_eq!(results.len(), 1);
    assert_eq!(results[0], json_of("n1"));
}

#[test]
fn short_queries_are_looked_for_in_the_text() {
    let conn = temp_db();
    cache(
        &conn,
        vec![
            sample_note("n1", "Rust \"quoted\" text"),
            sample_note("n2", "Python scripting"),
        ],
    );
    let found = |q: &str| {
        Database::found_texts(&query(&conn, &Database::search_cached_notes("acc-1", q, 10)))
    };
    assert_eq!(found("yt"), vec![json_of("n2")]);
    assert_eq!(found("").len(), 2);
    assert_eq!(found("\"quoted\""), vec![json_of("n1")]);
    assert_eq!(found("' OR 1=1 --").len(), 0);
    let other = query(&conn, &Database::search_cached_notes("acc-2", "", 10));
    assert!(other.is_empty());
}

#[test]
fn search_statement_text_and_parameters() {
    let s = Database::search_cached_notes_advanced(
        "acc-1",
        "say \"hi\"",
        5,
        Some("2025-01-01"),
        Some("2025-02-01"),
        true,
    );
    assert_eq!(
        s.sql,
        "SELECT nc.note_json FROM notes_cache nc WHERE nc.account_id = ?1 \
         AND nc.rowid IN (SELECT rowid FROM notes_fts WHERE notes_fts MATCH ?2) \
         AND nc.created_at >= ?3 AND nc.created_at <= ?4 ORDER BY nc.created_at ASC LIMIT ?5"
    );
    assert_eq!(
        s.params,
        vec![
            SqlValue::Text("acc-1".into()),
            SqlValue::Text("\"say \"\"hi\"\"\"".into()),
            SqlValue::Text("2025-01-01".into()),
            SqlValue::Text("2025-02-01".into()),
            SqlValue::Int(5),
        ]
    );
    let short = Database::search_cached_notes("a", "日本", 3);
    assert_eq!(
        short.sql,
        "SELECT nc.note_json FROM notes_cache nc WHERE nc.account_id = ?1 \
         AND nc.text LIKE ?2 ORDER BY nc.created_at DESC LIMIT ?3"
    );
    assert_eq!(short.params[1], SqlValue::Text("%日本%".into()));
    let empty = Database::search_cached_notes("a", "", 3);
    assert_eq!(
        empty.sql,
        "SELECT nc.note_json FROM notes_cache nc WHERE nc.account_id = ?1 \
         ORDER BY nc.created_at DESC LIMIT ?2"
    );
    let fts = Database::search_cached_notes("a", "日本語", 3);
    assert_eq!(fts.params[1], SqlValue::Text("\"日本語\"".into()));
}

#[test]
fn dated_searches_and_timelines() {
    let conn = temp_db();
    let mut early = sample_note("n1", "early bird");
    early.created_at = "2024-01-01T00:00:00Z".into();
    cache(&conn, vec![early, sample_note("n2", "late bird")]);
    let rows = query(
        &conn,
        &Database::search_cached_notes_advanced("acc-1", "bird", 10, None, None, true),
    );
    assert_eq!(
        Database::found_texts(&rows),
        vec![json_of("n1"), json_of("n2")]
    );
    let rows = query(
        &conn,
        &Database::search_cached_notes_advanced("acc-1", "", 10, Some("2024-06-01"), None, false),
    );
    assert_eq!(Database::found_texts(&rows), vec![json_of("n2")]);
    let rows = query(
        &conn,
        &Database::get_cached_timeline_before("acc-1", "home", "2024-12-31", 10),
    );
    assert_eq!(Database::note_texts(&rows).unwrap(), vec![json_of("n1")]);
}

#[test]
fn cache_date_range() {
    let conn = temp_db();
    cache(&conn, vec![sample_note("n1", "test")]);

    let rows = query(&conn, &Database::get_cache_date_range("acc-1", "home"));
    let range = Database::date_range_from(&rows[0]).unwrap();
    assert!(range.is_some());
    let (oldest, newest) = range.unwrap();
    assert_eq!(oldest, newest);
    let rows = query(&conn, &Database::get_cache_date_range("acc-1", "local"));
    assert!(Database::date_range_from(&rows[0]).unwrap().is_none());
}

fn summary(url: &str, title: &str) -> SummaryRow {
    SummaryRow {
        url: url.to_string(),
        title: Some(title.to_string()),
        description: None,
        thumbnail: None,
        sitename: None,
        icon: None,
        player_url: None,
        player_width: None,
        player_height: None,
        player_allow: None,
        final_url: None,
        sensitive: false,
        medias_json: None,
    }
}

#[test]
fn ogp_cache_store_and_retrieve() {
    let conn = temp_db();
    let now = 1700000000;
    let mut row = summary("https://example.com", "Example");
    row.description = Some("A test page".to_string());
    row.player_width = Some(640);
    row.sensitive = true;
    exec(
        &conn,
        &Database::cache_summary("https://example.com", &row, 3600, now),
    );

    let rows = query(
        &conn,
        &Database::get_cached_summary("https://example.com", now),
    );
    let cached = Database::first_summary("https://example.com", &rows).unwrap();
    assert!(cached.is_some());
    let cached = cached.unwrap();
    assert_eq!(cached.title, Some("Example".to_string()));
    assert_eq!(cached, row);
    let all = query(&conn, &Database::load_summary_cache(10, now));
    assert_eq!(Database::summaries_from(&all).unwrap(), vec![row]);
}

#[test]
fn ogp_cache_expired_returns_none() {
    let conn = temp_db();
    let now = 1700000000;
    let row = summary("https://expired.com", "Old");
    exec(
        &conn,
        &Database::cache_summary("https://expired.com", &row, 0, now),
    );

    let rows = query(
        &conn,
        &Database::get_cached_summary("https://expired.com", now),
    );
    let cached = Database::first_summary("https://expired.com", &rows).unwrap();
    assert!(cached.is_none());
    assert_eq!(number(&conn, "SELECT COUNT(*) FROM ogp_cache"), 1);
    exec(&conn, &Database::cleanup_expired_ogp(now));
    assert_eq!(number(&conn, "SELECT COUNT(*) FROM ogp_cache"), 0);
}

#[test]
fn index_is_rebuilt_only_when_it_is_empty() {
    let conn = temp_db();
    assert_eq!(number(&conn, FTS_NEEDS_REBUILD), 0);
    assert!(Database::rebuild_fts_if_needed(false).is_none());
    let rebuild = Database::rebuild_fts_if_needed(true).unwrap();
    exec(&conn, &rebuild);
}

#[test]
fn cache_size_is_pages_times_page_size() {
    let conn = temp_db();
    cache(&conn, vec![sample_note("n1", "test")]);
    let (count, size) = Database::cache_stats(
        number(&conn, NOTE_COUNT),
        number(&conn, PAGE_COUNT),
        number(&conn, PAGE_SIZE),
    );
    assert_eq!(count, 1);
    assert!(size > 0);
    assert_eq!(Database::cache_stats(3, 7, 4096), (3, 28672));
}

#[test]
fn misfitting_columns_are_named() {
    let mut row: Vec<SqlValue> = (0..8)
        .map(|i| SqlValue::Text(format!("v{i}")))
        .collect();
    row[3] = SqlValue::Null;
    assert_eq!(
        Database::row_to_account(&row),
        Err(ColumnError { column: 3 })
    );
    row[3] = SqlValue::Text("u".into());
    row[5] = SqlValue::Null;
    assert!(Database::row_to_account(&row).is_ok());
    row[6] = SqlValue::Int(1);
    assert_eq!(
        Database::row_to_account(&row),
        Err(ColumnError { column: 6 })
    );
    row.truncate(2);
    assert_eq!(
        Database::row_to_account(&row),
        Err(ColumnError { column: 2 })
    );
    let mut page: Vec<SqlValue> = (0..12).map(|_| SqlValue::Null).collect();
    assert_eq!(
        Database::row_to_summary("u", &page).unwrap_err(),
        ColumnError { column: 10 }
    );
    page[10] = SqlValue::Int(2);
    page[6] = SqlValue::Int(-1);
    assert_eq!(
        Database::row_to_summary("u", &page).unwrap_err(),
        ColumnError { column: 6 }
    );
    page[6] = SqlValue::Int(10);
    assert!(Database::row_to_summary("u", &page).unwrap().sensitive);
    let rows = vec![vec![SqlValue::Text("a".into())], vec![SqlValue::Int(1)]];
    assert_eq!(Database::found_texts(&rows), vec!["a".to_string()]);
    assert_eq!(Database::note_texts(&rows), Err(ColumnError { column: 0 }));
    assert_eq!(
        Database::servers_from(&rows).unwrap_err(),
        ColumnError { column: 1 }
    );
}
