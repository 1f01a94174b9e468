use todo_store::error::{IoOp, StoreError};
use todo_store::file_store::{todos_file_name, todos_temp_file_name, Action, Event, FileSession, Operation, Reply};
use todo_store::greeting::greet;
use todo_store::schema::{todo_migrations, MigrationLedger, TODOS_SCHEMA_VERSION};
use todo_store::todo::Todo;

fn sample() -> Vec<Todo> {
    vec![
        Todo::new(1, "buy milk".to_string(), false),
        Todo::new(2, "pay bills".to_string(), true),
    ]
}

fn fields(todos: &[Todo]) -> Vec<(u64, String, bool)> {
    todos.iter().map(|t| (t.id, t.text.clone(), t.completed)).collect()
}

fn encode(todos: &[Todo]) -> String {
    let items: Vec<serde_json::Value> = todos
        .iter()
        .map(|t| {
            let mut m = serde_json::Map::new();
            m.insert("id".to_string(), serde_json::Value::from(t.id));
            m.insert("text".to_string(), serde_json::Value::from(t.text.clone()));
            m.insert("completed".to_string(), serde_json::Value::from(t.completed));
            serde_json::Value::Object(m)
        })
        .collect();
    serde_json::to_string_pretty(&serde_json::Value::Array(items)).unwrap()
}

fn decode(text: &str) -> Result<Vec<Todo>, String> {
    let v: serde_json::Value = serde_json::from_str(text).map_err(|e| e.to_string())?;
    let items = v.as_array().ok_or("expected a sequence".to_string())?;
    let mut out = Vec::new();
    for item in items {
        let id = item.get("id").and_then(|x| x.as_u64()).ok_or("missing field `id`")?;
        let text = item.get("text").and_then(|x| x.as_str()).ok_or("missing field `text`")?;
        let completed =
            item.get("completed").and_then(|x| x.as_bool()).ok_or("missing field `completed`")?;
        out.push(Todo::new(id, text.to_string(), completed));
    }
    Ok(out)
}

/// Runs a whole operation against an in-memory document.
fn run(start: (FileSession, Action), doc: &mut Option<String>) -> Result<Reply, StoreError> {
    run_with(start, doc, false)
}

/// Runs a whole operation; with `fail_rename`, the final rename of a save fails.
fn run_with(
    start: (FileSession, Action),
    doc: &mut Option<String>,
    fail_rename: bool,
) -> Result<Reply, StoreError> {
    let (mut session, mut action) = start;
    let mut staged: Option<String> = None;
    loop {
        let event = match action {
            Action::ResolvePath => Event::PathResolved(Ok("/data/todos.json".to_string())),
            Action::CreateDir => Event::DirCreated(Ok(())),
            Action::Serialize(todos) => Event::Serialized(Ok(encode(&todos))),
            Action::WriteTemp(text) => {
                staged = Some(text);
                Event::TempWritten(Ok(()))
            }
            Action::Rename => {
                if fail_rename {
                    Event::Renamed(Err("busy".to_string()))
                } else {
                    *doc = staged.take();
                    Event::Renamed(Ok(()))
                }
            }
            Action::CheckExists => Event::Exists(doc.is_some()),
            Action::Read => Event::FileRead(Ok(doc.clone().unwrap())),
            Action::Parse(text) => Event::Parsed(decode(&text)),
            Action::Finish(r) => return r,
        };
        assert!(session.accepts(&event));
        action = session.step(event);
    }
}

fn loaded(r: Result<Reply, StoreError>) -> Vec<Todo> {
    match r {
        Ok(Reply::Loaded(v)) => v,
        _ => panic!("expected a loaded collection"),
    }
}

#[test]
fn greet_formats_message() {
    assert_eq!(greet("Ada"), "Hello, Ada! You've been greeted from Rust!");
    assert_eq!(greet(""), "Hello, ! You've been greeted from Rust!");
}

#[test]
fn file_name_is_fixed() {
    assert_eq!(todos_file_name(), "todos.json");
}

#[test]
fn save_then_load_example_scenario() {
    let mut doc = None;
    let r = run(FileSession::save_todos(sample()), &mut doc);
    assert!(matches!(r, Ok(Reply::Saved)));
    let back = loaded(run(FileSession::load_todos(), &mut doc));
    assert_eq!(
        fields(&back),
        vec![(1, "buy milk".to_string(), false), (2, "pay bills".to_string(), true)]
    );
}

#[test]
fn round_trip_empty_and_unicode() {
    for c in [
        Vec::new(),
        vec![Todo::new(7, "café ☕ 日本語 \"q\" \\ \n".to_string(), true)],
        vec![Todo::new(3, String::new(), false), Todo::new(3, "dup".to_string(), true)],
    ] {
        let expected = fields(&c);
        let mut doc = None;
        assert!(matches!(run(FileSession::save_todos(c), &mut doc), Ok(Reply::Saved)));
        assert_eq!(fields(&loaded(run(FileSession::load_todos(), &mut doc))), expected);
    }
}

#[test]
fn first_load_is_empty() {
    let mut doc = None;
    assert!(loaded(run(FileSession::load_todos(), &mut doc)).is_empty());
}

#[test]
fn second_save_replaces_first() {
    let mut doc = None;
    run(FileSession::save_todos(sample()), &mut doc).ok().unwrap();
    let c2 = vec![Todo::new(9, "walk dog".to_string(), false)];
    run(FileSession::save_todos(c2), &mut doc).ok().unwrap();
    assert_eq!(
        fields(&loaded(run(FileSession::load_todos(), &mut doc))),
        vec![(9, "walk dog".to_string(), false)]
    );
}

#[test]
fn malformed_document_is_rejected() {
    for text in ["42", "[{\"id\": 1, \"completed\": false}]", "[{\"id\": 1, \"te"] {
        let mut doc = Some(text.to_string());
        match run(FileSession::load_todos(), &mut doc) {
            Err(e) => {
                assert!(e.is_deserialization());
                assert!(e.message().starts_with("Failed to parse JSON: "));
            }
            Ok(_) => panic!("malformed content must not load"),
        }
    }
}

#[test]
fn show_path_reports_resolved_path() {
    let (mut s, a) = FileSession::get_todos_path();
    assert!(matches!(a, Action::ResolvePath));
    assert!(matches!(
        s.step(Event::PathResolved(Ok("/d/todos.json".to_string()))),
        Action::CreateDir
    ));
    match s.step(Event::DirCreated(Ok(()))) {
        Action::Finish(Ok(Reply::Path(p))) => assert_eq!(p, "/d/todos.json"),
        _ => panic!("expected the path"),
    }
    assert!(s.is_done());
    assert_eq!(s.op, Operation::ShowPath);
}

#[test]
fn unresolved_directory_fails_every_operation() {
    for (mut s, _) in [
        FileSession::save_todos(sample()),
        FileSession::load_todos(),
        FileSession::get_todos_path(),
    ] {
        match s.step(Event::PathResolved(Err("no home".to_string()))) {
            Action::Finish(Err(StoreError::DirectoryResolution(d))) => assert_eq!(d, "no home"),
            _ => panic!("expected a resolution error"),
        }
        assert!(s.is_done());
    }
}

#[test]
fn save_errors_map_to_kinds() {
    let (mut s, _) = FileSession::save_todos(sample());
    s.step(Event::PathResolved(Ok("p".to_string())));
    match s.step(Event::DirCreated(Err("denied".to_string()))) {
        Action::Finish(Err(e)) => {
            assert!(matches!(e, StoreError::Io(IoOp::CreateDir, _)));
            assert_eq!(e.message(), "denied");
        }
        _ => panic!("expected an I/O error"),
    }

    let (mut s, _) = FileSession::save_todos(sample());
    s.step(Event::PathResolved(Ok("p".to_string())));
    match s.step(Event::DirCreated(Ok(()))) {
        Action::Serialize(v) => assert_eq!(fields(&v), fields(&sample())),
        _ => panic!("expected the collection to encode"),
    }
    match s.step(Event::Serialized(Err("bad".to_string()))) {
        Action::Finish(Err(e)) => {
            assert!(matches!(e, StoreError::Serialization(_)));
            assert_eq!(e.message(), "bad");
        }
        _ => panic!("expected a serialization error"),
    }

    let (mut s, _) = FileSession::save_todos(Vec::new());
    s.step(Event::PathResolved(Ok("p".to_string())));
    s.step(Event::DirCreated(Ok(())));
    match s.step(Event::Serialized(Ok("[]".to_string()))) {
        Action::WriteTemp(t) => assert_eq!(t, "[]"),
        _ => panic!("expected a temporary write"),
    }
    match s.step(Event::TempWritten(Err("disk full".to_string()))) {
        Action::Finish(Err(e)) => assert_eq!(e.message(), "Failed to write file: disk full"),
        _ => panic!("expected a write error"),
    }

    let (mut s, _) = FileSession::save_todos(Vec::new());
    s.step(Event::PathResolved(Ok("p".to_string())));
    s.step(Event::DirCreated(Ok(())));
    s.step(Event::Serialized(Ok("[]".to_string())));
    assert!(matches!(s.step(Event::TempWritten(Ok(()))), Action::Rename));
    match s.step(Event::Renamed(Err("locked".to_string()))) {
        Action::Finish(Err(e)) => assert_eq!(e.message(), "Failed to write file: locked"),
        _ => panic!("expected a write error"),
    }
    assert!(s.is_done());
}

#[test]
fn read_error_is_io_error() {
    let (mut s, _) = FileSession::load_todos();
    assert!(matches!(s.step(Event::PathResolved(Ok("p".to_string()))), Action::CheckExists));
    assert!(!s.accepts(&Event::DirCreated(Ok(()))));
    assert!(matches!(s.step(Event::Exists(true)), Action::Read));
    match s.step(Event::FileRead(Err("gone".to_string()))) {
        Action::Finish(Err(e)) => {
            assert!(matches!(e, StoreError::Io(IoOp::Read, _)));
            assert_eq!(e.message(), "Failed to read file: gone");
        }
        _ => panic!("expected a read error"),
    }
}

#[test]
fn error_messages_of_every_kind() {
    let d = || "x".to_string();
    assert_eq!(StoreError::DirectoryResolution(d()).message(), "x");
    assert_eq!(StoreError::Deserialization(d()).message(), "Failed to parse JSON: x");
    assert_eq!(StoreError::Connection(d()).message(), "Failed to open database: x");
    assert_eq!(StoreError::Schema(d()).message(), "Failed to apply migration: x");
    assert_eq!(StoreError::ConstraintViolation(d()).message(), "Duplicate todo id: x");
    assert!(!StoreError::Schema(d()).is_deserialization());
}

#[test]
fn migrations_define_todos_table() {
    let ms = todo_migrations();
    assert_eq!(ms.len(), 1);
    assert_eq!(ms[0].version, 1);
    assert_eq!(TODOS_SCHEMA_VERSION, 1);
    assert_eq!(ms[0].description, "create_todos_table");
    assert_eq!(
        ms[0].sql,
        "CREATE TABLE IF NOT EXISTS todos (id INTEGER PRIMARY KEY, text TEXT NOT NULL, completed INTEGER NOT NULL DEFAULT 0);"
    );
}

#[test]
fn migration_applied_twice_runs_once() {
    let ms = todo_migrations();
    let mut ledger = MigrationLedger::new();
    assert!(!ledger.is_ready());
    assert_eq!(ledger.apply(&ms), vec![0]);
    assert!(ledger.is_ready());
    assert_eq!(ledger.applied, vec![1]);
    assert!(ledger.apply(&ms).is_empty());
    assert_eq!(ledger.applied, vec![1]);
}

#[test]
fn migration_list_with_repeats_runs_each_version_once() {
    let mk = |v: u64| todo_store::schema::Migration {
        version: v,
        description: String::new(),
        sql: String::new(),
    };
    let ms = vec![mk(2), mk(1), mk(2), mk(3)];
    let mut ledger = MigrationLedger::new();
    ledger.apply(&vec![mk(1)]);
    assert_eq!(ledger.apply(&ms), vec![0, 3]);
    assert_eq!(ledger.applied, vec![1, 2, 3]);
    assert!(ledger.is_applied(3));
    assert!(!ledger.is_applied(4));
}

#[test]
fn duplicate_keeps_fields() {
    let t = Todo::new(5, "a".to_string(), true);
    let u = t.duplicate();
    assert_eq!((u.id, u.text, u.completed), (5, "a".to_string(), true));
}

#[test]
fn directory_failure_stops_save_and_path() {
    for (mut s, _) in [FileSession::save_todos(sample()), FileSession::get_todos_path()] {
        assert!(matches!(s.step(Event::PathResolved(Ok("p".to_string()))), Action::CreateDir));
        match s.step(Event::DirCreated(Err("read-only".to_string()))) {
            Action::Finish(Err(e)) => {
                assert!(matches!(e, StoreError::Io(IoOp::CreateDir, _)));
                assert_eq!(e.message(), "read-only");
            }
            _ => panic!("expected an I/O error"),
        }
    }
}

#[test]
fn failed_save_keeps_previous_document() {
    let mut doc = None;
    run(FileSession::save_todos(sample()), &mut doc).ok().unwrap();
    let before = doc.clone();
    let r = run_with(
        FileSession::save_todos(vec![Todo::new(9, "walk dog".to_string(), false)]),
        &mut doc,
        true,
    );
    assert!(matches!(r, Err(StoreError::Io(IoOp::Write, _))));
    assert_eq!(doc, before);
    assert_eq!(fields(&loaded(run(FileSession::load_todos(), &mut doc))), fields(&sample()));
}

#[test]
fn load_asks_for_no_directory() {
    let (mut s, _) = FileSession::load_todos();
    assert!(matches!(s.step(Event::PathResolved(Ok("p".to_string()))), Action::CheckExists));
    assert!(finishes_empty_now(s.step(Event::Exists(false))));
}

fn finishes_empty_now(a: Action) -> bool {
    matches!(a, Action::Finish(Ok(Reply::Loaded(v))) if v.is_empty())
}

#[test]
fn temp_file_name_is_beside_document() {
    assert_eq!(todos_temp_file_name(), "todos.json.tmp");
}
