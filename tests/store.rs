use kanban_store::store::{begin_load, finish_save, finish_seed};
use kanban_store::{Column, KanbanData, LoadStep, Probe, StoreError, Task};

fn task(id: &str, title: &str, description: &str) -> Task {
    Task { id: id.to_string(), title: title.to_string(), description: description.to_string() }
}

fn sample_board() -> KanbanData {
    KanbanData {
        columns: vec![
            Column {
                id: "backlog".to_string(),
                title: "Backlog".to_string(),
                tasks: vec![task("b-2", "Second", "comes first"), task("b-1", "First", "comes second")],
            },
            Column { id: "empty".to_string(), title: "Nothing here".to_string(), tasks: vec![] },
            Column {
                id: "backlog".to_string(),
                title: "Same id again".to_string(),
                tasks: vec![task("b-1", "Duplicate id", "")],
            },
        ],
    }
}

fn expected_default() -> KanbanData {
    KanbanData {
        columns: vec![
            Column {
                id: "todo".to_string(),
                title: "To Do".to_string(),
                tasks: vec![
                    task("task-1", "Learn Tauri", "Learn how to build apps with Tauri"),
                    task("task-2", "Build Kanban App", "Create a Kanban board application"),
                ],
            },
            Column {
                id: "in-progress".to_string(),
                title: "In Progress".to_string(),
                tasks: vec![task("task-3", "Implement Drag and Drop", "Add drag and drop functionality")],
            },
            Column {
                id: "done".to_string(),
                title: "Done".to_string(),
                tasks: vec![task("task-4", "Set up Project", "Initialize Tauri project with React")],
            },
        ],
    }
}

#[test]
fn default_board_has_three_seeded_columns() {
    let b = KanbanData::default_board();
    assert_eq!(b, expected_default());
    let ids: Vec<&str> = b.columns.iter().map(|c| c.id.as_str()).collect();
    assert_eq!(ids, vec!["todo", "in-progress", "done"]);
    assert_eq!(b.columns[0].tasks.len(), 2);
    assert_eq!(b.columns[1].tasks.len(), 1);
    assert_eq!(b.columns[2].tasks.len(), 1);
}

#[test]
fn first_load_seeds_default_board() {
    match begin_load(Probe::Missing) {
        LoadStep::Seed(board) => {
            assert_eq!(board, expected_default());
            assert_eq!(finish_seed(board, Ok(())), Ok(expected_default()));
        }
        LoadStep::Done(r) => panic!("a missing file must be seeded, got {:?}", r),
    }
}

#[test]
fn failed_seed_write_is_io_error() {
    let r = finish_seed(KanbanData::default_board(), Err("permission denied".to_string()));
    assert_eq!(r, Err(StoreError::Io("permission denied".to_string())));
}

#[test]
fn second_load_returns_seeded_board_without_writing() {
    let step = begin_load(Probe::Parsed(KanbanData::default_board()));
    assert_eq!(step, LoadStep::Done(Ok(expected_default())));
}

#[test]
fn saved_board_loads_back_in_order() {
    assert_eq!(finish_save(Ok(())), Ok(()));
    let step = begin_load(Probe::Parsed(sample_board()));
    assert_eq!(step, LoadStep::Done(Ok(sample_board())));
}

#[test]
fn empty_board_is_not_a_missing_file() {
    let empty = KanbanData::empty();
    assert!(empty.columns.is_empty());
    let step = begin_load(Probe::Parsed(empty));
    assert_eq!(step, LoadStep::Done(Ok(KanbanData { columns: vec![] })));
}

#[test]
fn non_json_file_is_parse_error() {
    let msg = "expected value at line 1 column 2".to_string();
    let step = begin_load(Probe::ParseFailed(msg.clone()));
    assert_eq!(step, LoadStep::Done(Err(StoreError::Parse(msg))));
}

#[test]
fn missing_field_is_parse_error() {
    let msg = "missing field `title` at line 1 column 24".to_string();
    match begin_load(Probe::ParseFailed(msg.clone())) {
        LoadStep::Done(Err(e)) => {
            assert!(matches!(e, StoreError::Parse(_)));
            assert_eq!(e.message(), msg);
        }
        other => panic!("expected a parse error, got {:?}", other),
    }
}

#[test]
fn unreadable_file_is_io_error() {
    let step = begin_load(Probe::ReadFailed("Is a directory (os error 21)".to_string()));
    assert_eq!(step, LoadStep::Done(Err(StoreError::Io("Is a directory (os error 21)".to_string()))));
}

#[test]
fn failed_save_is_io_error() {
    let r = finish_save(Err("No space left on device (os error 28)".to_string()));
    assert_eq!(r, Err(StoreError::Io("No space left on device (os error 28)".to_string())));
}

#[test]
fn error_messages() {
    assert_eq!(StoreError::Io("disk gone".to_string()).message(), "disk gone");
    assert_eq!(StoreError::Parse("bad text".to_string()).message(), "bad text");
    assert_eq!(StoreError::NoHomeDir.message(), "Failed to get home directory");
}

#[test]
fn constructors_keep_fields_and_order() {
    let t = Task::new("a", "Alpha", "first letter");
    assert_eq!(t, task("a", "Alpha", "first letter"));
    let c = Column::new("col", "Column", vec![task("2", "two", ""), t.clone()]);
    assert_eq!(c.id, "col");
    assert_eq!(c.title, "Column");
    assert_eq!(c.tasks, vec![task("2", "two", ""), task("a", "Alpha", "first letter")]);
}
