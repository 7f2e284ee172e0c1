//! The board: columns in display order, each holding its tasks in display order.
use vstd::prelude::*;

verus! {

/// A card on the board. The id is chosen by the caller.
#[derive(Debug, Clone, PartialEq, Eq)]
pub struct Task {
    pub id: String,
    pub title: String,
    pub description: String,
}

/// A column of the board and its tasks, top to bottom.
#[derive(Debug, Clone, PartialEq, Eq)]
pub struct Column {
    pub id: String,
    pub title: String,
    pub tasks: Vec<Task>,
}

/// The whole board: its columns, left to right.
#[derive(Debug, Clone, PartialEq, Eq)]
pub struct KanbanData {
    pub columns: Vec<Column>,
}

/// What a task holds, as text.
pub struct TaskModel {
    pub id: Seq<char>,
    pub title: Seq<char>,
    pub description: Seq<char>,
}

/// What a column holds: its id, its title and its tasks in order.
pub struct ColumnModel {
    pub id: Seq<char>,
    pub title: Seq<char>,
    pub tasks: Seq<TaskModel>,
}

/// What a board holds: its columns in order.
pub struct BoardModel {
    pub columns: Seq<ColumnModel>,
}

impl View for Task {
    type V = TaskModel;

    open spec fn view(&self) -> TaskModel {
        TaskModel { id: self.id@, title: self.title@, description: self.description@ }
    }
}

impl View for Column {
    type V = ColumnModel;

    open spec fn view(&self) -> ColumnModel {
        ColumnModel { id: self.id@, title: self.title@, tasks: self.tasks@.map_values(|t: Task| t@) }
    }
}

impl View for KanbanData {
    type V = BoardModel;

    open spec fn view(&self) -> BoardModel {
        BoardModel { columns: self.columns@.map_values(|c: Column| c@) }
    }
}

/// The task with the given id, title and description.
pub open spec fn task_model(id: &str, title: &str, description: &str) -> TaskModel {
    TaskModel { id: id@, title: title@, description: description@ }
}

impl Task {
    /// A task with the given id, title and description.
    pub fn new(id: &str, title: &str, description: &str) -> (r: Task)
        ensures
            r@ == task_model(id, title, description),
    {
        Task { id: id.to_owned(), title: title.to_owned(), description: description.to_owned() }
    }
}

impl Column {
    /// A column with the given id and title that holds `tasks` in that order.
    pub fn new(id: &str, title: &str, tasks: Vec<Task>) -> (r: Column)
        ensures
            r@ == (ColumnModel { id: id@, title: title@, tasks: tasks@.map_values(|t: Task| t@) }),
    {
        Column { id: id.to_owned(), title: title.to_owned(), tasks }
    }
}

/// The board written on first use: "To Do" with two tasks, "In Progress" with
/// one, "Done" with one.
pub open spec fn default_board_model() -> BoardModel {
    BoardModel {
        columns: seq![
            ColumnModel {
                id: "todo"@,
                title: "To Do"@,
                tasks: seq![
                    task_model("task-1", "Learn Tauri", "Learn how to build apps with Tauri"),
                    task_model("task-2", "Build Kanban App", "Create a Kanban board application"),
                ],
            },
            ColumnModel {
                id: "in-progress"@,
                title: "In Progress"@,
                tasks: seq![
                    task_model("task-3", "Implement Drag and Drop", "Add drag and drop functionality"),
                ],
            },
            ColumnModel {
                id: "done"@,
                title: "Done"@,
                tasks: seq![
                    task_model("task-4", "Set up Project", "Initialize Tauri project with React"),
                ],
            },
        ],
    }
}

/// The board with no columns.
pub open spec fn empty_board_model() -> BoardModel {
    BoardModel { columns: Seq::empty() }
}

impl KanbanData {
    /// A board with no columns.
    pub fn empty() -> (r: KanbanData)
        ensures
            r@ == empty_board_model(),
    {
        let r = KanbanData { columns: Vec::new() };
        assert(r@.columns =~= Seq::<ColumnModel>::empty());
        r
    }

    /// The board that a load writes and returns when no board has been saved yet.
    pub fn default_board() -> (r: KanbanData)
        ensures
            r@ == default_board_model(),
    {
        let todo = Column::new(
            "todo",
            "To Do",
            vec![
                Task::new("task-1", "Learn Tauri", "Learn how to build apps with Tauri"),
                Task::new("task-2", "Build Kanban App", "Create a Kanban board application"),
            ],
        );
        let in_progress = Column::new(
            "in-progress",
            "In Progress",
            vec![Task::new("task-3", "Implement Drag and Drop", "Add drag and drop functionality")],
        );
        let done = Column::new(
            "done",
            "Done",
            vec![Task::new("task-4", "Set up Project", "Initialize Tauri project with React")],
        );
        assert(todo@.tasks =~= default_board_model().columns[0].tasks);
        assert(in_progress@.tasks =~= default_board_model().columns[1].tasks);
        assert(done@.tasks =~= default_board_model().columns[2].tasks);
        let r = KanbanData { columns: vec![todo, in_progress, done] };
        assert(r@.columns =~= default_board_model().columns);
        r
    }
}

} // verus!
