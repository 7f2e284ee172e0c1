//! The load/save protocol of the board file.
//!
//! The file itself is read, parsed, encoded and written by the caller; this
//! module decides, from what the caller found, what a load returns and whether
//! it must first write the default board. A missing file is seeded with the
//! default board; a file that cannot be read or parsed is an error and is left
//! as it is.
use vstd::prelude::*;
use crate::board::{BoardModel, KanbanData, default_board_model, empty_board_model};

verus! {

/// Why a load or a save failed.
#[derive(Debug, Clone, PartialEq, Eq)]
pub enum StoreError {
    /// The file could not be read or written; holds the system's message.
    Io(String),
    /// The file's text is not JSON, or not JSON of a board; holds the parser's message.
    Parse(String),
    /// No home directory could be found, so the file has no place.
    NoHomeDir,
}

/// What a look at the board file found.
#[derive(Debug, Clone, PartialEq, Eq)]
pub enum Probe {
    /// There is no file.
    Missing,
    /// The file is there but reading it failed with this message.
    ReadFailed(String),
    /// The file was read but its text is not a board; the parser's message.
    ParseFailed(String),
    /// The file was read and holds this board.
    Parsed(KanbanData),
}

/// What a load does after looking at the file.
#[derive(Debug, PartialEq, Eq)]
pub enum LoadStep {
    /// Write this board to the file, then pass the write's outcome to `finish_seed`.
    Seed(KanbanData),
    /// The load is over, with this result.
    Done(Result<KanbanData, StoreError>),
}

/// The state of the board file, as far as a load can tell.
pub enum FileState {
    Absent,
    Unreadable,
    Unparsable,
    Holds(BoardModel),
}

/// The result of a load, with the messages left out.
pub enum LoadModel {
    Loaded(BoardModel),
    IoFailure,
    ParseFailure,
    NoLocation,
}

impl Probe {
    /// The state of the file that this probe found.
    pub open spec fn file_state(&self) -> FileState {
        match self {
            Probe::Missing => FileState::Absent,
            Probe::ReadFailed(_) => FileState::Unreadable,
            Probe::ParseFailed(_) => FileState::Unparsable,
            Probe::Parsed(b) => FileState::Holds(b@),
        }
    }
}

/// A load's result, with the messages left out.
pub open spec fn load_model(r: Result<KanbanData, StoreError>) -> LoadModel {
    match r {
        Ok(b) => LoadModel::Loaded(b@),
        Err(StoreError::Io(_)) => LoadModel::IoFailure,
        Err(StoreError::Parse(_)) => LoadModel::ParseFailure,
        Err(StoreError::NoHomeDir) => LoadModel::NoLocation,
    }
}

/// What a load returns from a file in state `f`. `seed_written` tells whether
/// writing the default board succeeded; it matters only where no file is there.
pub open spec fn load_result(f: FileState, seed_written: bool) -> LoadModel {
    match f {
        FileState::Absent => if seed_written {
            LoadModel::Loaded(default_board_model())
        } else {
            LoadModel::IoFailure
        },
        FileState::Unreadable => LoadModel::IoFailure,
        FileState::Unparsable => LoadModel::ParseFailure,
        FileState::Holds(b) => LoadModel::Loaded(b),
    }
}

/// The file after a load whose write of the default board, if it made one,
/// succeeded. Only a missing file is written to.
pub open spec fn after_load(f: FileState) -> FileState {
    match f {
        FileState::Absent => FileState::Holds(default_board_model()),
        _ => f,
    }
}

/// The file after a save of `b` that succeeded.
pub open spec fn after_save(b: BoardModel) -> FileState {
    FileState::Holds(b)
}

/// Decides what a load does with what a look at the file found: a missing file
/// is seeded with the default board; otherwise the load ends with the board
/// read, or with the error that reading or parsing gave.
pub fn begin_load(probe: Probe) -> (r: LoadStep)
    ensures
        match probe {
            Probe::Missing => r is Seed && r->Seed_0@ == default_board_model(),
            Probe::ReadFailed(m) => r == LoadStep::Done(Err(StoreError::Io(m))),
            Probe::ParseFailed(m) => r == LoadStep::Done(Err(StoreError::Parse(m))),
            Probe::Parsed(b) => r == LoadStep::Done(Ok(b)),
        },
        r is Seed <==> probe.file_state() is Absent,
        r is Done ==> load_model(r->Done_0) == load_result(probe.file_state(), true),
{
    match probe {
        Probe::Missing => LoadStep::Seed(KanbanData::default_board()),
        Probe::ReadFailed(m) => LoadStep::Done(Err(StoreError::Io(m))),
        Probe::ParseFailed(m) => LoadStep::Done(Err(StoreError::Parse(m))),
        Probe::Parsed(b) => LoadStep::Done(Ok(b)),
    }
}

/// Ends a load that seeded the file with `board`: the load returns the board if
/// the write succeeded, and the write's error otherwise.
pub fn finish_seed(board: KanbanData, written: Result<(), String>) -> (r: Result<KanbanData, StoreError>)
    ensures
        match written {
            Ok(_) => r == Ok::<KanbanData, StoreError>(board),
            Err(m) => r == Err::<KanbanData, StoreError>(StoreError::Io(m)),
        },
        board@ == default_board_model() ==> load_model(r) == load_result(FileState::Absent, written is Ok),
{
    match written {
        Ok(_) => Ok(board),
        Err(m) => Err(StoreError::Io(m)),
    }
}

/// Ends a save: a failed encode or write of the board is an I/O error.
pub fn finish_save(written: Result<(), String>) -> (r: Result<(), StoreError>)
    ensures
        match written {
            Ok(_) => r is Ok,
            Err(m) => r == Err::<(), StoreError>(StoreError::Io(m)),
        },
{
    match written {
        Ok(_) => Ok(()),
        Err(m) => Err(StoreError::Io(m)),
    }
}

impl StoreError {
    /// The message to show for this error.
    pub fn message(&self) -> (r: String)
        ensures
            match self {
                StoreError::Io(m) => r@ == m@,
                StoreError::Parse(m) => r@ == m@,
                StoreError::NoHomeDir => r@ == "Failed to get home directory"@,
            },
    {
        match self {
            StoreError::Io(m) => m.clone(),
            StoreError::Parse(m) => m.clone(),
            StoreError::NoHomeDir => "Failed to get home directory".to_owned(),
        }
    }
}

/// A load right after a save of `b` returns `b`, columns and tasks in the
/// same order, and leaves the file as the save left it.
pub proof fn save_then_load(b: BoardModel, seed_written: bool)
    ensures
        load_result(after_save(b), seed_written) == LoadModel::Loaded(b),
        after_load(after_save(b)) == after_save(b),
{
}

/// A load with no file there writes the default board to the file and returns
/// it; if that write fails, the load fails with an I/O error.
pub proof fn first_load_seeds_default()
    ensures
        load_result(FileState::Absent, true) == LoadModel::Loaded(default_board_model()),
        after_load(FileState::Absent) == after_save(default_board_model()),
        load_result(FileState::Absent, false) == LoadModel::IoFailure,
{
}

/// A second load after the first one seeded the file returns the same board
/// and writes nothing.
pub proof fn second_load_returns_seeded_board(seed_written: bool)
    ensures
        load_result(after_load(FileState::Absent), seed_written) == load_result(FileState::Absent, true),
        after_load(after_load(FileState::Absent)) == after_load(FileState::Absent),
{
}

/// A file whose text is not a board makes a load fail with a parse error,
/// and the load leaves the file as it is.
pub proof fn unparsable_file_fails(seed_written: bool)
    ensures
        load_result(FileState::Unparsable, seed_written) == LoadModel::ParseFailure,
        after_load(FileState::Unparsable) == FileState::Unparsable,
{
}

/// A saved board with no columns loads back as a board with no columns: a file
/// that holds an empty board is not a missing file.
pub proof fn empty_board_round_trip(seed_written: bool)
    ensures
        after_save(empty_board_model()) != FileState::Absent,
        load_result(after_save(empty_board_model()), seed_written) == LoadModel::Loaded(empty_board_model()),
{
}

} // verus!
