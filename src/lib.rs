//! A personal kanban board kept in one JSON file: the board's data model,
//! the default board written on first use, and the load/save protocol that
//! decides what a load returns and what it writes.

pub mod board;
pub mod store;

pub use board::{Column, KanbanData, Task};
pub use store::{LoadStep, Probe, StoreError};
