// An interactive terminal menu that picks one option with the arrow keys,
// written as a state machine that a driver runs against the real terminal,
// together with the task records and text helpers of a todo-list manager.

pub mod cli;
pub mod input;
pub mod menu;
pub mod render;
pub mod tasks;
pub mod terminal;
