//! Command/undo-redo subsystem of a scene editor.
//!
//! Every edit of the scene is packaged as a reversible command (execute /
//! revert / name), commands are grouped into atomic composites, and a command
//! stack with a cursor keeps the history: push executes and appends, undo
//! reverts the newest executed command, redo re-executes the oldest undone
//! one, and a push while undone commands remain discards that redo tail.
//!
//! The scene data the commands mutate (a handle-addressed node graph, the
//! selection, the clipboard, and the navmesh pools) is modelled here as plain
//! values, so that the exact execute/revert symmetry the editor depends on is
//! stated and proved rather than assumed.

pub mod commands;
pub mod inspector;
pub mod pool;
pub mod scene;
pub mod stack;
