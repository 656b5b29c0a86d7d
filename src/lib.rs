//! Core of a multi-client modal text editor: shared editor state with
//! generational registries, the differential terminal renderer, the
//! decisions of the single-threaded message loop and the extension host,
//! with the editing steps the bundled extension modules take (key bindings,
//! buffer edits, cursor moves, the command line and the yank register).

pub mod types;
pub mod terminal;
pub mod back_buffer;
pub mod text;
pub mod registry;
pub mod state;
pub mod event_loop;
pub mod host;
pub mod command;
pub mod input;
pub mod edit;
pub mod cursor;
pub mod registers;
pub mod highlight;
