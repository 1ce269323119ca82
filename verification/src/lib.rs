//! clin: the verified core of a terminal notes application.
//!
//! The modules hold the parts of the application that compute: the
//! formula language of `.base` views (tokens, syntax, the text functions),
//! the evaluation steps of a base view that need no formula values
//! (filters, columns, row order, grouping, limits, counting summaries, the
//! table layout, cell edits), the note outline parser, the configuration
//! (its enumerations and their textual forms, defaults, checks, and the
//! configuration text read, checked and migrated through `toml`, colors
//! and themes), path expansion, the debug ring buffer and the redaction of
//! dumps, editor bookkeeping, the undo history of drawings, the backup
//! view's status model, status list, mouse handling and worker, and the
//! small lookup tables of the UI.
pub mod text;
pub mod outline;
pub mod config_types;
pub mod lex;
pub mod parse;
pub mod debug_log;
pub mod paths;
pub mod editor;
pub mod defaults;
pub mod base;
pub mod backup;
pub mod backup_mouse;
pub mod draw;
pub mod console;
pub mod settings;
pub mod themes;
pub mod tree_view;
pub mod canvas;
pub mod cli;
pub mod redact;
pub mod colors;
pub mod calendar;
pub mod migrate;
pub mod config_text;
pub mod history;
pub mod cell_edit;
pub mod filter;
pub mod pipeline;
pub mod table_layout;
pub mod dates;
pub mod status_line;
pub mod text_funcs;
