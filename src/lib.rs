//! Supervision of an external builder process: a bounded log of its output,
//! the state machine that turns its output streams into progress events, and
//! the run lifecycle (start, stop, supersede) that consumes those events.
//! Besides that core: the gear catalog and the selection edits of the
//! configuration form, the rules of its numeric fields, the rows of the table
//! view, and the names under which colour themes are stored.

pub mod log_buffer;
pub mod progress;
pub mod output;
pub mod supervisor;
pub mod builder;
pub mod messages;
pub mod gear;
pub mod config_form;
pub mod db_table;
pub mod theme_name;
pub mod tabs;
