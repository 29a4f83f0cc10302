//! The behaviour of the gallery application: the command palette, the
//! lead table and its filters, the shell's navigation, the related
//! activity panel and the application's own state changes.
pub mod app_state;
pub mod command_palette;
pub mod entity_table;
pub mod leads;
pub mod related_activity;
pub mod shell;
