//! The component models: each widget's configuration, its builder methods
//! and the rules it applies when the user interacts with it.
pub mod agent;
pub mod alert;
pub mod avatar;
pub mod badge;
pub mod button;
pub mod card;
pub mod carousel;
pub mod checkbox;
pub mod dialog;
pub mod disclosure;
pub mod empty_state;
pub mod filter_bar;
pub mod form;
pub mod kbd;
pub mod label;
pub mod link;
pub mod list;
pub mod menu;
pub mod panel;
pub mod popover;
pub mod progress;
pub mod report;
pub mod separator;
pub mod skeleton;
pub mod switch;
