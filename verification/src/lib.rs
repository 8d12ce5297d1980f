//! Verified core of the UBLX catalog browser: catalog path helpers, the
//! keyboard map, mode navigation, search filters, sorting, menus and the
//! small state machines behind the web shell.

pub mod text;
pub mod catalog;
pub mod url;
pub mod layout;
pub mod nav;
pub mod keys;
pub mod format;
pub mod sort;
pub mod search;
pub mod toast;
pub mod menu;
pub mod command;
pub mod state;
pub mod api;
pub mod viewer;
pub mod modes;
pub mod shell;
pub mod theme;
