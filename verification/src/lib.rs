//! Value types shared by every native backend.
//!
//! The widgets themselves are the operating system's native controls, so
//! nothing here draws or lays out: these are the values that describe what a
//! widget shows (menus, lists, trees, tables, dates, colors), the rules that
//! every backend applies to them alike, and the bookkeeping that carries work
//! from other threads onto the UI thread.
use vstd::prelude::*;

mod ascii;
mod lexical;
pub mod canvas;
pub mod channel;
pub mod color;
pub mod common;
pub mod datetime;
pub mod dialog;
pub mod list;
pub mod menu;
pub mod popup;
pub mod registry;
pub mod row_window;
pub mod sidebar;
pub mod task;
pub mod table;
pub mod text;
pub mod toolbar;
pub mod tree;
pub mod walk;

pub use canvas::PointerPhase;
pub use color::Color;
pub use common::{Align, Error, NavItem, Orientation, Result, Settings, Theme};
pub use datetime::{days_in_month, is_leap_year, DatePickerMode, DateTime};
pub use dialog::{from_response_id, response_id, DialogButtons, DialogResponse};
pub use list::{ListItem, SelectionMode};
pub use menu::{menu_sections, MenuItem, MenuShortcut, MenuSpec};
pub use popup::PopupItem;
pub use row_window::{
    keeps_hidden_selection, keeps_row_window, unmeasured_window, window_from_rows, RowWindow,
    ROW_WINDOW_OVERSCAN, ROW_WINDOW_THRESHOLD,
};
pub use sidebar::{sidebar_item, sidebar_len, sidebar_rows, SidebarItem, SidebarRow, SidebarSection};
pub use table::{next_sort, sort_arrow, SortOrder, TableRow};
pub use text::{TextColor, TextStyle};
pub use toolbar::{ToolbarIcon, ToolbarItem};
pub use tree::TreeItem;

verus! {

} // verus!
