//! Core state machines of a desktop application shell: a custom window
//! title bar with debounced control buttons and drag-to-move, a page
//! navigator with enter/exit lifecycle hooks over a single content region,
//! anchored popup menus, and two-way synchronization between the language
//! setting and its selectable controls.

use vstd::prelude::*;

pub mod about;
pub mod config;
pub mod homepage;
pub mod i18n;
pub mod locale_en;
pub mod locale_zh;
pub mod menu_bar;
pub mod realtime_plot;
pub mod setting;
pub mod shell;
pub mod test_page;
pub mod title_bar;
pub mod utils;

verus! {

} // verus!
