//! What the shell puts in the tray at startup: the context menu and the way
//! the tray icon is set up.

use vstd::prelude::*;
use crate::names::{EXIT_ID, EXIT_LABEL, HIDE_ID, HIDE_LABEL};

verus! {

/// One entry of the tray menu: the identifier by which its activation is
/// reported, the text it shows, and whether it can be activated.
#[derive(Clone, Debug, PartialEq, Eq)]
pub struct MenuEntry {
    pub id: String,
    pub label: String,
    pub enabled: bool,
}

/// Where the tray icon takes its image from.
#[derive(Clone, Copy, Debug, PartialEq, Eq, Structural)]
pub enum TrayIconSource {
    /// The icon that the application's windows have by default.
    DefaultWindowIcon,
}

/// How the tray icon is set up, once, before any event can reach it.
#[derive(Clone, Debug, PartialEq, Eq)]
pub struct TraySetup {
    pub icon: TrayIconSource,
    /// The entries of the context menu, in the order in which they are shown.
    pub menu: Vec<MenuEntry>,
    /// Whether a left click opens the menu by itself.
    pub show_menu_on_left_click: bool,
}

impl MenuEntry {
    /// Whether this is the enabled entry with identifier `id` that shows `label`.
    pub open spec fn is_entry(self, id: Seq<char>, label: Seq<char>) -> bool {
        &&& self.id@ == id
        &&& self.label@ == label
        &&& self.enabled
    }

    /// An enabled entry with the given identifier and text.
    pub fn new(id: &str, label: &str) -> (entry: MenuEntry)
        ensures
            entry.is_entry(id@, label@),
    {
        MenuEntry { id: id.to_owned(), label: label.to_owned(), enabled: true }
    }
}

/// Whether `menu` is the tray menu: the entry that hides the main window, then
/// the entry that ends the process, and no other.
pub open spec fn is_tray_menu(menu: Seq<MenuEntry>) -> bool {
    &&& menu.len() == 2
    &&& menu[0].is_entry(HIDE_ID@, HIDE_LABEL@)
    &&& menu[1].is_entry(EXIT_ID@, EXIT_LABEL@)
}

/// Builds the tray menu.
pub fn tray_menu() -> (menu: Vec<MenuEntry>)
    ensures
        is_tray_menu(menu@),
{
    let mut menu: Vec<MenuEntry> = Vec::new();
    menu.push(MenuEntry::new(HIDE_ID, HIDE_LABEL));
    menu.push(MenuEntry::new(EXIT_ID, EXIT_LABEL));
    menu
}

/// Plans the tray icon: the default window icon, the tray menu attached, and
/// a left click that does not open the menu, so that the menu opens only by
/// the platform's own gesture for it.
pub fn tray_setup() -> (setup: TraySetup)
    ensures
        setup.icon == TrayIconSource::DefaultWindowIcon,
        is_tray_menu(setup.menu@),
        !setup.show_menu_on_left_click,
{
    TraySetup {
        icon: TrayIconSource::DefaultWindowIcon,
        menu: tray_menu(),
        show_menu_on_left_click: false,
    }
}

} // verus!
