use vstd::prelude::*;
use vstd::string::StringExecFns;

use crate::labels::{
    ocr_label, pin_label, spec_ocr_label, spec_pin_label, spec_update_label, update_entry_label,
};

verus! {

/// Identity of an entry of the tray menu. Click events name the entry by its key.
#[derive(Clone, Copy, Debug, PartialEq, Eq, Structural)]
pub enum MenuItemId {
    CheckForUpdates,
    Settings,
    Ocr,
    Show,
    Hide,
    Pin,
    Quit,
}

/// The entries of the menu, in the order in which it shows them.
pub open spec fn spec_menu_order() -> Seq<MenuItemId> {
    seq![
        MenuItemId::CheckForUpdates,
        MenuItemId::Settings,
        MenuItemId::Ocr,
        MenuItemId::Show,
        MenuItemId::Hide,
        MenuItemId::Pin,
        MenuItemId::Quit,
    ]
}

impl MenuItemId {
    /// The key by which the toolkit reports a click on this entry.
    pub open spec fn spec_key(self) -> Seq<char> {
        match self {
            MenuItemId::CheckForUpdates => "check_for_updates"@,
            MenuItemId::Settings => "settings"@,
            MenuItemId::Ocr => "ocr"@,
            MenuItemId::Show => "show"@,
            MenuItemId::Hide => "hide"@,
            MenuItemId::Pin => "pin"@,
            MenuItemId::Quit => "quit"@,
        }
    }

    /// The entry whose key is `key`, if there is one.
    pub open spec fn spec_from_key(key: Seq<char>) -> Option<MenuItemId> {
        if key == "check_for_updates"@ {
            Some(MenuItemId::CheckForUpdates)
        } else if key == "settings"@ {
            Some(MenuItemId::Settings)
        } else if key == "ocr"@ {
            Some(MenuItemId::Ocr)
        } else if key == "show"@ {
            Some(MenuItemId::Show)
        } else if key == "hide"@ {
            Some(MenuItemId::Hide)
        } else if key == "pin"@ {
            Some(MenuItemId::Pin)
        } else if key == "quit"@ {
            Some(MenuItemId::Quit)
        } else {
            None
        }
    }

    pub fn key(&self) -> (r: &'static str)
        ensures
            r@ == self.spec_key(),
    {
        match self {
            MenuItemId::CheckForUpdates => "check_for_updates",
            MenuItemId::Settings => "settings",
            MenuItemId::Ocr => "ocr",
            MenuItemId::Show => "show",
            MenuItemId::Hide => "hide",
            MenuItemId::Pin => "pin",
            MenuItemId::Quit => "quit",
        }
    }

    /// Looks an entry up by the key that a click event carries.
    pub fn from_key(key: &str) -> (r: Option<MenuItemId>)
        ensures
            r == Self::spec_from_key(key@),
    {
        let k = String::from_str(key);
        if k == String::from_str("check_for_updates") {
            Some(MenuItemId::CheckForUpdates)
        } else if k == String::from_str("settings") {
            Some(MenuItemId::Settings)
        } else if k == String::from_str("ocr") {
            Some(MenuItemId::Ocr)
        } else if k == String::from_str("show") {
            Some(MenuItemId::Show)
        } else if k == String::from_str("hide") {
            Some(MenuItemId::Hide)
        } else if k == String::from_str("pin") {
            Some(MenuItemId::Pin)
        } else if k == String::from_str("quit") {
            Some(MenuItemId::Quit)
        } else {
            None
        }
    }
}

/// Every entry is found again by its own key.
pub proof fn lemma_key_round_trip(id: MenuItemId)
    ensures
        MenuItemId::spec_from_key(id.spec_key()) == Some(id),
{
    reveal_strlit("check_for_updates");
    reveal_strlit("settings");
    reveal_strlit("ocr");
    reveal_strlit("show");
    reveal_strlit("hide");
    reveal_strlit("pin");
    reveal_strlit("quit");
    let cfu = "check_for_updates"@;
    let (st, oc, sh, hi, pi, qu) = ("settings"@, "ocr"@, "show"@, "hide"@, "pin"@, "quit"@);
    assert(st.len() != cfu.len());
    assert(oc.len() != cfu.len() && oc.len() != st.len());
    assert(sh.len() != cfu.len() && sh.len() != st.len() && sh.len() != oc.len());
    assert(hi.len() != cfu.len() && hi.len() != st.len() && hi.len() != oc.len() && hi[0]
        != sh[0]);
    assert(pi.len() != cfu.len() && pi.len() != st.len() && pi[0] != oc[0] && pi.len()
        != sh.len() && pi.len() != hi.len());
    assert(qu.len() != cfu.len() && qu.len() != st.len() && qu.len() != oc.len() && qu[0]
        != sh[0] && qu[0] != hi[0] && qu.len() != pi.len());
}

/// One entry of a built menu: its identity and the text it shows.
pub struct MenuEntry {
    pub id: MenuItemId,
    pub label: String,
}

/// A menu as built for the tray; it is always built whole, never patched.
pub struct TrayMenu {
    pub entries: Vec<MenuEntry>,
}

impl View for TrayMenu {
    type V = Seq<(MenuItemId, Seq<char>)>;

    open spec fn view(&self) -> Seq<(MenuItemId, Seq<char>)> {
        self.entries@.map_values(|e: MenuEntry| (e.id, e.label@))
    }
}

/// Text of an entry given the configured OCR hotkey, whether a new version is
/// known, and whether the main window is pinned.
pub open spec fn spec_entry_label(
    id: MenuItemId,
    hotkey: Option<Seq<char>>,
    update_available: bool,
    pinned: bool,
) -> Seq<char> {
    match id {
        MenuItemId::CheckForUpdates => spec_update_label(update_available),
        MenuItemId::Settings => "Settings"@,
        MenuItemId::Ocr => spec_ocr_label(hotkey),
        MenuItemId::Show => "Show"@,
        MenuItemId::Hide => "Hide"@,
        MenuItemId::Pin => spec_pin_label(pinned),
        MenuItemId::Quit => "Quit"@,
    }
}

/// The whole menu: the entries in their fixed order, each with its text.
pub open spec fn spec_menu(hotkey: Option<Seq<char>>, update_available: bool, pinned: bool) -> Seq<
    (MenuItemId, Seq<char>),
> {
    spec_menu_order().map_values(
        |id: MenuItemId| (id, spec_entry_label(id, hotkey, update_available, pinned)),
    )
}

pub open spec fn opt_str_view(s: Option<&str>) -> Option<Seq<char>> {
    match s {
        Some(h) => Some(h@),
        None => None,
    }
}

/// Builds the menu from the configured OCR hotkey, whether a new version is
/// known, and whether the main window is pinned.
pub fn build_menu(hotkey: Option<&str>, update_available: bool, pinned: bool) -> (r: TrayMenu)
    ensures
        r@ == spec_menu(opt_str_view(hotkey), update_available, pinned),
{
    let mut entries: Vec<MenuEntry> = Vec::new();
    entries.push(
        MenuEntry { id: MenuItemId::CheckForUpdates, label: update_entry_label(update_available) },
    );
    entries.push(MenuEntry { id: MenuItemId::Settings, label: String::from_str("Settings") });
    entries.push(MenuEntry { id: MenuItemId::Ocr, label: ocr_label(hotkey) });
    entries.push(MenuEntry { id: MenuItemId::Show, label: String::from_str("Show") });
    entries.push(MenuEntry { id: MenuItemId::Hide, label: String::from_str("Hide") });
    entries.push(MenuEntry { id: MenuItemId::Pin, label: pin_label(pinned) });
    entries.push(MenuEntry { id: MenuItemId::Quit, label: String::from_str("Quit") });
    let r = TrayMenu { entries };
    assert(r@ =~= spec_menu(opt_str_view(hotkey), update_available, pinned));
    r
}

} // verus!
