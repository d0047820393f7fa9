//! The tray menu: an ordered, immutable sequence of entries built once at
//! startup. The identifiers `"show"` and `"quit"` are always present and
//! enabled; an optional navigation entry may stand between them.

use vstd::prelude::*;
use vstd::string::StringExecFns;

verus! {

/// One entry of the tray menu: either a selectable item or a separator.
#[derive(Clone, PartialEq, Eq, Debug)]
pub enum MenuEntry {
    Item { id: String, label: String, enabled: bool },
    Separator,
}

/// An optional navigation action added to the menu between the show item
/// and the separator; its target is outside the controller's scope.
#[derive(Clone, PartialEq, Eq, Debug)]
pub struct NavAction {
    pub id: String,
    pub label: String,
}

/// The tray menu as built at startup.
#[derive(Clone, PartialEq, Eq, Debug)]
pub struct TrayMenu {
    pub entries: Vec<MenuEntry>,
}

/// True when the entry is an item carrying the given identifier.
pub open spec fn entry_has_id(e: MenuEntry, id: Seq<char>) -> bool {
    match e {
        MenuEntry::Item { id: i, .. } => i@ == id,
        MenuEntry::Separator => false,
    }
}

/// True when the entry is an item with the given identifier, label and
/// enabled flag.
pub open spec fn is_labeled_item(e: MenuEntry, id: Seq<char>, label: Seq<char>, enabled: bool) -> bool {
    match e {
        MenuEntry::Item { id: i, label: l, enabled: en } => i@ == id && l@ == label && en == enabled,
        MenuEntry::Separator => false,
    }
}

/// True when the entry is an item whose identifier is non-empty.
pub open spec fn entry_id_nonempty(e: MenuEntry) -> bool {
    match e {
        MenuEntry::Item { id, .. } => id@.len() > 0,
        MenuEntry::Separator => true,
    }
}

/// The exact entries the startup menu holds for a given optional
/// navigation action: the show item, the action's item if one is present,
/// a separator, and the quit item, all items enabled.
pub open spec fn menu_shape(m: TrayMenu, nav: Option<NavAction>) -> bool {
    match nav {
        None => m.entries@.len() == 3 && is_labeled_item(
            m.entries@[0],
            "show"@,
            "Show Window"@,
            true,
        ) && m.entries@[1] is Separator && is_labeled_item(m.entries@[2], "quit"@, "Quit"@, true),
        Some(n) => m.entries@.len() == 4 && is_labeled_item(
            m.entries@[0],
            "show"@,
            "Show Window"@,
            true,
        ) && is_labeled_item(m.entries@[1], n.id@, n.label@, true) && m.entries@[2] is Separator
            && is_labeled_item(m.entries@[3], "quit"@, "Quit"@, true),
    }
}

impl TrayMenu {
    /// Some item of the menu carries this identifier.
    pub open spec fn has_item(self, id: Seq<char>) -> bool {
        exists|k: int| 0 <= k < self.entries@.len() && entry_has_id(#[trigger] self.entries@[k], id)
    }

    /// Some enabled item of the menu carries this identifier.
    pub open spec fn has_enabled_item(self, id: Seq<char>) -> bool {
        exists|k: int|
            0 <= k < self.entries@.len() && match #[trigger] self.entries@[k] {
                MenuEntry::Item { id: i, enabled, .. } => i@ == id && enabled,
                MenuEntry::Separator => false,
            }
    }

    /// No two items of the menu share an identifier.
    pub open spec fn ids_unique(self) -> bool {
        forall|i: int, j: int|
            0 <= i < j < self.entries@.len() ==> match (
                #[trigger] self.entries@[i],
                #[trigger] self.entries@[j],
            ) {
                (MenuEntry::Item { id: a, .. }, MenuEntry::Item { id: b, .. }) => a@ != b@,
                _ => true,
            }
    }

    /// The menu invariant: the identifiers `"show"` and `"quit"` are present
    /// on enabled items, every item identifier is non-empty, and no
    /// identifier repeats.
    pub open spec fn wf(self) -> bool {
        &&& self.has_enabled_item("show"@)
        &&& self.has_enabled_item("quit"@)
        &&& self.ids_unique()
        &&& forall|k: int| 0 <= k < self.entries@.len() ==> entry_id_nonempty(#[trigger] self.entries@[k])
    }

    /// Builds the menu exactly as the controller mounts it on the tray:
    /// the show item, the optional navigation item, a separator, and the
    /// quit item, all items enabled.
    pub fn build(nav: Option<NavAction>) -> (m: TrayMenu)
        requires
            nav matches Some(n) ==> n.id@.len() > 0 && n.id@ != "show"@ && n.id@ != "quit"@,
        ensures
            m.wf(),
            menu_shape(m, nav),
    {
        let mut entries: Vec<MenuEntry> = Vec::new();
        entries.push(
            MenuEntry::Item {
                id: String::from_str("show"),
                label: String::from_str("Show Window"),
                enabled: true,
            },
        );
        match nav {
            Some(n) => {
                entries.push(MenuEntry::Item { id: n.id, label: n.label, enabled: true });
            },
            None => {},
        }
        entries.push(MenuEntry::Separator);
        entries.push(
            MenuEntry::Item {
                id: String::from_str("quit"),
                label: String::from_str("Quit"),
                enabled: true,
            },
        );
        let m = TrayMenu { entries };
        proof {
            reveal_strlit("show");
            reveal_strlit("quit");
            assert("show"@ != "quit"@) by {
                assert("show"@[0] == 's');
                assert("quit"@[0] == 'q');
            }
            assert(m.has_enabled_item("show"@)) by {
                assert(m.entries@[0] matches MenuEntry::Item { id: i, enabled, .. } && i@
                    == "show"@ && enabled);
            }
            assert(m.has_enabled_item("quit"@)) by {
                let last = m.entries@.len() - 1;
                assert(m.entries@[last] matches MenuEntry::Item { id: i, enabled, .. } && i@
                    == "quit"@ && enabled);
            }
        }
        m
    }

    /// True exactly when some item of the menu carries the given identifier.
    pub fn has_item_with_id(&self, id: &String) -> (r: bool)
        ensures
            r == self.has_item(id@),
    {
        let mut i: usize = 0;
        while i < self.entries.len()
            invariant
                i <= self.entries.len(),
                forall|k: int| 0 <= k < i ==> !entry_has_id(#[trigger] self.entries@[k], id@),
            decreases self.entries.len() - i,
        {
            match &self.entries[i] {
                MenuEntry::Item { id: eid, .. } => {
                    if *eid == *id {
                        return true;
                    }
                },
                MenuEntry::Separator => {},
            }
            i += 1;
        }
        false
    }
}

} // verus!
