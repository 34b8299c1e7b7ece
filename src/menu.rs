//! Menu descriptors: the declarative tree of submenus, items and separators
//! that the native menu bar shows, and the menu this application builds.
use vstd::prelude::*;
use crate::router::{
    registered_ids, lemma_table_keys_distinct, MENU_EDIT_PREFERENCES_ID, MENU_FILE_CLOSE_WINDOW_ID, MENU_FILE_LOGOUT_ID, MENU_FILE_QUIT_ID,
};

verus! {

/// An editing command that the platform supplies; it carries no identifier of
/// this application and never reaches the router.
#[derive(Clone, Copy, Debug, PartialEq, Eq, Structural)]
pub enum PredefinedAction {
    Undo,
    Redo,
    Cut,
    Copy,
    Paste,
    SelectAll,
}

/// An actionable item: its identifier is the only thing a menu activation
/// carries; label and accelerator are for display.
#[derive(Clone, Debug)]
pub struct MenuItemDescriptor {
    pub id: String,
    pub label: String,
    pub accelerator: Option<String>,
}

/// One entry of a submenu.
#[derive(Clone, Debug)]
pub enum MenuEntry {
    Item(MenuItemDescriptor),
    Separator,
    Predefined(PredefinedAction),
}

/// A titled submenu with its entries in on-screen order.
#[derive(Clone, Debug)]
pub struct SubmenuDescriptor {
    pub title: String,
    pub entries: Vec<MenuEntry>,
}

/// The menu bar: its submenus in on-screen order.
#[derive(Clone, Debug)]
pub struct MenuTree {
    pub submenus: Vec<SubmenuDescriptor>,
}

/// What an entry is, as text and kinds.
pub enum EntryModel {
    Item { id: Seq<char>, label: Seq<char>, accelerator: Option<Seq<char>> },
    Separator,
    Predefined(PredefinedAction),
}

/// What a submenu is: its title and the models of its entries.
pub struct SubmenuModel {
    pub title: Seq<char>,
    pub entries: Seq<EntryModel>,
}

pub open spec fn item_model(
    id: Seq<char>,
    label: Seq<char>,
    accelerator: Option<Seq<char>>,
) -> EntryModel {
    EntryModel::Item { id, label, accelerator }
}

impl View for MenuItemDescriptor {
    type V = EntryModel;

    open spec fn view(&self) -> EntryModel {
        EntryModel::Item {
            id: self.id@,
            label: self.label@,
            accelerator: match self.accelerator {
                Some(a) => Some(a@),
                None => None,
            },
        }
    }
}

impl View for MenuEntry {
    type V = EntryModel;

    open spec fn view(&self) -> EntryModel {
        match self {
            MenuEntry::Item(d) => d@,
            MenuEntry::Separator => EntryModel::Separator,
            MenuEntry::Predefined(a) => EntryModel::Predefined(*a),
        }
    }
}

impl View for SubmenuDescriptor {
    type V = SubmenuModel;

    open spec fn view(&self) -> SubmenuModel {
        SubmenuModel { title: self.title@, entries: self.entries@.map_values(|e: MenuEntry| e@) }
    }
}

impl View for MenuTree {
    type V = Seq<SubmenuModel>;

    open spec fn view(&self) -> Seq<SubmenuModel> {
        self.submenus@.map_values(|s: SubmenuDescriptor| s@)
    }
}

impl MenuItemDescriptor {
    /// An item with the given identifier and label and no accelerator.
    pub fn with_id(id: &str, label: &str) -> (r: MenuItemDescriptor)
        ensures
            r@ == item_model(id@, label@, None),
    {
        MenuItemDescriptor { id: id.to_owned(), label: label.to_owned(), accelerator: None }
    }

    /// The same item with the given accelerator.
    pub fn accelerator(self, accelerator: &str) -> (r: MenuItemDescriptor)
        ensures
            r@ == item_model(self.id@, self.label@, Some(accelerator@)),
    {
        MenuItemDescriptor { id: self.id, label: self.label, accelerator: Some(accelerator.to_owned()) }
    }
}

impl SubmenuDescriptor {
    /// An empty submenu with the given title.
    pub fn new(title: &str) -> (r: SubmenuDescriptor)
        ensures
            r@.title == title@,
            r@.entries == Seq::<EntryModel>::empty(),
    {
        let r = SubmenuDescriptor { title: title.to_owned(), entries: Vec::new() };
        assert(r@.entries =~= Seq::<EntryModel>::empty());
        r
    }

    /// The same submenu with one more entry at its end.
    pub fn entry(self, entry: MenuEntry) -> (r: SubmenuDescriptor)
        ensures
            r@.title == self@.title,
            r@.entries == self@.entries.push(entry@),
    {
        let ghost e = entry@;
        let mut entries = self.entries;
        entries.push(entry);
        let r = SubmenuDescriptor { title: self.title, entries };
        assert(r@.entries =~= self@.entries.push(e));
        r
    }

    /// The same submenu with an item of the given identifier and label at its end.
    pub fn text(self, id: &str, label: &str) -> (r: SubmenuDescriptor)
        ensures
            r@.title == self@.title,
            r@.entries == self@.entries.push(item_model(id@, label@, None)),
    {
        self.entry(MenuEntry::Item(MenuItemDescriptor::with_id(id, label)))
    }

    /// The same submenu with the given item at its end.
    pub fn item(self, item: MenuItemDescriptor) -> (r: SubmenuDescriptor)
        ensures
            r@.title == self@.title,
            r@.entries == self@.entries.push(item@),
    {
        self.entry(MenuEntry::Item(item))
    }

    /// The same submenu with a separator at its end.
    pub fn separator(self) -> (r: SubmenuDescriptor)
        ensures
            r@.title == self@.title,
            r@.entries == self@.entries.push(EntryModel::Separator),
    {
        self.entry(MenuEntry::Separator)
    }

    /// The same submenu with a platform editing command at its end.
    pub fn predefined(self, action: PredefinedAction) -> (r: SubmenuDescriptor)
        ensures
            r@.title == self@.title,
            r@.entries == self@.entries.push(EntryModel::Predefined(action)),
    {
        self.entry(MenuEntry::Predefined(action))
    }
}

impl MenuTree {
    /// A menu bar with no submenus.
    pub fn new() -> (r: MenuTree)
        ensures
            r@ == Seq::<SubmenuModel>::empty(),
    {
        let r = MenuTree { submenus: Vec::new() };
        assert(r@ =~= Seq::<SubmenuModel>::empty());
        r
    }

    /// The same menu bar with one more submenu at its end.
    pub fn submenu(self, submenu: SubmenuDescriptor) -> (r: MenuTree)
        ensures
            r@ == self@.push(submenu@),
    {
        let ghost s = submenu@;
        let mut submenus = self.submenus;
        submenus.push(submenu);
        let r = MenuTree { submenus };
        assert(r@ =~= self@.push(s));
        r
    }
}

/// The File submenu: Logout, a separator, Close Window and Quit.
pub open spec fn file_submenu_model() -> SubmenuModel {
    SubmenuModel {
        title: "File"@,
        entries: seq![
            item_model(MENU_FILE_LOGOUT_ID@, "Logout"@, None),
            EntryModel::Separator,
            item_model(MENU_FILE_CLOSE_WINDOW_ID@, "Close Window"@, Some("CmdOrCtrl+W"@)),
            item_model(MENU_FILE_QUIT_ID@, "Quit"@, Some("CmdOrCtrl+Q"@)),
        ],
    }
}

/// The Edit submenu: the platform editing commands, then Preferences.
pub open spec fn edit_submenu_model() -> SubmenuModel {
    SubmenuModel {
        title: "Edit"@,
        entries: seq![
            EntryModel::Predefined(PredefinedAction::Undo),
            EntryModel::Predefined(PredefinedAction::Redo),
            EntryModel::Separator,
            EntryModel::Predefined(PredefinedAction::Cut),
            EntryModel::Predefined(PredefinedAction::Copy),
            EntryModel::Predefined(PredefinedAction::Paste),
            EntryModel::Predefined(PredefinedAction::SelectAll),
            EntryModel::Separator,
            item_model(MENU_EDIT_PREFERENCES_ID@, "Preferences"@, None),
        ],
    }
}

/// The application's menu bar.
pub open spec fn standard_menu() -> Seq<SubmenuModel> {
    seq![file_submenu_model(), edit_submenu_model()]
}

/// Builds the application's menu bar.
pub fn build_menu_tree() -> (r: MenuTree)
    ensures
        r@ == standard_menu(),
{
    let close_window_item = MenuItemDescriptor::with_id(MENU_FILE_CLOSE_WINDOW_ID, "Close Window")
        .accelerator("CmdOrCtrl+W");
    let quit_item = MenuItemDescriptor::with_id(MENU_FILE_QUIT_ID, "Quit").accelerator(
        "CmdOrCtrl+Q",
    );
    let file = SubmenuDescriptor::new("File")
        .text(MENU_FILE_LOGOUT_ID, "Logout")
        .separator()
        .item(close_window_item)
        .item(quit_item);
    assert(file@.entries =~= file_submenu_model().entries);
    let edit = SubmenuDescriptor::new("Edit")
        .predefined(PredefinedAction::Undo)
        .predefined(PredefinedAction::Redo)
        .separator()
        .predefined(PredefinedAction::Cut)
        .predefined(PredefinedAction::Copy)
        .predefined(PredefinedAction::Paste)
        .predefined(PredefinedAction::SelectAll)
        .separator()
        .text(MENU_EDIT_PREFERENCES_ID, "Preferences");
    assert(edit@.entries =~= edit_submenu_model().entries);
    let tree = MenuTree::new().submenu(file).submenu(edit);
    assert(tree@ =~= standard_menu());
    tree
}

/// The identifier an entry carries: only actionable items have one.
pub open spec fn entry_id(e: EntryModel) -> Option<Seq<char>> {
    match e {
        EntryModel::Item { id, .. } => Some(id),
        _ => None,
    }
}

/// Whether some entry of the menu bar carries the identifier.
pub open spec fn menu_has_id(tree: Seq<SubmenuModel>, id: Seq<char>) -> bool {
    exists|i: int, j: int|
        0 <= i < tree.len() && 0 <= j < tree[i].entries.len() && #[trigger] entry_id(
            tree[i].entries[j],
        ) == Some(id)
}

/// The identifiers that the application's menu carries are exactly those of
/// the router's table, and no two items share one.
pub proof fn lemma_menu_ids_match_table()
    ensures
        forall|id: Seq<char>| menu_has_id(standard_menu(), id) <==> registered_ids().contains(id),
        forall|i1: int, j1: int, i2: int, j2: int|
            0 <= i1 < standard_menu().len() && 0 <= j1 < standard_menu()[i1].entries.len() && 0
                <= i2 < standard_menu().len() && 0 <= j2 < standard_menu()[i2].entries.len()
                && entry_id(standard_menu()[i1].entries[j1]) is Some && #[trigger] entry_id(
                standard_menu()[i1].entries[j1],
            ) == #[trigger] entry_id(standard_menu()[i2].entries[j2]) ==> i1 == i2 && j1 == j2,
{
    lemma_table_keys_distinct();
    let tree = standard_menu();
    let ids = registered_ids();
    let f = tree[0].entries;
    let e = tree[1].entries;
    assert(f.len() == 4 && e.len() == 9);
    assert(entry_id(f[0]) == Some(ids[0]));
    assert(entry_id(f[1]) is None);
    assert(entry_id(f[2]) == Some(ids[1]));
    assert(entry_id(f[3]) == Some(ids[2]));
    assert(entry_id(e[8]) == Some(ids[3]));
    assert forall|j: int| 0 <= j < 8 implies #[trigger] entry_id(e[j]) is None by {
        assert(e[j] == seq![
            EntryModel::Predefined(PredefinedAction::Undo),
            EntryModel::Predefined(PredefinedAction::Redo),
            EntryModel::Separator,
            EntryModel::Predefined(PredefinedAction::Cut),
            EntryModel::Predefined(PredefinedAction::Copy),
            EntryModel::Predefined(PredefinedAction::Paste),
            EntryModel::Predefined(PredefinedAction::SelectAll),
            EntryModel::Separator,
            item_model(MENU_EDIT_PREFERENCES_ID@, "Preferences"@, None),
        ][j]);
    }
    assert forall|id: Seq<char>| menu_has_id(tree, id) <==> ids.contains(id) by {
        if menu_has_id(tree, id) {
            let (i, j) = choose|i: int, j: int|
                0 <= i < tree.len() && 0 <= j < tree[i].entries.len() && #[trigger] entry_id(
                    tree[i].entries[j],
                ) == Some(id);
            if i == 0 {
                assert(ids.contains(id)) by {
                    if j == 0 {
                        assert(ids[0] == id);
                    } else if j == 2 {
                        assert(ids[1] == id);
                    } else {
                        assert(ids[2] == id);
                    }
                }
            } else {
                assert(ids[3] == id);
            }
        }
        if ids.contains(id) {
            let k = choose|k: int| 0 <= k < ids.len() && ids[k] == id;
            if k == 0 {
                assert(entry_id(tree[0].entries[0]) == Some(id));
            } else if k == 1 {
                assert(entry_id(tree[0].entries[2]) == Some(id));
            } else if k == 2 {
                assert(entry_id(tree[0].entries[3]) == Some(id));
            } else {
                assert(entry_id(tree[1].entries[8]) == Some(id));
            }
        }
    }
}

} // verus!
