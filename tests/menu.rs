use desktop_shell::menu::{
    build_menu_tree, MenuEntry, MenuItemDescriptor, MenuTree, PredefinedAction, SubmenuDescriptor,
};
use desktop_shell::router::{route, MenuAction};

fn item(e: &MenuEntry) -> &MenuItemDescriptor {
    match e {
        MenuEntry::Item(d) => d,
        _ => panic!("not an item"),
    }
}

#[test]
fn standard_menu_layout() {
    let tree = build_menu_tree();
    assert_eq!(tree.submenus.len(), 2);
    let file = &tree.submenus[0];
    assert_eq!(file.title, "File");
    assert_eq!(file.entries.len(), 4);
    assert_eq!(item(&file.entries[0]).id, "file.logout");
    assert_eq!(item(&file.entries[0]).label, "Logout");
    assert_eq!(item(&file.entries[0]).accelerator, None);
    assert!(matches!(file.entries[1], MenuEntry::Separator));
    assert_eq!(item(&file.entries[2]).id, "file.close_window");
    assert_eq!(item(&file.entries[2]).label, "Close Window");
    assert_eq!(item(&file.entries[2]).accelerator.as_deref(), Some("CmdOrCtrl+W"));
    assert_eq!(item(&file.entries[3]).id, "file.quit");
    assert_eq!(item(&file.entries[3]).accelerator.as_deref(), Some("CmdOrCtrl+Q"));

    let edit = &tree.submenus[1];
    assert_eq!(edit.title, "Edit");
    assert_eq!(edit.entries.len(), 9);
    let expected = [
        PredefinedAction::Undo,
        PredefinedAction::Redo,
    ];
    for (i, a) in expected.iter().enumerate() {
        assert!(matches!(&edit.entries[i], MenuEntry::Predefined(b) if b == a));
    }
    assert!(matches!(edit.entries[2], MenuEntry::Separator));
    let expected = [
        PredefinedAction::Cut,
        PredefinedAction::Copy,
        PredefinedAction::Paste,
        PredefinedAction::SelectAll,
    ];
    for (i, a) in expected.iter().enumerate() {
        assert!(matches!(&edit.entries[3 + i], MenuEntry::Predefined(b) if b == a));
    }
    assert!(matches!(edit.entries[7], MenuEntry::Separator));
    assert_eq!(item(&edit.entries[8]).id, "edit.preferences");
    assert_eq!(item(&edit.entries[8]).label, "Preferences");
}

#[test]
fn every_menu_item_is_routed_and_unique() {
    let tree = build_menu_tree();
    let mut seen: Vec<String> = Vec::new();
    for sub in &tree.submenus {
        for e in &sub.entries {
            if let MenuEntry::Item(d) = e {
                assert_ne!(route(&d.id), MenuAction::Ignore);
                assert!(!seen.contains(&d.id));
                seen.push(d.id.clone());
            }
        }
    }
    assert_eq!(seen.len(), 4);
}

#[test]
fn builder_keeps_order() {
    let tree = MenuTree::new()
        .submenu(
            SubmenuDescriptor::new("A")
                .text("a.one", "One")
                .separator()
                .item(MenuItemDescriptor::with_id("a.two", "Two").accelerator("Ctrl+T")),
        )
        .submenu(SubmenuDescriptor::new("B").predefined(PredefinedAction::Paste));
    assert_eq!(tree.submenus.len(), 2);
    assert_eq!(tree.submenus[0].title, "A");
    assert_eq!(item(&tree.submenus[0].entries[0]).id, "a.one");
    assert!(matches!(tree.submenus[0].entries[1], MenuEntry::Separator));
    assert_eq!(item(&tree.submenus[0].entries[2]).label, "Two");
    assert_eq!(item(&tree.submenus[0].entries[2]).accelerator.as_deref(), Some("Ctrl+T"));
    assert!(matches!(tree.submenus[1].entries[0], MenuEntry::Predefined(PredefinedAction::Paste)));
}

#[test]
fn empty_builders() {
    assert!(MenuTree::new().submenus.is_empty());
    let s = SubmenuDescriptor::new("");
    assert_eq!(s.title, "");
    assert!(s.entries.is_empty());
}
