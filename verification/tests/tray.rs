use pip_viewer::icon::IconPixmap;
use pip_viewer::tray::{
    label_of, name_can_be_shown, MenuCommand, MenuEntry, PipTray, TrayAction,
};
use pip_viewer::window_list::WindowEntry;

fn window(id: u32, name: &str, class: &str) -> WindowEntry {
    WindowEntry { id, name: name.to_string(), class: class.to_string() }
}

fn icon() -> Vec<IconPixmap> {
    vec![IconPixmap { width: 1, height: 1, data: vec![1, 2, 3, 4] }]
}

fn entries(tray: &PipTray) -> Vec<(String, bool, MenuCommand)> {
    tray.menu()
        .into_iter()
        .map(|entry| match entry {
            MenuEntry::Item { label, enabled, command } => (label, enabled, command),
            MenuEntry::Separator => ("--".to_string(), true, MenuCommand::Ignore),
        })
        .collect()
}

fn item(label: &str, command: MenuCommand) -> (String, bool, MenuCommand) {
    (label.to_string(), true, command)
}

#[test]
fn menu_lists_the_windows() {
    let tray = PipTray::new(Ok(vec![window(7, "Editor", "Ed"), window(8, "b", "B")]), icon());
    assert_eq!(
        entries(&tray),
        [
            ("── Select Window ──".to_string(), false, MenuCommand::Ignore),
            item("Editor (Ed)", MenuCommand::Send(TrayAction::SelectWindow(7))),
            item("b (B)", MenuCommand::Send(TrayAction::SelectWindow(8))),
            item("--", MenuCommand::Ignore),
            item("↻ Refresh Window List", MenuCommand::RefreshWindows),
            item("⊕ Click to Select...", MenuCommand::Send(TrayAction::ClickToSelect)),
            item("--", MenuCommand::Ignore),
            item("Quit", MenuCommand::Send(TrayAction::Quit)),
        ]
    );
}

#[test]
fn failed_listing_offers_no_window() {
    let tray = PipTray::new(Err("no display".to_string()), icon());
    assert_eq!(entries(&tray).len(), 6);
}

#[test]
fn refreshing_replaces_the_windows() {
    let mut tray = PipTray::new(Ok(vec![window(7, "Editor", "Ed")]), icon());
    tray.refresh_windows(Ok(vec![window(9, "Shell", "Sh"), window(10, "Mail", "M")]));
    let menu = entries(&tray);
    assert_eq!(menu.len(), 8);
    assert_eq!(menu[1], item("Shell (Sh)", MenuCommand::Send(TrayAction::SelectWindow(9))));
    tray.refresh_windows(Err("gone".to_string()));
    assert_eq!(entries(&tray).len(), 6);
    assert_eq!(tray.icon_pixmap().len(), 1);
}

#[test]
fn names_up_to_forty_bytes_are_shown_whole() {
    let name = "x".repeat(40);
    assert_eq!(label_of(&window(1, &name, "C")), format!("{} (C)", name));
}

#[test]
fn longer_names_are_cut() {
    let name = "0123456789".repeat(5);
    assert_eq!(
        label_of(&window(1, &name, "C")),
        "0123456789012345678901234567890123456... (C)"
    );
}

#[test]
fn names_are_cut_in_bytes() {
    let name = format!("{}é{}", "x".repeat(35), "y".repeat(10));
    assert_eq!(label_of(&window(1, &name, "C")), format!("{}é... (C)", "x".repeat(35)));
}

#[test]
fn tray_describes_itself() {
    let tray = PipTray::new(Ok(Vec::new()), icon());
    assert_eq!(tray.id(), "pip-viewer");
    assert_eq!(tray.title(), "PiP Viewer");
    let tip = tray.tool_tip();
    assert_eq!(tip.title, "PiP Viewer");
    assert_eq!(tip.description, "Click to select a window for picture-in-picture");
    assert_eq!(tip.icon_name, "");
    assert_eq!(tip.icon_pixmap[0].data, [1, 2, 3, 4]);
    assert_eq!(tray.icon_pixmap()[0].data, [1, 2, 3, 4]);
}

#[test]
fn names_cannot_be_cut_inside_a_character() {
    let inside = format!("{}é{}", "x".repeat(36), "y".repeat(10));
    let short = format!("{}é", "x".repeat(36));
    assert!(!name_can_be_shown(&window(1, &inside, "C")));
    assert!(name_can_be_shown(&window(1, &short, "C")));
    let mut tray = PipTray::new(Ok(vec![window(1, "a", "A"), window(2, &inside, "C")]), icon());
    assert!(!tray.names_can_be_shown());
    tray.refresh_windows(Ok(vec![window(1, "a", "A"), window(2, &short, "C")]));
    assert!(tray.names_can_be_shown());
    assert_eq!(tray.menu().len(), 8);
}
