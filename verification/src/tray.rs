//! The viewer's icon in the system tray, and its menu.
use crate::icon::{pixmaps_view, IconPixmap, PixmapView};
use crate::text::{
    byte_len, characters_begin_where_parts_end, encodings_follow_each_other, joined,
};
use crate::window_list::{entries_view, EntryView, WindowEntry};
use vstd::prelude::*;
use vstd::utf8::{decode_utf8, encode_utf8, is_ascii_chars, is_char_boundary};

verus! {

/// What the user asks for.
#[derive(Clone, Copy, Debug, PartialEq, Eq, Structural)]
pub enum TrayAction {
    /// Show the window with this id.
    SelectWindow(u32),
    /// Let the user click on the window to show.
    ClickToSelect,
    /// Let the desktop portal ask for the window to show.
    PortalSelect,
    Quit,
}

/// What choosing a menu entry does.
#[derive(Clone, Copy, Debug, PartialEq, Eq, Structural)]
pub enum MenuCommand {
    /// Nothing.
    Ignore,
    /// Send an action to the viewer.
    Send(TrayAction),
    /// List the windows again.
    RefreshWindows,
}

/// An entry of the menu.
#[derive(Debug)]
pub enum MenuEntry {
    Item { label: String, enabled: bool, command: MenuCommand },
    Separator,
}

/// A [`MenuEntry`] by its view.
pub enum MenuEntryView {
    Item { label: Seq<char>, enabled: bool, command: MenuCommand },
    Separator,
}

impl View for MenuEntry {
    type V = MenuEntryView;

    open spec fn view(&self) -> MenuEntryView {
        match *self {
            MenuEntry::Item { label, enabled, command } => MenuEntryView::Item {
                label: label@,
                enabled,
                command,
            },
            MenuEntry::Separator => MenuEntryView::Separator,
        }
    }
}

/// A menu by its view.
pub open spec fn menu_view(entries: Seq<MenuEntry>) -> Seq<MenuEntryView> {
    entries.map_values(|entry: MenuEntry| entry@)
}

/// Names of more bytes than this are cut.
pub const LONGEST_NAME: usize = 40;

/// What names are cut to.
pub const CUT_NAME: usize = 37;

/// Whether the name of a window can be shown: one that is to be cut must have a character begin
/// where it is cut.
pub open spec fn can_be_shown(entry: EntryView) -> bool {
    encode_utf8(entry.name).len() > LONGEST_NAME ==> is_char_boundary(
        encode_utf8(entry.name),
        CUT_NAME as int,
    )
}

/// How a window is labelled: by its name, cut if it is long, and its class.
pub open spec fn window_label(entry: EntryView) -> Seq<char> {
    let bytes = encode_utf8(entry.name);
    if bytes.len() > LONGEST_NAME {
        decode_utf8(bytes.subrange(0, CUT_NAME as int)) + "... ("@ + entry.class + ")"@
    } else {
        entry.name + " ("@ + entry.class + ")"@
    }
}

/// See [`window_label`].
pub fn label_of(window: &WindowEntry) -> (label: String)
    requires
        can_be_shown(window@),
    ensures
        label@ == window_label(window@),
{
    let name = window.name.as_str();
    let mut label: String;
    if byte_len(name) > LONGEST_NAME {
        let (head, _) = name.split_at(CUT_NAME);
        proof {
            vstd::utf8::encode_utf8_decode_utf8(head@);
        }
        label = joined(head, "... (");
    } else {
        label = joined(name, " (");
    }
    label.append(window.class.as_str());
    label.append(")");
    label
}

/// Tests [`can_be_shown`].
pub fn name_can_be_shown(window: &WindowEntry) -> (shown: bool)
    ensures
        shown == can_be_shown(window@),
{
    let name = window.name.as_str();
    byte_len(name) <= LONGEST_NAME || name.is_char_boundary(CUT_NAME)
}

/// An entry that can be chosen.
pub open spec fn item(label: Seq<char>, command: MenuCommand) -> MenuEntryView {
    MenuEntryView::Item { label, enabled: true, command }
}

/// The entry for a window.
pub open spec fn window_item(entry: EntryView) -> MenuEntryView {
    item(window_label(entry), MenuCommand::Send(TrayAction::SelectWindow(entry.id)))
}

/// The entry above the windows.
pub open spec fn header_item() -> MenuEntryView {
    MenuEntryView::Item {
        label: "── Select Window ──"@,
        enabled: false,
        command: MenuCommand::Ignore,
    }
}

/// The entries below the windows.
pub open spec fn fixed_items() -> Seq<MenuEntryView> {
    seq![
        MenuEntryView::Separator,
        item("↻ Refresh Window List"@, MenuCommand::RefreshWindows),
        item("⊕ Click to Select..."@, MenuCommand::Send(TrayAction::ClickToSelect)),
        MenuEntryView::Separator,
        item("Quit"@, MenuCommand::Send(TrayAction::Quit)),
    ]
}

/// The entries for the windows.
pub open spec fn window_items(windows: Seq<EntryView>) -> Seq<MenuEntryView> {
    windows.map_values(|entry: EntryView| window_item(entry))
}

/// The menu for the given windows.
pub open spec fn menu_for(windows: Seq<EntryView>) -> Seq<MenuEntryView> {
    seq![header_item()] + window_items(windows) + fixed_items()
}

fn new_item(label: String, command: MenuCommand) -> (entry: MenuEntry)
    ensures
        entry@ == item(label@, command),
{
    MenuEntry::Item { label, enabled: true, command }
}

/// What is shown when the pointer rests on the icon.
#[derive(Debug)]
pub struct ToolTip {
    pub title: String,
    pub description: String,
    pub icon_name: String,
    pub icon_pixmap: Vec<IconPixmap>,
}

/// The icon in the system tray.
#[derive(Debug)]
pub struct PipTray {
    windows: Vec<WindowEntry>,
    icon: Vec<IconPixmap>,
}

/// A [`PipTray`] by its view.
pub struct TrayView {
    pub windows: Seq<EntryView>,
    pub icon: Seq<PixmapView>,
}

impl View for PipTray {
    type V = TrayView;

    closed spec fn view(&self) -> TrayView {
        TrayView { windows: entries_view(self.windows@), icon: pixmaps_view(self.icon@) }
    }
}

/// The windows that a listing came to: none where it failed.
pub open spec fn windows_in(listed: Result<Vec<WindowEntry>, String>) -> Seq<EntryView> {
    match listed {
        Ok(windows) => entries_view(windows@),
        Err(_) => Seq::empty(),
    }
}

fn windows_or_none(listed: Result<Vec<WindowEntry>, String>) -> (windows: Vec<WindowEntry>)
    ensures
        entries_view(windows@) == windows_in(listed),
{
    match listed {
        Ok(windows) => windows,
        Err(_) => {
            let none: Vec<WindowEntry> = Vec::new();
            assert(entries_view(none@) =~= Seq::empty());
            none
        },
    }
}

impl PipTray {
    /// A tray icon that offers the windows that were listed.
    pub fn new(listed: Result<Vec<WindowEntry>, String>, icon: Vec<IconPixmap>) -> (tray: PipTray)
        ensures
            tray@ == (TrayView { windows: windows_in(listed), icon: pixmaps_view(icon@) }),
    {
        PipTray { windows: windows_or_none(listed), icon }
    }

    /// Offers the windows that were listed in place of those offered so far.
    pub fn refresh_windows(&mut self, listed: Result<Vec<WindowEntry>, String>)
        ensures
            final(self)@ == (TrayView { windows: windows_in(listed), ..old(self)@ }),
    {
        self.windows = windows_or_none(listed);
    }

    pub fn id(&self) -> (id: String)
        ensures
            id@ == "pip-viewer"@,
    {
        "pip-viewer".to_owned()
    }

    pub fn title(&self) -> (title: String)
        ensures
            title@ == "PiP Viewer"@,
    {
        "PiP Viewer".to_owned()
    }

    pub fn icon_pixmap(&self) -> (icon: Vec<IconPixmap>)
        ensures
            pixmaps_view(icon@) == self@.icon,
    {
        let icon = self.icon.clone();
        assert(pixmaps_view(icon@) =~= pixmaps_view(self.icon@)) by {
            assert forall|i: int| 0 <= i < icon@.len() implies icon@[i]@ == self.icon@[i]@ by {
                assert(cloned::<IconPixmap>(self.icon[i], icon[i]));
            }
        }
        icon
    }

    pub fn tool_tip(&self) -> (tip: ToolTip)
        ensures
            tip.title@ == "PiP Viewer"@,
            tip.description@ == "Click to select a window for picture-in-picture"@,
            tip.icon_name@ == Seq::<char>::empty(),
            pixmaps_view(tip.icon_pixmap@) == self@.icon,
    {
        ToolTip {
            title: "PiP Viewer".to_owned(),
            description: "Click to select a window for picture-in-picture".to_owned(),
            icon_name: String::new(),
            icon_pixmap: self.icon_pixmap(),
        }
    }

    /// Whether the names of all windows can be shown, as [`PipTray::menu`] needs it.
    pub fn names_can_be_shown(&self) -> (shown: bool)
        ensures
            shown == forall|i: int|
                0 <= i < self@.windows.len() ==> can_be_shown(#[trigger] self@.windows[i]),
    {
        let ghost views = self@.windows;
        let mut i: usize = 0;
        while i < self.windows.len()
            invariant
                i <= self.windows@.len(),
                views == self@.windows,
                views.len() == self.windows@.len(),
                forall|j: int| 0 <= j < views.len() ==> #[trigger] views[j] == self.windows@[j]@,
                forall|j: int| 0 <= j < i ==> can_be_shown(#[trigger] views[j]),
            decreases self.windows@.len() - i,
        {
            assert(views[i as int] == self.windows@[i as int]@);
            if !name_can_be_shown(&self.windows[i]) {
                return false;
            }
            i = i + 1;
        }
        true
    }

    /// See [`menu_for`].
    pub fn menu(&self) -> (menu: Vec<MenuEntry>)
        requires
            forall|i: int|
                0 <= i < self@.windows.len() ==> can_be_shown(#[trigger] self@.windows[i]),
        ensures
            menu_view(menu@) == menu_for(self@.windows),
    {
        let mut items: Vec<MenuEntry> = Vec::new();
        items.push(
            MenuEntry::Item {
                label: "── Select Window ──".to_owned(),
                enabled: false,
                command: MenuCommand::Ignore,
            },
        );
        let ghost views = self@.windows;
        let mut i: usize = 0;
        while i < self.windows.len()
            invariant
                i <= self.windows@.len(),
                views == self@.windows,
                views.len() == self.windows@.len(),
                forall|j: int| 0 <= j < views.len() ==> can_be_shown(#[trigger] views[j]),
                forall|j: int| 0 <= j < views.len() ==> #[trigger] views[j] == self.windows@[j]@,
                menu_view(items@) == seq![header_item()] + window_items(views.take(i as int)),
            decreases self.windows@.len() - i,
        {
            let window = &self.windows[i];
            assert(views[i as int] == window@);
            let command = MenuCommand::Send(TrayAction::SelectWindow(window.id));
            let ghost before = items@;
            items.push(new_item(label_of(window), command));
            assert(menu_view(items@) =~= menu_view(before).push(window_item(views[i as int])));
            assert(window_items(views.take(i + 1)) =~= window_items(views.take(i as int)).push(
                window_item(views[i as int]),
            ));
            i = i + 1;
        }
        assert(views.take(i as int) =~= views);
        items.push(MenuEntry::Separator);
        items.push(new_item("↻ Refresh Window List".to_owned(), MenuCommand::RefreshWindows));
        items.push(
            new_item(
                "⊕ Click to Select...".to_owned(),
                MenuCommand::Send(TrayAction::ClickToSelect),
            ),
        );
        items.push(MenuEntry::Separator);
        items.push(new_item("Quit".to_owned(), MenuCommand::Send(TrayAction::Quit)));
        assert(menu_view(items@) =~= menu_for(self@.windows));
        items
    }
}

/// The menu offers every window, in order, and choosing one asks to show that very window.
pub proof fn every_window_can_be_chosen(windows: Seq<EntryView>, i: int)
    requires
        0 <= i < windows.len(),
    ensures
        menu_for(windows).len() == windows.len() + 6,
        menu_for(windows)[i + 1] == item(
            window_label(windows[i]),
            MenuCommand::Send(TrayAction::SelectWindow(windows[i].id)),
        ),
{
}

/// Whatever windows there are, the menu begins with a header that cannot be chosen, and ends with
/// refreshing, clicking and quitting.
pub proof fn menu_always_offers_to_quit(windows: Seq<EntryView>)
    ensures
        menu_for(windows)[0] == header_item(),
        menu_for(windows).len() >= 6,
        menu_for(windows).last() == item("Quit"@, MenuCommand::Send(TrayAction::Quit)),
        menu_for(windows).skip(menu_for(windows).len() - 5) == fixed_items(),
{
    assert(menu_for(windows).skip(menu_for(windows).len() - 5) =~= fixed_items());
}

/// Any name in ASCII can be shown, and is cut to its first characters if it is long.
pub proof fn ascii_names_can_be_shown(entry: EntryView)
    requires
        is_ascii_chars(entry.name),
    ensures
        can_be_shown(entry),
        entry.name.len() > LONGEST_NAME ==> window_label(entry) == entry.name.take(CUT_NAME as int)
            + "... ("@ + entry.class + ")"@,
{
    let bytes = encode_utf8(entry.name);
    vstd::utf8::is_ascii_chars_encode_utf8(entry.name);
    vstd::utf8::encode_utf8_valid_utf8(entry.name);
    if bytes.len() > LONGEST_NAME {
        let head = entry.name.take(CUT_NAME as int);
        assert(bytes[CUT_NAME as int] == entry.name[CUT_NAME as int] as u8);
        assert(vstd::utf8::is_leading_byte_width_1(bytes[CUT_NAME as int]));
        vstd::utf8::is_char_boundary_iff_is_leading_byte(bytes, CUT_NAME as int);
        assert(is_ascii_chars(head));
        vstd::utf8::is_ascii_chars_encode_utf8(head);
        assert(encode_utf8(head) =~= bytes.subrange(0, CUT_NAME as int)) by {
            assert forall|i: int| 0 <= i < CUT_NAME implies encode_utf8(head)[i] == bytes[i] by {
                assert(head[i] == entry.name[i]);
                assert(head[i] as u8 == encode_utf8(head)[i]);
                assert(entry.name[i] as u8 == bytes[i]);
            }
        }
        vstd::utf8::encode_utf8_decode_utf8(head);
    }
}

/// A window whose name has at most 40 bytes is labelled by the whole name, a space, and the class in
/// brackets, whatever they are.
pub proof fn short_names_are_shown_whole(window: WindowEntry, label: String)
    requires
        call_ensures(label_of, (&window,), label),
        encode_utf8(window.name@).len() <= 40,
    ensures
        label@.len() == window.name@.len() + window.class@.len() + 3,
        label@.take(window.name@.len() as int) == window.name@,
        label@[window.name@.len() as int] == ' ',
        label@[window.name@.len() as int + 1] == '(',
        label@.subrange(window.name@.len() as int + 2, label@.len() - 1) == window.class@,
        label@.last() == ')',
{
    reveal_strlit(" (");
    reveal_strlit(")");
    assert(label@.take(window.name@.len() as int) =~= window.name@);
    assert(label@.subrange(window.name@.len() as int + 2, label@.len() - 1) =~= window.class@);
}

/// A window whose name has more bytes is labelled by as many first characters of the name as have
/// 37 bytes, three dots, a space, and the class in brackets.
pub proof fn long_names_are_cut(window: WindowEntry, k: int, label: String)
    requires
        call_ensures(label_of, (&window,), label),
        encode_utf8(window.name@).len() > 40,
        0 <= k <= window.name@.len(),
        encode_utf8(window.name@.take(k)).len() == 37,
    ensures
        label@.len() == k + window.class@.len() + 6,
        label@.take(k) == window.name@.take(k),
        label@.subrange(k, k + 5) == seq!['.', '.', '.', ' ', '('],
        label@.subrange(k + 5, label@.len() - 1) == window.class@,
        label@.last() == ')',
{
    reveal_strlit("... (");
    reveal_strlit(")");
    let head = window.name@.take(k);
    let tail = window.name@.skip(k);
    assert(head + tail =~= window.name@);
    encodings_follow_each_other(head, tail);
    assert(encode_utf8(window.name@).subrange(0, 37) =~= encode_utf8(head));
    vstd::utf8::encode_utf8_decode_utf8(head);
    assert(label@.take(k) =~= head);
    assert(label@.subrange(k, k + 5) =~= seq!['.', '.', '.', ' ', '(']);
    assert(label@.subrange(k + 5, label@.len() - 1) =~= window.class@);
}

/// A name can be shown if it has at most 40 bytes, or some of its first characters have 37.
pub proof fn names_that_can_be_cut_can_be_shown(window: WindowEntry, shown: bool)
    requires
        call_ensures(name_can_be_shown, (&window,), shown),
    ensures
        shown <==> encode_utf8(window.name@).len() <= 40 || exists|k: int|
            0 <= k <= window.name@.len() && #[trigger] encode_utf8(window.name@.take(k)).len()
                == 37,
{
    characters_begin_where_parts_end(window.name@, 37);
}

/// The menu is a header that cannot be chosen, an entry for each window that asks for that window,
/// and the five entries below them.
pub proof fn menu_has_its_entries_in_order(tray: PipTray, menu: Vec<MenuEntry>, i: int)
    requires
        call_ensures(PipTray::menu, (&tray,), menu),
    ensures
        ({
            let count = tray@.windows.len() as int;
            &&& menu@.len() == count + 6
            &&& menu@[0]@ == (MenuEntryView::Item {
                label: "── Select Window ──"@,
                enabled: false,
                command: MenuCommand::Ignore,
            })
            &&& 0 <= i < count ==> (menu@[i + 1]@ matches MenuEntryView::Item {
                label,
                enabled,
                command,
            } && {
                &&& label == window_label(tray@.windows[i])
                &&& enabled
                &&& command == MenuCommand::Send(TrayAction::SelectWindow(tray@.windows[i].id))
            })
            &&& menu@[count + 1]@ == MenuEntryView::Separator
            &&& menu@[count + 2]@ == (MenuEntryView::Item {
                label: "↻ Refresh Window List"@,
                enabled: true,
                command: MenuCommand::RefreshWindows,
            })
            &&& menu@[count + 3]@ == (MenuEntryView::Item {
                label: "⊕ Click to Select..."@,
                enabled: true,
                command: MenuCommand::Send(TrayAction::ClickToSelect),
            })
            &&& menu@[count + 4]@ == MenuEntryView::Separator
            &&& menu@[count + 5]@ == (MenuEntryView::Item {
                label: "Quit"@,
                enabled: true,
                command: MenuCommand::Send(TrayAction::Quit),
            })
        }),
{
    let all = menu_view(menu@);
    assert(all.len() == menu@.len());
    assert forall|j: int| 0 <= j < menu@.len() implies #[trigger] menu@[j]@ == all[j] by {}
    assert(all == menu_for(tray@.windows));
}

/// A tray offers the windows that were listed, all of them and in order, and none where listing
/// failed. It tells who it is, and shows the icon it was given.
pub proof fn tray_offers_what_was_listed(
    listed: Result<Vec<WindowEntry>, String>,
    icon: Vec<IconPixmap>,
    tray: PipTray,
    i: int,
)
    requires
        call_ensures(PipTray::new, (listed, icon), tray),
    ensures
        tray@.windows == windows_in(listed),
        listed is Err ==> windows_in(listed).len() == 0,
        listed matches Ok(windows) ==> {
            &&& windows_in(listed).len() == windows@.len()
            &&& 0 <= i < windows@.len() ==> windows_in(listed)[i] == windows@[i]@
        },
        tray@.icon.len() == icon@.len(),
        0 <= i < icon@.len() ==> tray@.icon[i] == icon@[i]@,
{
}

/// What the tray says of itself.
pub proof fn tray_says_who_it_is(
    tray: PipTray,
    id: String,
    title: String,
    icon: Vec<IconPixmap>,
    tip: ToolTip,
    i: int,
)
    requires
        call_ensures(PipTray::id, (&tray,), id),
        call_ensures(PipTray::title, (&tray,), title),
        call_ensures(PipTray::icon_pixmap, (&tray,), icon),
        call_ensures(PipTray::tool_tip, (&tray,), tip),
    ensures
        id@ == "pip-viewer"@,
        title@ == "PiP Viewer"@,
        tip.title@ == "PiP Viewer"@,
        tip.description@ == "Click to select a window for picture-in-picture"@,
        tip.icon_name@.len() == 0,
        icon@.len() == tray@.icon.len(),
        tip.icon_pixmap@.len() == tray@.icon.len(),
        0 <= i < icon@.len() ==> icon@[i]@ == tray@.icon[i] && tip.icon_pixmap@[i]@
            == tray@.icon[i],
{
    assert(pixmaps_view(icon@).len() == icon@.len());
    assert(pixmaps_view(tip.icon_pixmap@).len() == tip.icon_pixmap@.len());
    if 0 <= i < icon@.len() {
        assert(pixmaps_view(icon@)[i] == icon@[i]@);
        assert(pixmaps_view(tip.icon_pixmap@)[i] == tip.icon_pixmap@[i]@);
    }
}

/// A tray that is refreshed offers the windows that were listed last, all of them and in order, and
/// none where listing failed. Its icon stays.
pub proof fn refreshed_tray_offers_what_was_listed(
    tray: &mut PipTray,
    listed: Result<Vec<WindowEntry>, String>,
    i: int,
)
    requires
        call_ensures(PipTray::refresh_windows, (tray, listed), ()),
    ensures
        final(tray)@.icon == old(tray)@.icon,
        listed is Err ==> final(tray)@.windows.len() == 0,
        listed matches Ok(windows) ==> {
            &&& final(tray)@.windows.len() == windows@.len()
            &&& 0 <= i < windows@.len() ==> final(tray)@.windows[i] == windows@[i]@
        },
{
}

} // verus!
