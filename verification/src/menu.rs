//! The tray menu: what it shows, and what a click on each of its items does.
use vstd::prelude::*;

use crate::devices::CameraDeviceInfo;
use crate::text::{decimal, push_decimal};

verus! {

/// Title shown at the top of the menu.
pub const MENU_TITLE: &'static str = "WSL-Cam-Bridge: Active";

/// Tooltip of the tray icon.
pub const TRAY_TOOLTIP: &'static str = "WSL-Cam-Bridge (Running)";

/// Label of the pause item.
pub const PAUSE_LABEL: &'static str = "Pause Stream";

/// Label of the resolution submenu.
pub const RESOLUTION_MENU_LABEL: &'static str = "Resolution";

/// Label of the 1280 x 720 item.
pub const RES_720P_LABEL: &'static str = "1280 x 720 (HD - Default)";

/// Label of the 1920 x 1080 item.
pub const RES_1080P_LABEL: &'static str = "1920 x 1080 (FHD)";

/// Label of the 640 x 480 item.
pub const RES_480P_LABEL: &'static str = "640 x 480 (VGA - Fast)";

/// Label of the camera submenu.
pub const CAMERA_MENU_LABEL: &'static str = "Select Camera";

/// The one item of the camera submenu when no camera was found.
pub const NO_CAMERA_LABEL: &'static str = "No cameras detected";

/// Label of the item that copies the stream address.
pub const COPY_URL_LABEL: &'static str = "Copy WSL Stream URL";

/// Label of the item that opens the dashboard.
pub const OPEN_WEB_LABEL: &'static str = "Open Web Preview";

/// Label of the item that ends the program.
pub const EXIT_LABEL: &'static str = "Exit";

/// What an item of the menu stands for.
#[derive(Clone, Copy, Debug, PartialEq, Eq, Structural)]
pub enum MenuCommand {
    Pause,
    Resolution720p,
    Resolution1080p,
    Resolution480p,
    Camera(u32),
    CopyStreamUrl,
    OpenDashboard,
    Quit,
}

/// The kind of an entry of the menu, which is laid out as a flat list in
/// which a submenu's items stand between its start and its end.
#[derive(Clone, Copy, Debug, PartialEq, Eq, Structural)]
pub enum MenuEntryKind {
    Item,
    Separator,
    SubmenuStart,
    SubmenuEnd,
}

/// An entry of the menu.
pub struct MenuEntry {
    pub kind: MenuEntryKind,
    pub label: String,
    pub enabled: bool,
    pub command: Option<MenuCommand>,
}

/// The model of a menu entry.
pub struct MenuEntryView {
    pub kind: MenuEntryKind,
    pub label: Seq<char>,
    pub enabled: bool,
    pub command: Option<MenuCommand>,
}

impl View for MenuEntry {
    type V = MenuEntryView;

    open spec fn view(&self) -> MenuEntryView {
        MenuEntryView {
            kind: self.kind,
            label: self.label@,
            enabled: self.enabled,
            command: self.command,
        }
    }
}

/// The address of the dashboard of a server on `port`.
pub open spec fn dashboard_url_spec(port: u16) -> Seq<char> {
    "http://localhost:"@ + decimal(port as nat)
}

/// The address of the MJPEG stream of a server on `port`.
pub open spec fn stream_url_spec(port: u16) -> Seq<char> {
    dashboard_url_spec(port) + "/video"@
}

/// The line of the menu that says where the stream is.
pub open spec fn streaming_label_spec(port: u16) -> Seq<char> {
    "Streaming on "@ + stream_url_spec(port)
}

/// The label of a camera's item: its index in brackets, then its name.
pub open spec fn camera_label_spec(dev: CameraDeviceInfo) -> Seq<char> {
    "["@ + decimal(dev.index as nat) + "] "@ + dev.name@
}

/// An item entry.
pub open spec fn item(label: Seq<char>, enabled: bool, command: Option<MenuCommand>) -> MenuEntryView {
    MenuEntryView { kind: MenuEntryKind::Item, label, enabled, command }
}

/// A separator entry.
pub open spec fn separator() -> MenuEntryView {
    MenuEntryView { kind: MenuEntryKind::Separator, label: Seq::empty(), enabled: false, command: None }
}

/// The entry that opens a submenu.
pub open spec fn submenu_start(label: Seq<char>) -> MenuEntryView {
    MenuEntryView { kind: MenuEntryKind::SubmenuStart, label, enabled: true, command: None }
}

/// The entry that closes a submenu.
pub open spec fn submenu_end() -> MenuEntryView {
    MenuEntryView { kind: MenuEntryKind::SubmenuEnd, label: Seq::empty(), enabled: false, command: None }
}

/// The items of the camera submenu: one per camera, or a disabled note when
/// there is none.
pub open spec fn camera_items(devices: Seq<CameraDeviceInfo>) -> Seq<MenuEntryView> {
    if devices.len() == 0 {
        seq![item(NO_CAMERA_LABEL@, false, None)]
    } else {
        Seq::new(
            devices.len(),
            |i: int|
                item(
                    camera_label_spec(devices[i]),
                    true,
                    Some(MenuCommand::Camera(devices[i].index)),
                ),
        )
    }
}

/// The menu up to the camera submenu's items: title, stream address, pause,
/// the resolution submenu, and the start of the camera submenu.
pub open spec fn menu_head(port: u16) -> Seq<MenuEntryView> {
    seq![
        item(MENU_TITLE@, false, None),
        item(streaming_label_spec(port), false, None),
        separator(),
        item(PAUSE_LABEL@, true, Some(MenuCommand::Pause)),
        separator(),
        submenu_start(RESOLUTION_MENU_LABEL@),
        item(RES_720P_LABEL@, true, Some(MenuCommand::Resolution720p)),
        item(RES_1080P_LABEL@, true, Some(MenuCommand::Resolution1080p)),
        item(RES_480P_LABEL@, true, Some(MenuCommand::Resolution480p)),
        submenu_end(),
        submenu_start(CAMERA_MENU_LABEL@),
    ]
}

/// The menu after the camera submenu's items.
pub open spec fn menu_tail() -> Seq<MenuEntryView> {
    seq![
        submenu_end(),
        separator(),
        item(COPY_URL_LABEL@, true, Some(MenuCommand::CopyStreamUrl)),
        item(OPEN_WEB_LABEL@, true, Some(MenuCommand::OpenDashboard)),
        separator(),
        item(EXIT_LABEL@, true, Some(MenuCommand::Quit)),
    ]
}

/// The whole tray menu for a server on `port` and the cameras `devices`.
pub open spec fn tray_menu_spec(port: u16, devices: Seq<CameraDeviceInfo>) -> Seq<MenuEntryView> {
    menu_head(port) + camera_items(devices) + menu_tail()
}

/// The models of a list of entries.
pub open spec fn entry_views(entries: Seq<MenuEntry>) -> Seq<MenuEntryView> {
    entries.map_values(|e: MenuEntry| e@)
}

/// The address of the dashboard of a server on `port`.
pub fn dashboard_url(port: u16) -> (url: String)
    ensures
        url@ == dashboard_url_spec(port),
{
    let mut url = String::new();
    url.append("http://localhost:");
    push_decimal(&mut url, port as u64);
    proof {
        assert(url@ =~= dashboard_url_spec(port));
    }
    url
}

/// The address of the MJPEG stream of a server on `port`.
pub fn stream_url(port: u16) -> (url: String)
    ensures
        url@ == stream_url_spec(port),
{
    let mut url = dashboard_url(port);
    url.append("/video");
    url
}

/// The label of a camera's item.
pub fn camera_label(dev: &CameraDeviceInfo) -> (label: String)
    ensures
        label@ == camera_label_spec(*dev),
{
    let mut label = String::new();
    label.append("[");
    push_decimal(&mut label, dev.index as u64);
    label.append("] ");
    label.append(dev.name.as_str());
    proof {
        assert(label@ =~= camera_label_spec(*dev));
    }
    label
}

/// A string holding `lit`.
fn owned(lit: &str) -> (s: String)
    ensures
        s@ == lit@,
{
    let mut s = String::new();
    s.append(lit);
    proof {
        assert(s@ =~= lit@);
    }
    s
}

/// Adds an entry at the end of the list.
fn push_entry(entries: &mut Vec<MenuEntry>, e: MenuEntry)
    ensures
        entry_views(final(entries)@) == entry_views(old(entries)@).push(e@),
{
    let ghost v = e@;
    entries.push(e);
    proof {
        assert(entry_views(entries@) =~= entry_views(old(entries)@).push(v));
    }
}

/// Adds an item entry.
fn push_item(entries: &mut Vec<MenuEntry>, label: String, enabled: bool, command: Option<MenuCommand>)
    ensures
        entry_views(final(entries)@) == entry_views(old(entries)@).push(item(label@, enabled, command)),
{
    push_entry(entries, MenuEntry { kind: MenuEntryKind::Item, label, enabled, command });
}

/// Adds an entry without label or command.
fn push_marker(entries: &mut Vec<MenuEntry>, kind: MenuEntryKind, enabled: bool)
    ensures
        entry_views(final(entries)@) == entry_views(old(entries)@).push(
            MenuEntryView { kind, label: Seq::empty(), enabled, command: None },
        ),
{
    push_entry(entries, MenuEntry { kind, label: String::new(), enabled, command: None });
}

/// The tray menu for a server on `port` and the cameras `devices`.
pub fn tray_menu(port: u16, devices: &[CameraDeviceInfo]) -> (entries: Vec<MenuEntry>)
    ensures
        entry_views(entries@) == tray_menu_spec(port, devices@),
{
    let mut entries: Vec<MenuEntry> = Vec::new();
    let mut status = owned("Streaming on ");
    status.append(stream_url(port).as_str());
    push_item(&mut entries, owned(MENU_TITLE), false, None);
    push_item(&mut entries, status, false, None);
    push_marker(&mut entries, MenuEntryKind::Separator, false);
    push_item(&mut entries, owned(PAUSE_LABEL), true, Some(MenuCommand::Pause));
    push_marker(&mut entries, MenuEntryKind::Separator, false);
    push_entry(
        &mut entries,
        MenuEntry {
            kind: MenuEntryKind::SubmenuStart,
            label: owned(RESOLUTION_MENU_LABEL),
            enabled: true,
            command: None,
        },
    );
    push_item(&mut entries, owned(RES_720P_LABEL), true, Some(MenuCommand::Resolution720p));
    push_item(&mut entries, owned(RES_1080P_LABEL), true, Some(MenuCommand::Resolution1080p));
    push_item(&mut entries, owned(RES_480P_LABEL), true, Some(MenuCommand::Resolution480p));
    push_marker(&mut entries, MenuEntryKind::SubmenuEnd, false);
    push_entry(
        &mut entries,
        MenuEntry {
            kind: MenuEntryKind::SubmenuStart,
            label: owned(CAMERA_MENU_LABEL),
            enabled: true,
            command: None,
        },
    );
    proof {
        assert(status@ =~= streaming_label_spec(port));
        assert(entry_views(entries@) =~= menu_head(port));
    }
    let ghost head = entry_views(entries@);
    if devices.len() == 0 {
        push_item(&mut entries, owned(NO_CAMERA_LABEL), false, None);
        proof {
            assert(entry_views(entries@) =~= head + camera_items(devices@));
        }
    } else {
        let mut i: usize = 0;
        while i < devices.len()
            invariant
                i <= devices.len(),
                devices.len() > 0,
                head == menu_head(port),
                entry_views(entries@) =~= head + camera_items(devices@).subrange(0, i as int),
            decreases devices.len() - i,
        {
            let dev = &devices[i];
            push_item(&mut entries, camera_label(dev), true, Some(MenuCommand::Camera(dev.index)));
            proof {
                assert(camera_items(devices@).subrange(0, i + 1) =~= camera_items(
                    devices@,
                ).subrange(0, i as int).push(
                    item(camera_label_spec(devices@[i as int]), true, Some(MenuCommand::Camera(devices@[i as int].index))),
                ));
            }
            i += 1;
        }
        proof {
            assert(camera_items(devices@).subrange(0, i as int) =~= camera_items(devices@));
        }
    }
    let ghost middle = entry_views(entries@);
    push_marker(&mut entries, MenuEntryKind::SubmenuEnd, false);
    push_marker(&mut entries, MenuEntryKind::Separator, false);
    push_item(&mut entries, owned(COPY_URL_LABEL), true, Some(MenuCommand::CopyStreamUrl));
    push_item(&mut entries, owned(OPEN_WEB_LABEL), true, Some(MenuCommand::OpenDashboard));
    push_marker(&mut entries, MenuEntryKind::Separator, false);
    push_item(&mut entries, owned(EXIT_LABEL), true, Some(MenuCommand::Quit));
    proof {
        assert(entry_views(entries@) =~= middle + menu_tail());
        assert(entry_views(entries@) =~= tray_menu_spec(port, devices@));
    }
    entries
}

// ---------------------------------------------------------------- clicks

/// The identifiers that the tray gave the menu's items.
pub struct MenuIds {
    pub pause_id: String,
    pub quit_id: String,
    pub open_web_id: String,
    pub copy_url_id: String,
    pub res_720p_id: String,
    pub res_1080p_id: String,
    pub res_480p_id: String,
    /// The camera items, with the camera index each selects, in the order
    /// they were added.
    pub camera_item_ids: Vec<(String, u32)>,
}

/// What the program does when a menu item is clicked.
#[derive(Clone, Debug, PartialEq, Eq)]
pub enum TrayAction {
    /// Stop the program.
    Quit,
    /// Open this address in the browser.
    OpenUrl(String),
    /// Put this text on the clipboard.
    CopyText(String),
    /// Capture at this width and height.
    SetResolution(u32, u32),
    /// Capture from the camera with this index.
    SelectCamera(u32),
    /// Nothing.
    Nothing,
}

/// The model of a tray action.
pub enum TrayActionView {
    Quit,
    OpenUrl(Seq<char>),
    CopyText(Seq<char>),
    SetResolution(u32, u32),
    SelectCamera(u32),
    Nothing,
}

impl View for TrayAction {
    type V = TrayActionView;

    open spec fn view(&self) -> TrayActionView {
        match self {
            TrayAction::Quit => TrayActionView::Quit,
            TrayAction::OpenUrl(u) => TrayActionView::OpenUrl(u@),
            TrayAction::CopyText(t) => TrayActionView::CopyText(t@),
            TrayAction::SetResolution(w, h) => TrayActionView::SetResolution(*w, *h),
            TrayAction::SelectCamera(i) => TrayActionView::SelectCamera(*i),
            TrayAction::Nothing => TrayActionView::Nothing,
        }
    }
}

/// The camera that a camera item with identifier `id` selects: the one the
/// item last added under that identifier stands for.
pub open spec fn camera_for_id(items: Seq<(String, u32)>, id: Seq<char>) -> Option<u32>
    decreases items.len(),
{
    if items.len() == 0 {
        None
    } else if items.last().0@ == id {
        Some(items.last().1)
    } else {
        camera_for_id(items.drop_last(), id)
    }
}

/// What a click on the item with identifier `id` does, for a server on
/// `port`. The items are tried in this order: exit, dashboard, copy address,
/// the three resolutions, then the cameras; the pause item, and anything
/// unknown, do nothing.
pub open spec fn tray_action_spec(ids: MenuIds, id: Seq<char>, port: u16) -> TrayActionView {
    if id == ids.quit_id@ {
        TrayActionView::Quit
    } else if id == ids.open_web_id@ {
        TrayActionView::OpenUrl(dashboard_url_spec(port))
    } else if id == ids.copy_url_id@ {
        TrayActionView::CopyText(stream_url_spec(port))
    } else if id == ids.res_720p_id@ {
        TrayActionView::SetResolution(1280, 720)
    } else if id == ids.res_1080p_id@ {
        TrayActionView::SetResolution(1920, 1080)
    } else if id == ids.res_480p_id@ {
        TrayActionView::SetResolution(640, 480)
    } else {
        match camera_for_id(ids.camera_item_ids@, id) {
            Some(i) => TrayActionView::SelectCamera(i),
            None => TrayActionView::Nothing,
        }
    }
}

/// The camera that the camera item with identifier `id` selects, if any.
fn find_camera(items: &Vec<(String, u32)>, id: &String) -> (r: Option<u32>)
    ensures
        r == camera_for_id(items@, id@),
{
    let mut n = items.len();
    proof {
        assert(items@.subrange(0, n as int) =~= items@);
    }
    while n > 0
        invariant
            n <= items.len(),
            camera_for_id(items@, id@) == camera_for_id(items@.subrange(0, n as int), id@),
        decreases n,
    {
        let ghost prefix = items@.subrange(0, n as int);
        proof {
            assert(prefix.drop_last() =~= items@.subrange(0, n - 1));
        }
        if items[n - 1].0 == *id {
            return Some(items[n - 1].1);
        }
        n -= 1;
    }
    None
}

/// What a click on the item with identifier `id` does, for a server on `port`.
pub fn tray_action(ids: &MenuIds, id: &String, port: u16) -> (r: TrayAction)
    ensures
        r@ == tray_action_spec(*ids, id@, port),
{
    if *id == ids.quit_id {
        TrayAction::Quit
    } else if *id == ids.open_web_id {
        TrayAction::OpenUrl(dashboard_url(port))
    } else if *id == ids.copy_url_id {
        TrayAction::CopyText(stream_url(port))
    } else if *id == ids.res_720p_id {
        TrayAction::SetResolution(1280, 720)
    } else if *id == ids.res_1080p_id {
        TrayAction::SetResolution(1920, 1080)
    } else if *id == ids.res_480p_id {
        TrayAction::SetResolution(640, 480)
    } else {
        match find_camera(&ids.camera_item_ids, id) {
            Some(i) => TrayAction::SelectCamera(i),
            None => TrayAction::Nothing,
        }
    }
}

} // verus!
