use wsl_cam_bridge::devices::{list_devices_from, DeviceIndex, FoundDevice};
use wsl_cam_bridge::menu::{
    camera_label, dashboard_url, stream_url, tray_action, tray_menu, MenuCommand, MenuEntryKind,
    MenuIds, TrayAction,
};
use wsl_cam_bridge::CameraDeviceInfo;

fn found(index: DeviceIndex, name: &str) -> FoundDevice {
    FoundDevice { index, name: name.to_string(), description: format!("{name} desc") }
}

#[test]
fn devices_keep_numbers_and_use_positions_for_names() {
    let list = list_devices_from(&[
        found(DeviceIndex::Number(4), "A"),
        found(DeviceIndex::Named("/dev/x".to_string()), "B"),
        found(DeviceIndex::Number(0), "C"),
    ]);
    let got: Vec<(u32, &str, &str)> =
        list.iter().map(|d| (d.index, d.name.as_str(), d.description.as_str())).collect();
    assert_eq!(got, vec![(4, "A", "A desc"), (1, "B", "B desc"), (0, "C", "C desc")]);
    assert!(list_devices_from(&[]).is_empty());
}

#[test]
fn device_info_clones() {
    let dev = CameraDeviceInfo { index: 3, name: "Cam".to_string(), description: "d".to_string() };
    let copy = dev.clone();
    assert_eq!((copy.index, copy.name.as_str(), copy.description.as_str()), (3, "Cam", "d"));
    assert!(format!("{dev:?}").contains("Cam"));
}

#[test]
fn urls_and_labels() {
    assert_eq!(dashboard_url(8080), "http://localhost:8080");
    assert_eq!(stream_url(8080), "http://localhost:8080/video");
    let dev = CameraDeviceInfo { index: 2, name: "USB Cam".to_string(), description: String::new() };
    assert_eq!(camera_label(&dev), "[2] USB Cam");
}

fn summary(port: u16, devices: &[CameraDeviceInfo]) -> Vec<(MenuEntryKind, String, bool, Option<MenuCommand>)> {
    tray_menu(port, devices).into_iter().map(|e| (e.kind, e.label, e.enabled, e.command)).collect()
}

#[test]
fn menu_without_cameras() {
    let m = summary(8080, &[]);
    let want = vec![
        (MenuEntryKind::Item, "WSL-Cam-Bridge: Active".to_string(), false, None),
        (MenuEntryKind::Item, "Streaming on http://localhost:8080/video".to_string(), false, None),
        (MenuEntryKind::Separator, String::new(), false, None),
        (MenuEntryKind::Item, "Pause Stream".to_string(), true, Some(MenuCommand::Pause)),
        (MenuEntryKind::Separator, String::new(), false, None),
        (MenuEntryKind::SubmenuStart, "Resolution".to_string(), true, None),
        (MenuEntryKind::Item, "1280 x 720 (HD - Default)".to_string(), true, Some(MenuCommand::Resolution720p)),
        (MenuEntryKind::Item, "1920 x 1080 (FHD)".to_string(), true, Some(MenuCommand::Resolution1080p)),
        (MenuEntryKind::Item, "640 x 480 (VGA - Fast)".to_string(), true, Some(MenuCommand::Resolution480p)),
        (MenuEntryKind::SubmenuEnd, String::new(), false, None),
        (MenuEntryKind::SubmenuStart, "Select Camera".to_string(), true, None),
        (MenuEntryKind::Item, "No cameras detected".to_string(), false, None),
        (MenuEntryKind::SubmenuEnd, String::new(), false, None),
        (MenuEntryKind::Separator, String::new(), false, None),
        (MenuEntryKind::Item, "Copy WSL Stream URL".to_string(), true, Some(MenuCommand::CopyStreamUrl)),
        (MenuEntryKind::Item, "Open Web Preview".to_string(), true, Some(MenuCommand::OpenDashboard)),
        (MenuEntryKind::Separator, String::new(), false, None),
        (MenuEntryKind::Item, "Exit".to_string(), true, Some(MenuCommand::Quit)),
    ];
    assert_eq!(m, want);
}

#[test]
fn menu_with_cameras() {
    let devs = vec![
        CameraDeviceInfo { index: 0, name: "Front".to_string(), description: String::new() },
        CameraDeviceInfo { index: 7, name: "Back".to_string(), description: String::new() },
    ];
    let m = summary(9000, &devs);
    assert_eq!(m.len(), 19);
    assert_eq!(m[1].1, "Streaming on http://localhost:9000/video");
    assert_eq!(m[11], (MenuEntryKind::Item, "[0] Front".to_string(), true, Some(MenuCommand::Camera(0))));
    assert_eq!(m[12], (MenuEntryKind::Item, "[7] Back".to_string(), true, Some(MenuCommand::Camera(7))));
    assert_eq!(m[13].0, MenuEntryKind::SubmenuEnd);
}

fn ids() -> MenuIds {
    MenuIds {
        pause_id: "p".to_string(),
        quit_id: "q".to_string(),
        open_web_id: "o".to_string(),
        copy_url_id: "c".to_string(),
        res_720p_id: "r720".to_string(),
        res_1080p_id: "r1080".to_string(),
        res_480p_id: "r480".to_string(),
        camera_item_ids: vec![("cam0".to_string(), 0), ("cam1".to_string(), 5), ("cam0".to_string(), 9)],
    }
}

#[test]
fn clicks_map_to_actions() {
    let ids = ids();
    let act = |id: &str| tray_action(&ids, &id.to_string(), 8080);
    assert_eq!(act("q"), TrayAction::Quit);
    assert_eq!(act("o"), TrayAction::OpenUrl("http://localhost:8080".to_string()));
    assert_eq!(act("c"), TrayAction::CopyText("http://localhost:8080/video".to_string()));
    assert_eq!(act("r720"), TrayAction::SetResolution(1280, 720));
    assert_eq!(act("r1080"), TrayAction::SetResolution(1920, 1080));
    assert_eq!(act("r480"), TrayAction::SetResolution(640, 480));
    assert_eq!(act("cam1"), TrayAction::SelectCamera(5));
    // a later item under the same identifier wins, as in a map
    assert_eq!(act("cam0"), TrayAction::SelectCamera(9));
    assert_eq!(act("p"), TrayAction::Nothing);
    assert_eq!(act("zzz"), TrayAction::Nothing);
}
