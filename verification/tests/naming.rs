use recording_session::ident::{
    display_screenshot_path, instant_output_path, joined_path, new_session_identity,
    recording_dir_name,
};
use recording_session::inputs::{
    target_name_for, Bounds, ScreenCaptureTarget, WindowInfo,
};
use recording_session::meta::pretty_name_for;

fn window(id: u32, owner: &str) -> WindowInfo {
    WindowInfo { window_id: id, owner_name: owner.to_string() }
}

#[test]
fn area_target_is_named_area() {
    let name = target_name_for(
        &ScreenCaptureTarget::Area {
            screen: 1,
            bounds: Bounds { x: 0, y: 0, width: 10, height: 10 },
        },
        &Some("ignored".to_string()),
        &vec![window(1, "ignored")],
    );
    assert_eq!(name, "Area");
}

#[test]
fn window_target_takes_owner_name() {
    let windows = vec![window(1, "Terminal"), window(2, "Browser")];
    let name = target_name_for(&ScreenCaptureTarget::Window { id: 2 }, &None, &windows);
    assert_eq!(name, "Browser");
}

#[test]
fn window_target_with_duplicate_ids_takes_the_later_entry() {
    let windows = vec![window(2, "Old"), window(2, "New")];
    let name = target_name_for(&ScreenCaptureTarget::Window { id: 2 }, &None, &windows);
    assert_eq!(name, "New");
}

#[test]
fn unresolved_window_falls_back_to_window() {
    let windows = vec![window(1, "Terminal")];
    let name = target_name_for(&ScreenCaptureTarget::Window { id: 9 }, &None, &windows);
    assert_eq!(name, "Window");
}

#[test]
fn screen_target_takes_title_or_falls_back() {
    let titled = target_name_for(
        &ScreenCaptureTarget::Screen { id: 1 },
        &Some("Built-in Display".to_string()),
        &Vec::new(),
    );
    assert_eq!(titled, "Built-in Display");

    let untitled = target_name_for(&ScreenCaptureTarget::Screen { id: 1 }, &None, &Vec::new());
    assert_eq!(untitled, "Screen");
}

#[test]
fn session_identity_has_a_36_character_id() {
    let a = new_session_identity();
    let b = new_session_identity();
    assert_eq!(a.id.len(), 36);
    assert_eq!(b.id.len(), 36);
    assert_ne!(a.id, b.id);
}

#[test]
fn session_paths_follow_the_directory_layout() {
    let id = "f47ac10b".to_string();
    let dir = recording_dir_name(&id);
    assert_eq!(dir, "f47ac10b.cap");
    assert_eq!(instant_output_path(&dir), "f47ac10b.cap/content/output.mp4");
    assert_eq!(
        display_screenshot_path(&dir),
        "f47ac10b.cap/screenshots/display.jpg"
    );
    assert_eq!(
        joined_path(&dir, &"segments/segment-0/display.mp4".to_string()),
        "f47ac10b.cap/segments/segment-0/display.mp4"
    );
}

#[test]
fn pretty_name_joins_target_name_and_timestamp() {
    let name = pretty_name_for(
        &"Built-in Display".to_string(),
        &"2024-01-01 12:00:00".to_string(),
    );
    assert_eq!(name, "Built-in Display 2024-01-01 12:00:00");
}
