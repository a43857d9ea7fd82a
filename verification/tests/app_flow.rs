use capybara::assets::AssetsLoadingStatus;
use capybara::input::{map_key, Key};
use capybara::scene::{BootScene, FrameCommand, SceneFlow};
use capybara::text::{chars_equal, chars_of, str_equal, string_from_chars};
use capybara::ui::button_tint;

#[test]
fn scene_flow_starts_with_first_scene() {
    let mut flow = SceneFlow::new("BootScene".to_string());
    assert!(flow.running);
    assert_eq!(flow.current_scene, "");
    let switch = flow.pending_switch().unwrap();
    assert_eq!(switch.deactivate, None);
    assert_eq!(switch.activate, "BootScene");
    flow.complete_switch();
    assert_eq!(flow.current_scene, "BootScene");
    assert!(flow.pending_switch().is_none());
}

#[test]
fn scene_change_is_queued_then_switched() {
    let mut flow = SceneFlow::new("BootScene".to_string());
    flow.complete_switch();
    flow.process_frame_command(Some(FrameCommand::ChangeScene { name: "GameScene".to_string() }));
    assert_eq!(flow.current_scene, "BootScene");
    let switch = flow.pending_switch().unwrap();
    assert_eq!(switch.deactivate, Some("BootScene".to_string()));
    assert_eq!(switch.activate, "GameScene");
    flow.complete_switch();
    assert_eq!(flow.current_scene, "GameScene");
}

#[test]
fn exit_stops_the_application() {
    let mut flow = SceneFlow::new("BootScene".to_string());
    flow.process_frame_command(None);
    assert!(flow.running);
    flow.process_frame_command(Some(FrameCommand::ResetScene));
    assert!(flow.running);
    flow.process_frame_command(Some(FrameCommand::Exit));
    assert!(!flow.running);
}

#[test]
fn boot_scene_waits_for_its_archive() {
    let scene = BootScene::default();
    assert_eq!(scene.frame_command(AssetsLoadingStatus::Loading), None);
    assert_eq!(scene.frame_command(AssetsLoadingStatus::Parsing), None);
    assert_eq!(scene.frame_command(AssetsLoadingStatus::Error), None);
    assert_eq!(
        scene.frame_command(AssetsLoadingStatus::Finished),
        Some(FrameCommand::ChangeScene { name: "LoadingScene".to_string() })
    );
}

#[test]
fn key_codes() {
    assert_eq!(map_key("Enter".to_string()), Key::Enter);
    assert_eq!(map_key("NumpadEnter".to_string()), Key::Enter);
    assert_eq!(map_key("ShiftRight".to_string()), Key::Shift);
    assert_eq!(map_key("Digit7".to_string()), Key::Key7);
    assert_eq!(map_key("KeyA".to_string()), Key::KeyA);
    assert_eq!(map_key("F12".to_string()), Key::F12);
    assert_eq!(map_key("Numpad3".to_string()), Key::Num3);
    assert_eq!(map_key("ArrowDown".to_string()), Key::ArrowDown);
    assert_eq!(map_key("enter".to_string()), Key::Unknown);
    assert_eq!(map_key("".to_string()), Key::Unknown);
}

#[test]
fn button_tints() {
    assert_eq!(button_tint(true, true), [220, 220, 220, 255]);
    assert_eq!(button_tint(true, false), [220, 220, 220, 255]);
    assert_eq!(button_tint(false, true), [230, 230, 230, 255]);
    assert_eq!(button_tint(false, false), [255, 255, 255, 255]);
}

#[test]
fn text_helpers() {
    let chars = chars_of("héllo");
    assert_eq!(chars, vec!['h', 'é', 'l', 'l', 'o']);
    assert_eq!(string_from_chars(&chars), "héllo");
    assert!(chars_equal(&chars, &chars_of("héllo")));
    assert!(!chars_equal(&chars, &chars_of("hello")));
    assert!(str_equal("a", "a"));
    assert!(!str_equal("a", "ab"));
}
