use lock_rs::menu::Lock;
use lock_rs::menu::Rgba;
use lock_rs::panels::AimChecks;
use lock_rs::panels::LabelOptions;
use lock_rs::panels::TeamOptions;

const WHITE: Rgba = Rgba { r: 255, g: 255, b: 255, a: 255 };

#[test]
fn the_aimbot_panel_shows_defaults_and_stores_them() {
    let mut l = Lock::default();
    let p = l.aimbot_panel();
    assert!(p.tooltips);
    assert!(!p.enabled);
    assert_eq!(p.checks, None);
    assert_eq!(p.range, 1000);
    assert_eq!(p.fov_value, 100);
    assert!(p.fov_color_enabled);
    assert_eq!(p.fov_color, WHITE);
    assert_eq!(p.triggerbot_delay, 0);
    assert!(!p.smoothness_type_enabled);
    assert_eq!(p.smoothness_type, 0);
    assert_eq!(p.target_priority, 0);
    assert_eq!(p.aim_part, 0);
    assert_eq!(p.x_offset_bits, 0.0f32.to_bits());
    assert_eq!(l.u32_map.get("aimbot_range"), Some(1000));
    assert_eq!(l.bool_map.get("aimbot_teamcheck"), None);
}

#[test]
fn the_aim_checks_appear_with_the_aimbot() {
    let mut l = Lock::default();
    l.bool_map.set("aimbot_enabled", true);
    l.bool_map.set("aimbot_hide_fov", true);
    l.u32_map.set("aimbot_smoothness", 5);
    l.usize_map.set("aimbot_aimpart", 1);
    assert!(l.aimbot_choices_fit());
    let p = l.aimbot_panel();
    assert_eq!(p.checks, Some(AimChecks { teamcheck: false, wallcheck: false, sticky_aim: false }));
    assert!(!p.fov_color_enabled);
    assert!(p.smoothness_type_enabled);
    assert_eq!(p.aim_part, 1);
    assert_eq!(l.bool_map.get("aimbot_stickyaim"), Some(false));
}

#[test]
fn the_esp_panel_follows_its_switches() {
    let mut l = Lock::default();
    let p = l.esp_panel();
    assert!(!p.enabled);
    assert_eq!(p.labels, None);
    assert_eq!(p.team, None);
    assert_eq!(p.box_type, 1);
    assert_eq!(p.tracer_type, 0);
    assert_eq!(p.distance_limit, 1000);
    assert!(p.color_enabled && p.tracer_color_enabled);
    l.bool_map.set("esp_enabled", true);
    l.bool_map.set("esp_teamcheck", true);
    l.bool_map.set("esp_team_based_color", true);
    l.bool_map.set("esp_tracers_distance_based", true);
    l.usize_map.set("esp_tracers_type", 4);
    let p = l.esp_panel();
    assert_eq!(p.labels, Some(LabelOptions { names: false, distance: false }));
    assert_eq!(p.team, Some(TeamOptions { hide_team: false, show_team_names: false, team_based_color: true }));
    assert!(!p.color_enabled);
    assert!(!p.tracer_color_enabled);
    assert_eq!(p.tracer_type, 4);
}

#[test]
fn the_misc_panel_enables_its_slider_with_the_switch() {
    let mut l = Lock::default();
    let p = l.misc_panel();
    assert!(!p.fps_slider_enabled && p.tooltip);
    assert_eq!(p.fps_limit, 60);
    l.unlock_fps = true;
    assert!(l.misc_panel().fps_slider_enabled);
}

#[test]
fn the_settings_frame_shown_first_fixes_the_circle_width() {
    let mut l = Lock::default();
    let f = l.settings_frame();
    assert_eq!(f.esp_text_size_bits, 10.0f32.to_bits());
    assert_eq!(f.fov_thickness_bits, 1.0f32.to_bits());
    assert!(!f.box_filled && !f.fov_filled && f.tooltips && !f.light_theme);
    l.bool_map.set("aimbot_enabled", true);
    l.bool_map.set("aimbot_fov_enabled", true);
    let circle = l.fov_circle(true).unwrap();
    assert!(!circle.filled);
    assert_eq!(circle.thickness_bits, 1.0f32.to_bits());
}

#[test]
fn panels_with_a_choice_outside_its_list_cannot_be_drawn() {
    let mut l = Lock::default();
    assert!(l.aimbot_choices_fit());
    assert!(l.esp_choices_fit());
    l.usize_map.set("aimbot_smoothness_type", 3);
    l.usize_map.set("aimbot_type", 1);
    assert!(l.aimbot_choices_fit());
    l.usize_map.set("aimbot_smoothness_type", 4);
    assert!(!l.aimbot_choices_fit());
    l.usize_map.set("aimbot_smoothness_type", 0);
    l.usize_map.set("aimbot_aimpart", 2);
    assert!(!l.aimbot_choices_fit());
    l.usize_map.set("esp_tracers_type", 4);
    l.usize_map.set("esp_type", 3);
    assert!(l.esp_choices_fit());
    l.usize_map.set("esp_type", 4);
    assert!(!l.esp_choices_fit());
    l.usize_map.set("esp_type", 0);
    l.usize_map.set("esp_tracers_type", 5);
    assert!(!l.esp_choices_fit());
    assert_eq!(l.usize_map.get("aimbot_prediction"), None);
}
