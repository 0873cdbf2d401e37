use lock_rs::menu::choice_label;
use lock_rs::menu::tracer_anchor;
use lock_rs::menu::Choices;
use lock_rs::menu::EspBox;
use lock_rs::menu::FovCircle;
use lock_rs::menu::HealthBar;
use lock_rs::menu::Lock;
use lock_rs::menu::Panel;
use lock_rs::menu::PlayerDrawing;
use lock_rs::menu::Rgba;
use lock_rs::menu::Tracer;
use lock_rs::menu::TracerAnchor;
use lock_rs::menu::TracerColor;
use lock_rs::util::is_debug_mode;
use lock_rs::util::BuildProfile;

const WHITE: Rgba = Rgba { r: 255, g: 255, b: 255, a: 255 };

#[test]
fn the_menu_starts_on_the_aimbot_tab() {
    let mut l = Lock::default();
    assert!(l.is_shown());
    assert_eq!(l.selected_tab, 1);
    assert!(l.window_tooltips_enabled);
    assert!(!l.window_theme && !l.unlock_fps);
    assert_eq!(l.fps_limit, 60);
    assert_eq!(l.content(), Panel::Aimbot);
}

#[test]
fn the_frames_exclude_each_other() {
    let mut l = Lock::default();
    l.press_settings_button();
    assert!(l.settings_frame_open && !l.keybind_frame_open);
    assert_eq!(l.content(), Panel::Settings);
    assert_eq!(l.selected_tab, 0);
    l.press_keybind_button();
    assert!(!l.settings_frame_open && l.keybind_frame_open);
    assert_eq!(l.content(), Panel::Keybinds);
    l.press_settings_button();
    assert!(l.settings_frame_open && !l.keybind_frame_open);
    l.press_settings_button();
    assert!(!l.settings_frame_open && !l.keybind_frame_open);
}

#[test]
fn a_missing_tab_falls_back_to_the_first() {
    let mut l = Lock::default();
    l.press_settings_button();
    l.content();
    l.press_settings_button();
    assert_eq!(l.selected_tab, 0);
    assert_eq!(l.content(), Panel::Nothing);
    assert_eq!(l.selected_tab, 1);
    assert_eq!(l.content(), Panel::Aimbot);
}

#[test]
fn clicking_a_tab_closes_the_frames() {
    let mut l = Lock::default();
    l.press_keybind_button();
    l.select_tab(3);
    assert!(!l.keybind_frame_open);
    assert_eq!(l.content(), Panel::Misc);
    l.select_tab(2);
    assert_eq!(l.content(), Panel::Esp);
    l.press_theme_button();
    assert!(l.window_theme);
    l.press_theme_button();
    assert!(!l.window_theme);
}

#[test]
fn the_fov_circle_needs_the_aimbot_and_its_fov() {
    let mut l = Lock::default();
    assert_eq!(l.fov_circle(true), None);
    l.bool_map.set("aimbot_enabled", true);
    l.bool_map.set("aimbot_fov_enabled", true);
    assert_eq!(l.fov_circle(false), None);
    let circle = l.fov_circle(true).expect("circle shown");
    assert_eq!(
        circle,
        FovCircle {
            color: WHITE,
            x_offset_bits: 0.0f32.to_bits(),
            y_offset_bits: 0.0f32.to_bits(),
            filled: false,
            radius: 100,
            thickness_bits: 1.5f32.to_bits(),
        }
    );
    // The first read stored the outline width of an empty circle; filling the
    // circle afterwards keeps it.
    l.bool_map.set("fov_circle_filled", true);
    let filled = l.fov_circle(true).expect("circle shown");
    assert!(filled.filled);
    assert_eq!(filled.thickness_bits, 1.5f32.to_bits());
    l.bool_map.set("aimbot_hide_fov", true);
    assert_eq!(l.fov_circle(true), None);
}

#[test]
fn a_filled_circle_read_first_starts_one_pixel_wide() {
    let mut l = Lock::default();
    l.bool_map.set("aimbot_enabled", true);
    l.bool_map.set("aimbot_fov_enabled", true);
    l.bool_map.set("fov_circle_filled", true);
    assert_eq!(l.fov_circle(true).unwrap().thickness_bits, 1.0f32.to_bits());
}

#[test]
fn players_beyond_the_limit_are_left_out() {
    let mut l = Lock::default();
    assert!(!l.beyond_distance_limit(5000));
    l.bool_map.set("esp_distance_limited", true);
    assert!(!l.beyond_distance_limit(1000));
    assert!(l.beyond_distance_limit(1001));
    l.u32_map.set("esp_distance_limit", 10);
    assert!(l.beyond_distance_limit(11));
}

#[test]
fn box_types_map_to_boxes() {
    let mut l = Lock::default();
    assert_eq!(l.esp_box(), EspBox::TwoD { filled: false });
    l.usize_map.set("esp_type", 0);
    assert_eq!(l.esp_box(), EspBox::Hidden);
    l.usize_map.set("esp_type", 2);
    assert_eq!(l.esp_box(), EspBox::ThreeD);
    l.usize_map.set("esp_type", 3);
    l.bool_map.set("esp_box_filled", true);
    assert_eq!(l.esp_box(), EspBox::Corners { filled: true });
    l.usize_map.set("esp_type", 9);
    assert_eq!(l.esp_box(), EspBox::TwoD { filled: true });
}

#[test]
fn tracers_follow_their_settings() {
    let mut l = Lock::default();
    assert_eq!(l.tracer(10, true), None);
    l.bool_map.set("esp_tracers_enabled", true);
    assert_eq!(l.tracer(10, true), Some(Tracer { anchor: TracerAnchor::Top, color: TracerColor::Fixed(WHITE) }));
    l.bool_map.set("esp_tracers_distance_based", true);
    assert_eq!(
        l.tracer(0, true),
        Some(Tracer { anchor: TracerAnchor::Top, color: TracerColor::ByDistance { max_distance: 1000, distance: 1 } })
    );
    l.bool_map.set("esp_distance_limited", true);
    l.u32_map.set("esp_distance_limit", 300);
    l.usize_map.set("esp_tracers_type", 4);
    assert_eq!(
        l.tracer(42, true),
        Some(Tracer { anchor: TracerAnchor::Mouse, color: TracerColor::ByDistance { max_distance: 300, distance: 42 } })
    );
    assert_eq!(l.tracer(42, false), None);
}

#[test]
fn tracer_types_pick_anchors() {
    assert_eq!(tracer_anchor(0), TracerAnchor::Top);
    assert_eq!(tracer_anchor(1), TracerAnchor::Middle);
    assert_eq!(tracer_anchor(2), TracerAnchor::BottomMiddle);
    assert_eq!(tracer_anchor(3), TracerAnchor::Bottom);
    assert_eq!(tracer_anchor(4), TracerAnchor::Mouse);
    assert_eq!(tracer_anchor(5), TracerAnchor::Top);
}

#[test]
fn health_bar_and_labels() {
    let mut l = Lock::default();
    assert_eq!(l.health_bar(), None);
    l.bool_map.set("esp_health_bar", true);
    assert_eq!(l.health_bar(), None);
    l.bool_map.set("esp_show_health", true);
    assert_eq!(l.health_bar(), Some(HealthBar { health: 50, text_size_bits: None }));
    l.bool_map.set("esp_health_text", true);
    assert_eq!(l.health_bar(), Some(HealthBar { health: 50, text_size_bits: Some(10.0f32.to_bits()) }));
    assert_eq!(l.distance_text(), None);
    l.bool_map.set("esp_distance", true);
    assert_eq!(l.distance_text(), Some(10.0f32.to_bits()));
    l.bool_map.set("esp_names", true);
    l.f32_map.set("esp_text_size", 14.0f32.to_bits());
    assert_eq!(l.name_text(), Some(14.0f32.to_bits()));
    assert!(!l.esp_enabled());
    assert_eq!(l.esp_color(), WHITE);
}

#[test]
fn drop_downs_show_their_choice() {
    assert_eq!(choice_label(Choices::Smoothness, 2), "Ease out");
    assert_eq!(choice_label(Choices::TargetPriority, 1), "Cursor");
    assert_eq!(choice_label(Choices::AimPart, 0), "Head");
    assert_eq!(choice_label(Choices::EspType, 1), "2D Box");
    assert_eq!(choice_label(Choices::TracerType, 2), "Bottom Middle");
}

#[test]
fn debug_builds_report_debug_mode() {
    assert!(is_debug_mode(BuildProfile::Debug));
    assert!(!is_debug_mode(BuildProfile::Release));
}

#[test]
fn drawing_twice_settles() {
    let mut l = Lock::default();
    l.select_tab(9);
    assert_eq!(l.content(), Panel::Nothing);
    assert_eq!(l.content(), Panel::Aimbot);
    assert_eq!(l.content(), Panel::Aimbot);
    assert_eq!(l.selected_tab, 1);
}

#[test]
fn a_button_pressed_twice_restores_its_frame() {
    let mut l = Lock::default();
    l.press_keybind_button();
    l.press_settings_button();
    l.press_settings_button();
    assert!(!l.settings_frame_open);
    assert!(!l.keybind_frame_open);
    l.press_keybind_button();
    l.press_keybind_button();
    assert!(!l.keybind_frame_open && !l.settings_frame_open);
}

#[test]
fn a_player_drawing_reads_the_settings_in_order() {
    let mut l = Lock::default();
    let plain = l.player_drawing(0, false);
    assert_eq!(
        plain,
        PlayerDrawing {
            color: Rgba { r: 255, g: 255, b: 255, a: 255 },
            tracer: None,
            esp_box: EspBox::TwoD { filled: false },
            health_bar: None,
            distance_text: None,
            name_text: None,
        }
    );
    assert_eq!(l.usize_map.get("esp_type"), Some(1));
    assert_eq!(l.bool_map.get("esp_box_filled"), Some(false));
    assert_eq!(l.f32_map.get("esp_text_size"), None);
    l.bool_map.set("esp_tracers_enabled", true);
    l.bool_map.set("esp_tracers_distance_based", true);
    l.usize_map.set("esp_type", 3);
    l.bool_map.set("esp_health_bar", true);
    l.bool_map.set("esp_show_health", true);
    l.bool_map.set("esp_names", true);
    let shown = l.player_drawing(0, true);
    assert_eq!(shown.tracer, Some(Tracer { anchor: TracerAnchor::Top, color: TracerColor::ByDistance { max_distance: 1000, distance: 1 } }));
    assert_eq!(shown.esp_box, EspBox::Corners { filled: false });
    assert_eq!(shown.health_bar, Some(HealthBar { health: 50, text_size_bits: None }));
    assert_eq!(shown.distance_text, None);
    assert_eq!(shown.name_text, Some(10.0f32.to_bits()));
    assert_eq!(l.bool_map.get("esp_distance_limited"), Some(false));
    assert_eq!(l.u32_map.get("temp_debug_slider"), Some(50));
}
