//! The overlay menu and what it draws: which frame or panel is shown, and,
//! from the settings, what the aim circle and the player boxes look like.
//!
//! Every read of a setting takes a default, and a setting read for the first
//! time keeps that default from then on; the functions here read the settings
//! in the order the overlay does, so the same defaults stick.
use vstd::prelude::*;
use crate::settings::SettingMap;
use crate::settings::touched;
use crate::settings::value_or;

verus! {

/// The bits of the `f32` value 0.0.
pub const F32_ZERO: u32 = 0x0000_0000;

/// The bits of the `f32` value 1.0.
pub const F32_ONE: u32 = 0x3f80_0000;

/// The bits of the `f32` value 1.5.
pub const F32_ONE_AND_A_HALF: u32 = 0x3fc0_0000;

/// The bits of the `f32` value 10.0.
pub const F32_TEN: u32 = 0x4120_0000;

/// A colour, with unmultiplied alpha.
#[derive(PartialEq, Eq, Structural, Clone, Copy, Debug)]
pub struct Rgba {
    pub r: u8,
    pub g: u8,
    pub b: u8,
    pub a: u8,
}

/// The colour a colour setting starts as: opaque white.
pub open spec fn white() -> Rgba {
    Rgba { r: 255, g: 255, b: 255, a: 255 }
}

/// The farthest distance used to shade tracers when no distance limit is set.
pub const DEFAULT_MAX_DISTANCE: u32 = 1000;

/// The tab shown first.
pub const FIRST_TAB: u8 = 1;

/// What the right-hand side of the menu shows.
#[derive(PartialEq, Eq, Structural, Clone, Copy, Debug)]
pub enum Panel {
    Settings,
    Keybinds,
    Aimbot,
    Esp,
    Misc,
    /// Nothing this frame: the selected tab did not exist and was reset.
    Nothing,
}

/// The overlay's state.
#[derive(Clone)]
pub struct Lock {
    pub selected_tab: u8,
    pub window_open: bool,
    pub window_theme: bool,
    pub settings_frame_open: bool,
    pub keybind_frame_open: bool,
    pub window_tooltips_enabled: bool,
    pub bool_map: SettingMap<bool>,
    pub u32_map: SettingMap<u32>,
    pub usize_map: SettingMap<usize>,
    /// Settings that are `f32` values, stored as their bits.
    pub f32_map: SettingMap<u32>,
    pub color_map: SettingMap<Rgba>,
    pub unlock_fps: bool,
    pub fps_limit: i32,
}

/// The aim circle around the pointer.
#[derive(PartialEq, Eq, Structural, Clone, Copy, Debug)]
pub struct FovCircle {
    pub color: Rgba,
    /// Offset of the centre from the pointer, as `f32` bits.
    pub x_offset_bits: u32,
    pub y_offset_bits: u32,
    pub filled: bool,
    pub radius: u32,
    /// Width of the outline, as `f32` bits.
    pub thickness_bits: u32,
}

/// Where a tracer line runs to from the bottom of a player's box.
#[derive(PartialEq, Eq, Structural, Clone, Copy, Debug)]
pub enum TracerAnchor {
    Top,
    Middle,
    BottomMiddle,
    Bottom,
    Mouse,
}

/// The colour of a tracer.
#[derive(PartialEq, Eq, Structural, Clone, Copy, Debug)]
pub enum TracerColor {
    /// The colour chosen in the menu.
    Fixed(Rgba),
    /// Shaded from green to red by `distance` out of `max_distance`;
    /// `distance` is at least one.
    ByDistance { max_distance: u32, distance: u32 },
}

/// A tracer to draw.
#[derive(PartialEq, Eq, Structural, Clone, Copy, Debug)]
pub struct Tracer {
    pub anchor: TracerAnchor,
    pub color: TracerColor,
}

/// The box drawn around a player.
#[derive(PartialEq, Eq, Structural, Clone, Copy, Debug)]
pub enum EspBox {
    Hidden,
    /// Not drawn yet.
    ThreeD,
    Corners { filled: bool },
    TwoD { filled: bool },
}

/// The health bar beside a player's box.
#[derive(PartialEq, Eq, Structural, Clone, Copy, Debug)]
pub struct HealthBar {
    pub health: u32,
    /// Size of the health text, as `f32` bits, when the text is shown.
    pub text_size_bits: Option<u32>,
}

/// What is drawn on and around the box of one player.
#[derive(PartialEq, Eq, Structural, Clone, Copy, Debug)]
pub struct PlayerDrawing {
    /// The colour of the box and its labels.
    pub color: Rgba,
    pub tracer: Option<Tracer>,
    pub esp_box: EspBox,
    pub health_bar: Option<HealthBar>,
    /// Size of the distance label, as `f32` bits, when it is shown.
    pub distance_text: Option<u32>,
    /// Size of the name label, as `f32` bits, when it is shown.
    pub name_text: Option<u32>,
}

/// The anchor a tracer type setting selects; unknown types run to the top.
pub open spec fn anchor_of(choice: usize) -> TracerAnchor {
    if choice == 0 {
        TracerAnchor::Top
    } else if choice == 1 {
        TracerAnchor::Middle
    } else if choice == 2 {
        TracerAnchor::BottomMiddle
    } else if choice == 3 {
        TracerAnchor::Bottom
    } else if choice == 4 {
        TracerAnchor::Mouse
    } else {
        TracerAnchor::Top
    }
}

/// The tracer anchor for the tracer type setting `choice`.
pub fn tracer_anchor(choice: usize) -> (r: TracerAnchor)
    ensures
        r == anchor_of(choice),
{
    if choice == 0 {
        TracerAnchor::Top
    } else if choice == 1 {
        TracerAnchor::Middle
    } else if choice == 2 {
        TracerAnchor::BottomMiddle
    } else if choice == 3 {
        TracerAnchor::Bottom
    } else if choice == 4 {
        TracerAnchor::Mouse
    } else {
        TracerAnchor::Top
    }
}

/// The lists of choices the menu offers in its drop-downs.
#[derive(PartialEq, Eq, Structural, Clone, Copy, Debug)]
pub enum Choices {
    Smoothness,
    TargetPriority,
    AimPart,
    EspType,
    TracerType,
}

/// The names of a list of choices, in order.
pub open spec fn choice_names(list: Choices) -> Seq<Seq<char>> {
    match list {
        Choices::Smoothness => seq!["Linear"@, "Ease in"@, "Ease out"@, "Smooth"@],
        Choices::TargetPriority => seq!["Distance"@, "Cursor"@],
        Choices::AimPart => seq!["Head"@, "Torso"@],
        Choices::EspType => seq!["None"@, "2D Box"@, "3D Box"@, "Corners"@],
        Choices::TracerType => seq!["Top"@, "Middle"@, "Bottom Middle"@, "Bottom"@, "Mouse"@],
    }
}

/// The name of choice `index` of `list`, shown as the drop-down's selection.
pub fn choice_label(list: Choices, index: usize) -> (r: &'static str)
    requires
        index < choice_names(list).len(),
    ensures
        r@ == choice_names(list)[index as int],
{
    match list {
        Choices::Smoothness => {
            if index == 0 {
                "Linear"
            } else if index == 1 {
                "Ease in"
            } else if index == 2 {
                "Ease out"
            } else {
                "Smooth"
            }
        },
        Choices::TargetPriority => {
            if index == 0 {
                "Distance"
            } else {
                "Cursor"
            }
        },
        Choices::AimPart => {
            if index == 0 {
                "Head"
            } else {
                "Torso"
            }
        },
        Choices::EspType => {
            if index == 0 {
                "None"
            } else if index == 1 {
                "2D Box"
            } else if index == 2 {
                "3D Box"
            } else {
                "Corners"
            }
        },
        Choices::TracerType => {
            if index == 0 {
                "Top"
            } else if index == 1 {
                "Middle"
            } else if index == 2 {
                "Bottom Middle"
            } else if index == 3 {
                "Bottom"
            } else {
                "Mouse"
            }
        },
    }
}

impl Lock {
    /// The settings are well formed and the settings and keybind frames are
    /// never open together.
    pub open spec fn wf(&self) -> bool {
        &&& self.bool_map.wf()
        &&& self.u32_map.wf()
        &&& self.usize_map.wf()
        &&& self.f32_map.wf()
        &&& self.color_map.wf()
        &&& !(self.settings_frame_open && self.keybind_frame_open)
    }

    /// Everything but the settings is the same in `self` and `other`.
    pub open spec fn same_menu(&self, other: &Lock) -> bool {
        &&& self.selected_tab == other.selected_tab
        &&& self.window_open == other.window_open
        &&& self.window_theme == other.window_theme
        &&& self.settings_frame_open == other.settings_frame_open
        &&& self.keybind_frame_open == other.keybind_frame_open
        &&& self.window_tooltips_enabled == other.window_tooltips_enabled
        &&& self.unlock_fps == other.unlock_fps
        &&& self.fps_limit == other.fps_limit
    }

    /// Whether the overlay draws anything this frame.
    pub fn is_shown(&self) -> (r: bool)
        ensures
            r == self.window_open,
    {
        self.window_open
    }

    /// The gear button: closes the keybind frame and opens or closes the
    /// settings frame.
    pub fn press_settings_button(&mut self)
        requires
            old(self).wf(),
        ensures
            final(self).wf(),
            *final(self) == after(*old(self), MenuEvent::SettingsButton),
    {
        self.keybind_frame_open = false;
        self.settings_frame_open = !self.settings_frame_open;
    }

    /// The keybind button: closes the settings frame and opens or closes the
    /// keybind frame.
    pub fn press_keybind_button(&mut self)
        requires
            old(self).wf(),
        ensures
            final(self).wf(),
            *final(self) == after(*old(self), MenuEvent::KeybindButton),
    {
        self.settings_frame_open = false;
        self.keybind_frame_open = !self.keybind_frame_open;
    }

    /// The sun or moon button: switches between the light and dark theme.
    pub fn press_theme_button(&mut self)
        requires
            old(self).wf(),
        ensures
            final(self).wf(),
            *final(self) == after(*old(self), MenuEvent::ThemeButton),
    {
        self.window_theme = !self.window_theme;
    }

    /// A tab on the left was clicked: it becomes the selected tab and both
    /// frames close.
    pub fn select_tab(&mut self, tab: u8)
        requires
            old(self).wf(),
        ensures
            final(self).wf(),
            *final(self) == after(*old(self), MenuEvent::Tab(tab)),
    {
        self.selected_tab = tab;
        self.settings_frame_open = false;
        self.keybind_frame_open = false;
    }

    /// What the right-hand side shows this frame. An open frame deselects the
    /// tabs; a selected tab that does not exist is reset to the first one and
    /// nothing is shown this frame.
    pub fn content(&mut self) -> (r: Panel)
        requires
            old(self).wf(),
        ensures
            final(self).wf(),
            r == panel_of(*old(self)),
            *final(self) == after(*old(self), MenuEvent::Render),
    {
        if self.settings_frame_open {
            self.selected_tab = 0;
            Panel::Settings
        } else if self.keybind_frame_open {
            self.selected_tab = 0;
            Panel::Keybinds
        } else if self.selected_tab == 1 {
            Panel::Aimbot
        } else if self.selected_tab == 2 {
            Panel::Esp
        } else if self.selected_tab == 3 {
            Panel::Misc
        } else {
            self.selected_tab = FIRST_TAB;
            Panel::Nothing
        }
    }
}

/// What happens to the menu: a button or tab clicked, or a frame drawn.
#[derive(PartialEq, Eq, Structural, Clone, Copy, Debug)]
pub enum MenuEvent {
    SettingsButton,
    KeybindButton,
    ThemeButton,
    Tab(u8),
    Render,
}

/// The panel a frame drawn in state `l` shows.
pub open spec fn panel_of(l: Lock) -> Panel {
    if l.settings_frame_open {
        Panel::Settings
    } else if l.keybind_frame_open {
        Panel::Keybinds
    } else if l.selected_tab == 1 {
        Panel::Aimbot
    } else if l.selected_tab == 2 {
        Panel::Esp
    } else if l.selected_tab == 3 {
        Panel::Misc
    } else {
        Panel::Nothing
    }
}

/// The menu after event `e`.
pub open spec fn after(l: Lock, e: MenuEvent) -> Lock {
    match e {
        MenuEvent::SettingsButton => Lock {
            keybind_frame_open: false,
            settings_frame_open: !l.settings_frame_open,
            ..l
        },
        MenuEvent::KeybindButton => Lock {
            settings_frame_open: false,
            keybind_frame_open: !l.keybind_frame_open,
            ..l
        },
        MenuEvent::ThemeButton => Lock { window_theme: !l.window_theme, ..l },
        MenuEvent::Tab(t) => Lock {
            selected_tab: t,
            settings_frame_open: false,
            keybind_frame_open: false,
            ..l
        },
        MenuEvent::Render => if l.settings_frame_open || l.keybind_frame_open {
            Lock { selected_tab: 0, ..l }
        } else if 1 <= l.selected_tab <= 3 {
            l
        } else {
            Lock { selected_tab: FIRST_TAB, ..l }
        },
    }
}

/// The menu after the events `events`, in order.
pub open spec fn after_all(l: Lock, events: Seq<MenuEvent>) -> Lock
    decreases events.len(),
{
    if events.len() == 0 {
        l
    } else {
        after(after_all(l, events.drop_last()), events.last())
    }
}

/// Whatever is clicked and drawn, the settings frame and the keybind frame
/// are never open together once they are not.
pub proof fn lemma_frames_never_both_open(l: Lock, events: Seq<MenuEvent>)
    requires
        !(l.settings_frame_open && l.keybind_frame_open),
    ensures
        !(after_all(l, events).settings_frame_open && after_all(l, events).keybind_frame_open),
    decreases events.len(),
{
    if events.len() > 0 {
        lemma_frames_never_both_open(l, events.drop_last());
    }
}

/// Clicking a tab and drawing shows that tab's panel, for the three tabs
/// there are.
pub proof fn lemma_clicked_tab_is_shown(l: Lock, tab: u8)
    requires
        1 <= tab <= 3,
    ensures
        panel_of(after(l, MenuEvent::Tab(tab))) == (if tab == 1 {
            Panel::Aimbot
        } else if tab == 2 {
            Panel::Esp
        } else {
            Panel::Misc
        }),
        after(after(l, MenuEvent::Tab(tab)), MenuEvent::Render) == after(l, MenuEvent::Tab(tab)),
{
}

/// Drawing twice changes nothing the first drawing did not: a reset tab
/// stays reset, and the second frame shows a panel (never nothing).
pub proof fn lemma_render_settles(l: Lock)
    ensures
        after(after(l, MenuEvent::Render), MenuEvent::Render) == after(l, MenuEvent::Render),
        panel_of(after(l, MenuEvent::Render)) != Panel::Nothing,
        panel_of(l) != Panel::Nothing ==> panel_of(after(l, MenuEvent::Render)) == panel_of(l),
{
}

/// Pressing a frame's button twice leaves that frame as it was and the other
/// frame closed; pressing the theme button twice restores the theme.
pub proof fn lemma_buttons_toggle(l: Lock)
    ensures
        after(after(l, MenuEvent::SettingsButton), MenuEvent::SettingsButton).settings_frame_open == l.settings_frame_open,
        !after(after(l, MenuEvent::SettingsButton), MenuEvent::SettingsButton).keybind_frame_open,
        after(after(l, MenuEvent::KeybindButton), MenuEvent::KeybindButton).keybind_frame_open == l.keybind_frame_open,
        !after(after(l, MenuEvent::KeybindButton), MenuEvent::KeybindButton).settings_frame_open,
        after(after(l, MenuEvent::ThemeButton), MenuEvent::ThemeButton) == l,
{
}

/// The settings of the overlay by value type: switches, whole numbers,
/// choices, `f32` bits and colours.
pub type SettingViews = (
    Map<Seq<char>, bool>,
    Map<Seq<char>, u32>,
    Map<Seq<char>, usize>,
    Map<Seq<char>, u32>,
    Map<Seq<char>, Rgba>,
);

/// The settings of `l`.
pub open spec fn settings_of(l: Lock) -> SettingViews {
    (l.bool_map.view(), l.u32_map.view(), l.usize_map.view(), l.f32_map.view(), l.color_map.view())
}

/// The colour of player boxes read from settings `s`, and `s` after it is
/// read.
pub open spec fn esp_color_reads(s: SettingViews) -> (Rgba, SettingViews) {
    (value_or(s.4, "esp_color"@, white()), (s.0, s.1, s.2, s.3, touched(s.4, "esp_color"@, white())))
}

/// The tracer to a player `distance` away read from settings `s`, and `s`
/// after it is read. Tracers are drawn when switched on; a tracer to the
/// mouse only while the pointer is over the overlay.
pub open spec fn tracer_reads(s: SettingViews, distance: u32, pointer_present: bool) -> (Option<Tracer>, SettingViews) {
    let on = value_or(s.0, "esp_tracers_enabled"@, false);
    let b1 = touched(s.0, "esp_tracers_enabled"@, false);
    if !on {
        (None, (b1, s.1, s.2, s.3, s.4))
    } else {
        let fixed = value_or(s.4, "esp_tracers_color"@, white());
        let c1 = touched(s.4, "esp_tracers_color"@, white());
        let by_distance = value_or(b1, "esp_tracers_distance_based"@, false);
        let b2 = touched(b1, "esp_tracers_distance_based"@, false);
        let limited = value_or(b2, "esp_distance_limited"@, false);
        let b3 = if by_distance { touched(b2, "esp_distance_limited"@, false) } else { b2 };
        let u1 = if by_distance && limited { touched(s.1, "esp_distance_limit"@, 1000u32) } else { s.1 };
        let max_distance = if limited { value_or(s.1, "esp_distance_limit"@, 1000u32) } else { DEFAULT_MAX_DISTANCE };
        let shade_distance = if distance == 0 { 1u32 } else { distance };
        let color = if by_distance {
            TracerColor::ByDistance { max_distance, distance: shade_distance }
        } else {
            TracerColor::Fixed(fixed)
        };
        let anchor = anchor_of(value_or(s.2, "esp_tracers_type"@, 0usize));
        let z1 = touched(s.2, "esp_tracers_type"@, 0usize);
        let r = if anchor == TracerAnchor::Mouse && !pointer_present { None } else { Some(Tracer { anchor, color }) };
        (r, (b3, u1, z1, s.3, c1))
    }
}

/// The box drawn around players read from settings `s`, and `s` after it
/// is read: none, a 3D box (not drawn yet), corners, or, for the 2D box and
/// any unknown type, a 2D box.
pub open spec fn esp_box_reads(s: SettingViews) -> (EspBox, SettingViews) {
    let kind = value_or(s.2, "esp_type"@, 1usize);
    let z1 = touched(s.2, "esp_type"@, 1usize);
    if kind == 0 {
        (EspBox::Hidden, (s.0, s.1, z1, s.3, s.4))
    } else if kind == 2 {
        (EspBox::ThreeD, (s.0, s.1, z1, s.3, s.4))
    } else {
        let filled = value_or(s.0, "esp_box_filled"@, false);
        let b1 = touched(s.0, "esp_box_filled"@, false);
        (if kind == 3 { EspBox::Corners { filled } } else { EspBox::TwoD { filled } }, (b1, s.1, z1, s.3, s.4))
    }
}

/// The health bar read from settings `s`, and `s` after it is read: shown
/// when both the bar and health are switched on.
pub open spec fn health_bar_reads(s: SettingViews) -> (Option<HealthBar>, SettingViews) {
    let bar = value_or(s.0, "esp_health_bar"@, false);
    let b1 = touched(s.0, "esp_health_bar"@, false);
    let show = value_or(b1, "esp_show_health"@, false);
    let b2 = touched(b1, "esp_show_health"@, false);
    if !bar {
        (None, (b1, s.1, s.2, s.3, s.4))
    } else if !show {
        (None, (b2, s.1, s.2, s.3, s.4))
    } else {
        let health = value_or(s.1, "temp_debug_slider"@, 50u32);
        let u1 = touched(s.1, "temp_debug_slider"@, 50u32);
        let text = value_or(b2, "esp_health_text"@, false);
        let b3 = touched(b2, "esp_health_text"@, false);
        if text {
            let size = value_or(s.3, "esp_text_size"@, F32_TEN);
            (
                Some(HealthBar { health, text_size_bits: Some(size) }),
                (b3, u1, s.2, touched(s.3, "esp_text_size"@, F32_TEN), s.4),
            )
        } else {
            (Some(HealthBar { health, text_size_bits: None }), (b3, u1, s.2, s.3, s.4))
        }
    }
}

/// The size of a label on player boxes read from settings `s`, and `s`
/// after it is read: the text size when the label's switch is on.
pub open spec fn label_reads(s: SettingViews, switch: Seq<char>) -> (Option<u32>, SettingViews) {
    let shown = value_or(s.0, switch, false);
    let b1 = touched(s.0, switch, false);
    if shown {
        (
            Some(value_or(s.3, "esp_text_size"@, F32_TEN)),
            (b1, s.1, s.2, touched(s.3, "esp_text_size"@, F32_TEN), s.4),
        )
    } else {
        (None, (b1, s.1, s.2, s.3, s.4))
    }
}

/// What is drawn for a player `distance` away, read from settings `s` in
/// the overlay's order (box colour, tracer, box, health bar, distance label,
/// name label), and `s` after those reads.
pub open spec fn player_drawing_reads(s: SettingViews, distance: u32, pointer_present: bool) -> (PlayerDrawing, SettingViews) {
    let color = esp_color_reads(s);
    let tracer = tracer_reads(color.1, distance, pointer_present);
    let esp_box = esp_box_reads(tracer.1);
    let health_bar = health_bar_reads(esp_box.1);
    let distance_text = label_reads(health_bar.1, "esp_distance"@);
    let name_text = label_reads(distance_text.1, "esp_names"@);
    (
        PlayerDrawing {
            color: color.0,
            tracer: tracer.0,
            esp_box: esp_box.0,
            health_bar: health_bar.0,
            distance_text: distance_text.0,
            name_text: name_text.0,
        },
        name_text.1,
    )
}

/// The names under which the overlay stores its settings are told apart:
/// their lengths, and for names of the same length, that they differ.
pub(crate) proof fn lemma_setting_names_differ()
    ensures
        "aimbot_aimpart"@.len() == 14,
        "aimbot_enabled"@.len() == 14,
        "aimbot_fov_color"@.len() == 16,
        "aimbot_fov_enabled"@.len() == 18,
        "aimbot_fov_value"@.len() == 16,
        "aimbot_hide_fov"@.len() == 15,
        "aimbot_prediction"@.len() == 17,
        "aimbot_range"@.len() == 12,
        "aimbot_range_enabled"@.len() == 20,
        "aimbot_smoothness"@.len() == 17,
        "aimbot_smoothness_type"@.len() == 22,
        "aimbot_stickyaim"@.len() == 16,
        "aimbot_teamcheck"@.len() == 16,
        "aimbot_triggerbot"@.len() == 17,
        "aimbot_triggerbot_delay"@.len() == 23,
        "aimbot_type"@.len() == 11,
        "aimbot_wallcheck"@.len() == 16,
        "aimbot_xoffset"@.len() == 14,
        "aimbot_yoffset"@.len() == 14,
        "esp_box_filled"@.len() == 14,
        "esp_color"@.len() == 9,
        "esp_distance"@.len() == 12,
        "esp_distance_limit"@.len() == 18,
        "esp_distance_limited"@.len() == 20,
        "esp_enabled"@.len() == 11,
        "esp_health_bar"@.len() == 14,
        "esp_health_text"@.len() == 15,
        "esp_hide_team"@.len() == 13,
        "esp_names"@.len() == 9,
        "esp_show_health"@.len() == 15,
        "esp_team_based_color"@.len() == 20,
        "esp_teamcheck"@.len() == 13,
        "esp_text_size"@.len() == 13,
        "esp_tracers_color"@.len() == 17,
        "esp_tracers_distance_based"@.len() == 26,
        "esp_tracers_enabled"@.len() == 19,
        "esp_tracers_type"@.len() == 16,
        "esp_type"@.len() == 8,
        "esp_wallcheck_enabled"@.len() == 21,
        "fov_circle_filled"@.len() == 17,
        "fov_circle_thickness"@.len() == 20,
        "show_team_names"@.len() == 15,
        "temp_debug_slider"@.len() == 17,
        "aimbot_aimpart"@ != "aimbot_enabled"@,
        "aimbot_aimpart"@ != "aimbot_xoffset"@,
        "aimbot_aimpart"@ != "aimbot_yoffset"@,
        "aimbot_aimpart"@ != "esp_box_filled"@,
        "aimbot_aimpart"@ != "esp_health_bar"@,
        "aimbot_enabled"@ != "aimbot_xoffset"@,
        "aimbot_enabled"@ != "aimbot_yoffset"@,
        "aimbot_enabled"@ != "esp_box_filled"@,
        "aimbot_enabled"@ != "esp_health_bar"@,
        "aimbot_fov_color"@ != "aimbot_fov_value"@,
        "aimbot_fov_color"@ != "aimbot_stickyaim"@,
        "aimbot_fov_color"@ != "aimbot_teamcheck"@,
        "aimbot_fov_color"@ != "aimbot_wallcheck"@,
        "aimbot_fov_color"@ != "esp_tracers_type"@,
        "aimbot_fov_enabled"@ != "esp_distance_limit"@,
        "aimbot_fov_value"@ != "aimbot_stickyaim"@,
        "aimbot_fov_value"@ != "aimbot_teamcheck"@,
        "aimbot_fov_value"@ != "aimbot_wallcheck"@,
        "aimbot_fov_value"@ != "esp_tracers_type"@,
        "aimbot_hide_fov"@ != "esp_health_text"@,
        "aimbot_hide_fov"@ != "esp_show_health"@,
        "aimbot_hide_fov"@ != "show_team_names"@,
        "aimbot_prediction"@ != "aimbot_smoothness"@,
        "aimbot_prediction"@ != "aimbot_triggerbot"@,
        "aimbot_prediction"@ != "esp_tracers_color"@,
        "aimbot_prediction"@ != "fov_circle_filled"@,
        "aimbot_prediction"@ != "temp_debug_slider"@,
        "aimbot_range"@ != "esp_distance"@,
        "aimbot_range_enabled"@ != "esp_distance_limited"@,
        "aimbot_range_enabled"@ != "esp_team_based_color"@,
        "aimbot_range_enabled"@ != "fov_circle_thickness"@,
        "aimbot_smoothness"@ != "aimbot_triggerbot"@,
        "aimbot_smoothness"@ != "esp_tracers_color"@,
        "aimbot_smoothness"@ != "fov_circle_filled"@,
        "aimbot_smoothness"@ != "temp_debug_slider"@,
        "aimbot_stickyaim"@ != "aimbot_teamcheck"@,
        "aimbot_stickyaim"@ != "aimbot_wallcheck"@,
        "aimbot_stickyaim"@ != "esp_tracers_type"@,
        "aimbot_teamcheck"@ != "aimbot_wallcheck"@,
        "aimbot_teamcheck"@ != "esp_tracers_type"@,
        "aimbot_triggerbot"@ != "esp_tracers_color"@,
        "aimbot_triggerbot"@ != "fov_circle_filled"@,
        "aimbot_triggerbot"@ != "temp_debug_slider"@,
        "aimbot_type"@ != "esp_enabled"@,
        "aimbot_wallcheck"@ != "esp_tracers_type"@,
        "aimbot_xoffset"@ != "aimbot_yoffset"@,
        "aimbot_xoffset"@ != "esp_box_filled"@,
        "aimbot_xoffset"@ != "esp_health_bar"@,
        "aimbot_yoffset"@ != "esp_box_filled"@,
        "aimbot_yoffset"@ != "esp_health_bar"@,
        "esp_box_filled"@ != "esp_health_bar"@,
        "esp_color"@ != "esp_names"@,
        "esp_distance_limited"@ != "esp_team_based_color"@,
        "esp_distance_limited"@ != "fov_circle_thickness"@,
        "esp_health_text"@ != "esp_show_health"@,
        "esp_health_text"@ != "show_team_names"@,
        "esp_hide_team"@ != "esp_teamcheck"@,
        "esp_hide_team"@ != "esp_text_size"@,
        "esp_show_health"@ != "show_team_names"@,
        "esp_team_based_color"@ != "fov_circle_thickness"@,
        "esp_teamcheck"@ != "esp_text_size"@,
        "esp_tracers_color"@ != "fov_circle_filled"@,
        "esp_tracers_color"@ != "temp_debug_slider"@,
        "fov_circle_filled"@ != "temp_debug_slider"@,
{
    reveal_strlit("aimbot_aimpart");
    reveal_strlit("aimbot_enabled");
    reveal_strlit("aimbot_fov_color");
    reveal_strlit("aimbot_fov_enabled");
    reveal_strlit("aimbot_fov_value");
    reveal_strlit("aimbot_hide_fov");
    reveal_strlit("aimbot_prediction");
    reveal_strlit("aimbot_range");
    reveal_strlit("aimbot_range_enabled");
    reveal_strlit("aimbot_smoothness");
    reveal_strlit("aimbot_smoothness_type");
    reveal_strlit("aimbot_stickyaim");
    reveal_strlit("aimbot_teamcheck");
    reveal_strlit("aimbot_triggerbot");
    reveal_strlit("aimbot_triggerbot_delay");
    reveal_strlit("aimbot_type");
    reveal_strlit("aimbot_wallcheck");
    reveal_strlit("aimbot_xoffset");
    reveal_strlit("aimbot_yoffset");
    reveal_strlit("esp_box_filled");
    reveal_strlit("esp_color");
    reveal_strlit("esp_distance");
    reveal_strlit("esp_distance_limit");
    reveal_strlit("esp_distance_limited");
    reveal_strlit("esp_enabled");
    reveal_strlit("esp_health_bar");
    reveal_strlit("esp_health_text");
    reveal_strlit("esp_hide_team");
    reveal_strlit("esp_names");
    reveal_strlit("esp_show_health");
    reveal_strlit("esp_team_based_color");
    reveal_strlit("esp_teamcheck");
    reveal_strlit("esp_text_size");
    reveal_strlit("esp_tracers_color");
    reveal_strlit("esp_tracers_distance_based");
    reveal_strlit("esp_tracers_enabled");
    reveal_strlit("esp_tracers_type");
    reveal_strlit("esp_type");
    reveal_strlit("esp_wallcheck_enabled");
    reveal_strlit("fov_circle_filled");
    reveal_strlit("fov_circle_thickness");
    reveal_strlit("show_team_names");
    reveal_strlit("temp_debug_slider");
    assert("aimbot_aimpart"@[7] != "aimbot_enabled"@[7]);
    assert("aimbot_aimpart"@[7] != "aimbot_xoffset"@[7]);
    assert("aimbot_aimpart"@[7] != "aimbot_yoffset"@[7]);
    assert("aimbot_aimpart"@[0] != "esp_box_filled"@[0]);
    assert("aimbot_aimpart"@[0] != "esp_health_bar"@[0]);
    assert("aimbot_enabled"@[7] != "aimbot_xoffset"@[7]);
    assert("aimbot_enabled"@[7] != "aimbot_yoffset"@[7]);
    assert("aimbot_enabled"@[0] != "esp_box_filled"@[0]);
    assert("aimbot_enabled"@[0] != "esp_health_bar"@[0]);
    assert("aimbot_fov_color"@[11] != "aimbot_fov_value"@[11]);
    assert("aimbot_fov_color"@[7] != "aimbot_stickyaim"@[7]);
    assert("aimbot_fov_color"@[7] != "aimbot_teamcheck"@[7]);
    assert("aimbot_fov_color"@[7] != "aimbot_wallcheck"@[7]);
    assert("aimbot_fov_color"@[0] != "esp_tracers_type"@[0]);
    assert("aimbot_fov_enabled"@[0] != "esp_distance_limit"@[0]);
    assert("aimbot_fov_value"@[7] != "aimbot_stickyaim"@[7]);
    assert("aimbot_fov_value"@[7] != "aimbot_teamcheck"@[7]);
    assert("aimbot_fov_value"@[7] != "aimbot_wallcheck"@[7]);
    assert("aimbot_fov_value"@[0] != "esp_tracers_type"@[0]);
    assert("aimbot_hide_fov"@[0] != "esp_health_text"@[0]);
    assert("aimbot_hide_fov"@[0] != "esp_show_health"@[0]);
    assert("aimbot_hide_fov"@[0] != "show_team_names"@[0]);
    assert("aimbot_prediction"@[7] != "aimbot_smoothness"@[7]);
    assert("aimbot_prediction"@[7] != "aimbot_triggerbot"@[7]);
    assert("aimbot_prediction"@[0] != "esp_tracers_color"@[0]);
    assert("aimbot_prediction"@[0] != "fov_circle_filled"@[0]);
    assert("aimbot_prediction"@[0] != "temp_debug_slider"@[0]);
    assert("aimbot_range"@[0] != "esp_distance"@[0]);
    assert("aimbot_range_enabled"@[0] != "esp_distance_limited"@[0]);
    assert("aimbot_range_enabled"@[0] != "esp_team_based_color"@[0]);
    assert("aimbot_range_enabled"@[0] != "fov_circle_thickness"@[0]);
    assert("aimbot_smoothness"@[7] != "aimbot_triggerbot"@[7]);
    assert("aimbot_smoothness"@[0] != "esp_tracers_color"@[0]);
    assert("aimbot_smoothness"@[0] != "fov_circle_filled"@[0]);
    assert("aimbot_smoothness"@[0] != "temp_debug_slider"@[0]);
    assert("aimbot_stickyaim"@[7] != "aimbot_teamcheck"@[7]);
    assert("aimbot_stickyaim"@[7] != "aimbot_wallcheck"@[7]);
    assert("aimbot_stickyaim"@[0] != "esp_tracers_type"@[0]);
    assert("aimbot_teamcheck"@[7] != "aimbot_wallcheck"@[7]);
    assert("aimbot_teamcheck"@[0] != "esp_tracers_type"@[0]);
    assert("aimbot_triggerbot"@[0] != "esp_tracers_color"@[0]);
    assert("aimbot_triggerbot"@[0] != "fov_circle_filled"@[0]);
    assert("aimbot_triggerbot"@[0] != "temp_debug_slider"@[0]);
    assert("aimbot_type"@[0] != "esp_enabled"@[0]);
    assert("aimbot_wallcheck"@[0] != "esp_tracers_type"@[0]);
    assert("aimbot_xoffset"@[7] != "aimbot_yoffset"@[7]);
    assert("aimbot_xoffset"@[0] != "esp_box_filled"@[0]);
    assert("aimbot_xoffset"@[0] != "esp_health_bar"@[0]);
    assert("aimbot_yoffset"@[0] != "esp_box_filled"@[0]);
    assert("aimbot_yoffset"@[0] != "esp_health_bar"@[0]);
    assert("esp_box_filled"@[4] != "esp_health_bar"@[4]);
    assert("esp_color"@[4] != "esp_names"@[4]);
    assert("esp_distance_limited"@[4] != "esp_team_based_color"@[4]);
    assert("esp_distance_limited"@[0] != "fov_circle_thickness"@[0]);
    assert("esp_health_text"@[4] != "esp_show_health"@[4]);
    assert("esp_health_text"@[0] != "show_team_names"@[0]);
    assert("esp_hide_team"@[4] != "esp_teamcheck"@[4]);
    assert("esp_hide_team"@[4] != "esp_text_size"@[4]);
    assert("esp_show_health"@[0] != "show_team_names"@[0]);
    assert("esp_team_based_color"@[0] != "fov_circle_thickness"@[0]);
    assert("esp_teamcheck"@[6] != "esp_text_size"@[6]);
    assert("esp_tracers_color"@[0] != "fov_circle_filled"@[0]);
    assert("esp_tracers_color"@[0] != "temp_debug_slider"@[0]);
    assert("fov_circle_filled"@[0] != "temp_debug_slider"@[0]);
}

/// The aim circle read from settings `s`, and `s` after it is read: drawn
/// while the pointer is over the overlay, the aimbot and its field of view
/// are on and the circle is not hidden.
pub open spec fn fov_circle_reads(s: SettingViews, pointer_present: bool) -> (Option<FovCircle>, SettingViews) {
    let hide = value_or(s.0, "aimbot_hide_fov"@, false);
    let b1 = touched(s.0, "aimbot_hide_fov"@, false);
    let fov = value_or(b1, "aimbot_fov_enabled"@, false);
    let b2 = touched(b1, "aimbot_fov_enabled"@, false);
    let aim = value_or(b2, "aimbot_enabled"@, false);
    let b3 = touched(b2, "aimbot_enabled"@, false);
    if !pointer_present {
        (None, s)
    } else if hide {
        (None, (b1, s.1, s.2, s.3, s.4))
    } else if !fov {
        (None, (b2, s.1, s.2, s.3, s.4))
    } else if !aim {
        (None, (b3, s.1, s.2, s.3, s.4))
    } else {
        let color = value_or(s.4, "aimbot_fov_color"@, white());
        let x_offset_bits = value_or(s.3, "aimbot_xoffset"@, F32_ZERO);
        let f1 = touched(s.3, "aimbot_xoffset"@, F32_ZERO);
        let y_offset_bits = value_or(f1, "aimbot_yoffset"@, F32_ZERO);
        let f2 = touched(f1, "aimbot_yoffset"@, F32_ZERO);
        let filled = value_or(b3, "fov_circle_filled"@, false);
        let radius = value_or(s.1, "aimbot_fov_value"@, 100u32);
        let width = if filled { F32_ONE } else { F32_ONE_AND_A_HALF };
        let thickness_bits = value_or(f2, "fov_circle_thickness"@, width);
        (
            Some(FovCircle { color, x_offset_bits, y_offset_bits, filled, radius, thickness_bits }),
            (
                touched(b3, "fov_circle_filled"@, false),
                touched(s.1, "aimbot_fov_value"@, 100u32),
                s.2,
                touched(f2, "fov_circle_thickness"@, width),
                touched(s.4, "aimbot_fov_color"@, white()),
            ),
        )
    }
}

/// The aim circle is drawn exactly while the pointer is over the overlay,
/// "aimbot_enabled" and "aimbot_fov_enabled" are on and "aimbot_hide_fov"
/// is off. It is centred at the pointer moved by the offsets stored under
/// "aimbot_xoffset" and "aimbot_yoffset", has the radius stored under
/// "aimbot_fov_value" (100 when never set) and the colour under
/// "aimbot_fov_color", is filled as stored under "fov_circle_filled", and
/// its outline is as wide as stored under "fov_circle_thickness" (when never
/// set: 1.0 for a filled circle, 1.5 otherwise).
pub proof fn law_fov_circle_follows_its_settings(s: SettingViews, pointer_present: bool)
    ensures
        ({
            let b = s.0;
            let drawn = pointer_present && !value_or(b, "aimbot_hide_fov"@, false)
                && value_or(b, "aimbot_fov_enabled"@, false) && value_or(b, "aimbot_enabled"@, false);
            let filled = value_or(b, "fov_circle_filled"@, false);
            let expected = if drawn {
                Some(
                    FovCircle {
                        color: value_or(s.4, "aimbot_fov_color"@, white()),
                        x_offset_bits: value_or(s.3, "aimbot_xoffset"@, F32_ZERO),
                        y_offset_bits: value_or(s.3, "aimbot_yoffset"@, F32_ZERO),
                        filled,
                        radius: value_or(s.1, "aimbot_fov_value"@, 100u32),
                        thickness_bits: value_or(
                            s.3,
                            "fov_circle_thickness"@,
                            if filled { F32_ONE } else { F32_ONE_AND_A_HALF },
                        ),
                    },
                )
            } else {
                None
            };
            fov_circle_reads(s, pointer_present).0 == expected
        }),
{
    lemma_setting_names_differ();
}

/// The distance a tracer shaded by distance is measured against, from
/// switches `b` and whole numbers `u`: the distance limit when one is set,
/// a thousand otherwise.
pub open spec fn shading_limit(b: Map<Seq<char>, bool>, u: Map<Seq<char>, u32>) -> u32 {
    if value_or(b, "esp_distance_limited"@, false) {
        value_or(u, "esp_distance_limit"@, 1000u32)
    } else {
        DEFAULT_MAX_DISTANCE
    }
}

/// Player boxes take the colour stored under "esp_color", white when it
/// was never set; no other setting changes it.
pub proof fn law_box_colour_is_its_own_setting(s: SettingViews, distance: u32, pointer_present: bool)
    ensures
        esp_color_reads(s).0 == value_or(s.4, "esp_color"@, white()),
        player_drawing_reads(s, distance, pointer_present).0.color == value_or(s.4, "esp_color"@, white()),
{
    lemma_setting_names_differ();
}

/// A tracer is drawn exactly when tracers are switched on, unless it runs
/// to the mouse while the pointer is away. It runs to the anchor that the
/// stored tracer type selects; it is shaded by distance when that is
/// switched on, and otherwise takes the colour stored under
/// "esp_tracers_color" (white when never set), whatever the box colour is.
pub proof fn law_tracer_follows_its_settings(s: SettingViews, distance: u32, pointer_present: bool)
    ensures
        ({
            let on = value_or(s.0, "esp_tracers_enabled"@, false);
            let by_distance = value_or(s.0, "esp_tracers_distance_based"@, false);
            let anchor = anchor_of(value_or(s.2, "esp_tracers_type"@, 0usize));
            let color = if by_distance {
                TracerColor::ByDistance {
                    max_distance: shading_limit(s.0, s.1),
                    distance: if distance == 0 { 1u32 } else { distance },
                }
            } else {
                TracerColor::Fixed(value_or(s.4, "esp_tracers_color"@, white()))
            };
            let expected = if !on || (anchor == TracerAnchor::Mouse && !pointer_present) {
                None
            } else {
                Some(Tracer { anchor, color })
            };
            &&& tracer_reads(s, distance, pointer_present).0 == expected
            &&& player_drawing_reads(s, distance, pointer_present).0.tracer == expected
        }),
{
    lemma_setting_names_differ();
}

/// The box drawn around a player follows the box type stored under
/// "esp_type" (a 2D box when never set): none for type 0, the 3D box for
/// type 2, corners for type 3 and a 2D box otherwise, filled as stored under
/// "esp_box_filled".
pub proof fn law_box_follows_its_settings(s: SettingViews, distance: u32, pointer_present: bool)
    ensures
        ({
            let kind = value_or(s.2, "esp_type"@, 1usize);
            let filled = value_or(s.0, "esp_box_filled"@, false);
            let expected = if kind == 0 {
                EspBox::Hidden
            } else if kind == 2 {
                EspBox::ThreeD
            } else if kind == 3 {
                EspBox::Corners { filled }
            } else {
                EspBox::TwoD { filled }
            };
            &&& esp_box_reads(s).0 == expected
            &&& player_drawing_reads(s, distance, pointer_present).0.esp_box == expected
        }),
{
    lemma_setting_names_differ();
}

/// The health bar is shown when both "esp_health_bar" and
/// "esp_show_health" are on; it shows the health stored under
/// "temp_debug_slider" (50 when never set) and, when "esp_health_text" is
/// on, its text in the size stored under "esp_text_size".
pub proof fn law_health_bar_follows_its_settings(s: SettingViews, distance: u32, pointer_present: bool)
    ensures
        ({
            let b = s.0;
            let expected = if value_or(b, "esp_health_bar"@, false) && value_or(b, "esp_show_health"@, false) {
                Some(
                    HealthBar {
                        health: value_or(s.1, "temp_debug_slider"@, 50u32),
                        text_size_bits: if value_or(b, "esp_health_text"@, false) {
                            Some(value_or(s.3, "esp_text_size"@, F32_TEN))
                        } else {
                            None
                        },
                    },
                )
            } else {
                None
            };
            &&& health_bar_reads(s).0 == expected
            &&& player_drawing_reads(s, distance, pointer_present).0.health_bar == expected
        }),
{
    lemma_setting_names_differ();
}

/// The distance label is shown when "esp_distance" is on and the name label
/// when "esp_names" is on, each in the text size stored under
/// "esp_text_size" (10.0 when never set).
pub proof fn law_labels_follow_their_settings(s: SettingViews, distance: u32, pointer_present: bool)
    ensures
        ({
            let r = player_drawing_reads(s, distance, pointer_present).0;
            let size = value_or(s.3, "esp_text_size"@, F32_TEN);
            &&& r.distance_text == (if value_or(s.0, "esp_distance"@, false) { Some(size) } else { None })
            &&& r.name_text == (if value_or(s.0, "esp_names"@, false) { Some(size) } else { None })
        }),
{
    lemma_setting_names_differ();
}

/// The colour a colour setting starts as, for executable code.
pub(crate) fn white_exec() -> (r: Rgba)
    ensures
        r == white(),
{
    Rgba { r: 255, g: 255, b: 255, a: 255 }
}

impl Default for Lock {
    /// The menu as the overlay starts: shown, dark, on the first tab, with
    /// tooltips on, no frame open, no setting stored, and the frame rate
    /// capped at 60.
    fn default() -> (r: Self)
        ensures
            r.wf(),
            r.selected_tab == FIRST_TAB,
            r.window_open,
            !r.window_theme,
            !r.settings_frame_open,
            !r.keybind_frame_open,
            r.window_tooltips_enabled,
            r.bool_map.view() == Map::<Seq<char>, bool>::empty(),
            r.u32_map.view() == Map::<Seq<char>, u32>::empty(),
            r.usize_map.view() == Map::<Seq<char>, usize>::empty(),
            r.f32_map.view() == Map::<Seq<char>, u32>::empty(),
            r.color_map.view() == Map::<Seq<char>, Rgba>::empty(),
            !r.unlock_fps,
            r.fps_limit == 60,
    {
        Lock {
            selected_tab: FIRST_TAB,
            window_open: true,
            window_theme: false,
            settings_frame_open: false,
            keybind_frame_open: false,
            window_tooltips_enabled: true,
            bool_map: SettingMap::new(),
            u32_map: SettingMap::new(),
            usize_map: SettingMap::new(),
            f32_map: SettingMap::new(),
            color_map: SettingMap::new(),
            unlock_fps: false,
            fps_limit: 60,
        }
    }
}

impl Lock {
    /// Reads a switch setting.
    pub(crate) fn flag(&mut self, key: &str, default: bool) -> (r: bool)
        requires
            old(self).wf(),
        ensures
            final(self).wf(),
            final(self).same_menu(old(self)),
            r == value_or(old(self).bool_map.view(), key@, default),
            final(self).bool_map.view() == touched(old(self).bool_map.view(), key@, default),
            final(self).u32_map == old(self).u32_map,
            final(self).usize_map == old(self).usize_map,
            final(self).f32_map == old(self).f32_map,
            final(self).color_map == old(self).color_map,
    {
        self.bool_map.get_or_insert(key, default)
    }

    /// Reads a whole-number setting.
    pub(crate) fn count(&mut self, key: &str, default: u32) -> (r: u32)
        requires
            old(self).wf(),
        ensures
            final(self).wf(),
            final(self).same_menu(old(self)),
            r == value_or(old(self).u32_map.view(), key@, default),
            final(self).u32_map.view() == touched(old(self).u32_map.view(), key@, default),
            final(self).bool_map == old(self).bool_map,
            final(self).usize_map == old(self).usize_map,
            final(self).f32_map == old(self).f32_map,
            final(self).color_map == old(self).color_map,
    {
        self.u32_map.get_or_insert(key, default)
    }

    /// Reads a drop-down setting.
    pub(crate) fn choice(&mut self, key: &str, default: usize) -> (r: usize)
        requires
            old(self).wf(),
        ensures
            final(self).wf(),
            final(self).same_menu(old(self)),
            r == value_or(old(self).usize_map.view(), key@, default),
            final(self).usize_map.view() == touched(old(self).usize_map.view(), key@, default),
            final(self).bool_map == old(self).bool_map,
            final(self).u32_map == old(self).u32_map,
            final(self).f32_map == old(self).f32_map,
            final(self).color_map == old(self).color_map,
    {
        self.usize_map.get_or_insert(key, default)
    }

    /// Reads an `f32` setting, as its bits.
    pub(crate) fn float_bits(&mut self, key: &str, default: u32) -> (r: u32)
        requires
            old(self).wf(),
        ensures
            final(self).wf(),
            final(self).same_menu(old(self)),
            r == value_or(old(self).f32_map.view(), key@, default),
            final(self).f32_map.view() == touched(old(self).f32_map.view(), key@, default),
            final(self).bool_map == old(self).bool_map,
            final(self).u32_map == old(self).u32_map,
            final(self).usize_map == old(self).usize_map,
            final(self).color_map == old(self).color_map,
    {
        self.f32_map.get_or_insert(key, default)
    }

    /// Reads a colour setting.
    pub(crate) fn color(&mut self, key: &str, default: Rgba) -> (r: Rgba)
        requires
            old(self).wf(),
        ensures
            final(self).wf(),
            final(self).same_menu(old(self)),
            r == value_or(old(self).color_map.view(), key@, default),
            final(self).color_map.view() == touched(old(self).color_map.view(), key@, default),
            final(self).bool_map == old(self).bool_map,
            final(self).u32_map == old(self).u32_map,
            final(self).usize_map == old(self).usize_map,
            final(self).f32_map == old(self).f32_map,
    {
        self.color_map.get_or_insert(key, default)
    }

    /// Whether player boxes are drawn at all.
    pub fn esp_enabled(&mut self) -> (r: bool)
        requires
            old(self).wf(),
        ensures
            final(self).wf(),
            final(self).same_menu(old(self)),
            r == value_or(old(self).bool_map.view(), "esp_enabled"@, false),
            final(self).bool_map.view() == touched(old(self).bool_map.view(), "esp_enabled"@, false),
            final(self).u32_map == old(self).u32_map,
            final(self).usize_map == old(self).usize_map,
            final(self).f32_map == old(self).f32_map,
            final(self).color_map == old(self).color_map,
    {
        self.flag("esp_enabled", false)
    }

    /// The colour of player boxes.
    pub fn esp_color(&mut self) -> (r: Rgba)
        requires
            old(self).wf(),
        ensures
            final(self).wf(),
            final(self).same_menu(old(self)),
            esp_color_reads(settings_of(*old(self))) == (r, settings_of(*final(self))),
            r == value_or(old(self).color_map.view(), "esp_color"@, white()),
    {
        self.color("esp_color", white_exec())
    }

    /// Whether a player `distance` away is left out: only when the distance
    /// limit is on and the player is farther than it.
    pub fn beyond_distance_limit(&mut self, distance: u32) -> (r: bool)
        requires
            old(self).wf(),
        ensures
            final(self).wf(),
            final(self).same_menu(old(self)),
            final(self).usize_map == old(self).usize_map,
            final(self).f32_map == old(self).f32_map,
            final(self).color_map == old(self).color_map,
            ({
                let b0 = old(self).bool_map.view();
                let u0 = old(self).u32_map.view();
                let limited = value_or(b0, "esp_distance_limited"@, false);
                let limit = value_or(u0, "esp_distance_limit"@, 1000u32);
                &&& final(self).bool_map.view() == touched(b0, "esp_distance_limited"@, false)
                &&& limited ==> r == (limit < distance) && final(self).u32_map.view() == touched(u0, "esp_distance_limit"@, 1000u32)
                &&& !limited ==> !r && final(self).u32_map == old(self).u32_map
            }),
    {
        if self.flag("esp_distance_limited", false) {
            self.count("esp_distance_limit", 1000) < distance
        } else {
            false
        }
    }

    /// The box drawn around players: none, a 3D box (not drawn yet), corners,
    /// or, for the 2D box and any unknown type, a 2D box.
    pub fn esp_box(&mut self) -> (r: EspBox)
        requires
            old(self).wf(),
        ensures
            final(self).wf(),
            final(self).same_menu(old(self)),
            esp_box_reads(settings_of(*old(self))) == (r, settings_of(*final(self))),
    {
        let kind = self.choice("esp_type", 1);
        if kind == 0 {
            EspBox::Hidden
        } else if kind == 2 {
            EspBox::ThreeD
        } else if kind == 3 {
            EspBox::Corners { filled: self.flag("esp_box_filled", false) }
        } else {
            EspBox::TwoD { filled: self.flag("esp_box_filled", false) }
        }
    }

    /// The size of the text written under a player's box with its distance,
    /// when distances are shown.
    pub fn distance_text(&mut self) -> (r: Option<u32>)
        requires
            old(self).wf(),
        ensures
            final(self).wf(),
            final(self).same_menu(old(self)),
            label_reads(settings_of(*old(self)), "esp_distance"@) == (r, settings_of(*final(self))),
    {
        if self.flag("esp_distance", false) {
            Some(self.float_bits("esp_text_size", F32_TEN))
        } else {
            None
        }
    }

    /// The size of the text written above a player's box with its name, when
    /// names are shown.
    pub fn name_text(&mut self) -> (r: Option<u32>)
        requires
            old(self).wf(),
        ensures
            final(self).wf(),
            final(self).same_menu(old(self)),
            label_reads(settings_of(*old(self)), "esp_names"@) == (r, settings_of(*final(self))),
    {
        if self.flag("esp_names", false) {
            Some(self.float_bits("esp_text_size", F32_TEN))
        } else {
            None
        }
    }

    /// The health bar beside a player's box, when both the bar and health
    /// are switched on.
    pub fn health_bar(&mut self) -> (r: Option<HealthBar>)
        requires
            old(self).wf(),
        ensures
            final(self).wf(),
            final(self).same_menu(old(self)),
            health_bar_reads(settings_of(*old(self))) == (r, settings_of(*final(self))),
    {
        if self.flag("esp_health_bar", false) && self.flag("esp_show_health", false) {
            let health = self.count("temp_debug_slider", 50);
            let text_size_bits = if self.flag("esp_health_text", false) {
                Some(self.float_bits("esp_text_size", F32_TEN))
            } else {
                None
            };
            Some(HealthBar { health, text_size_bits })
        } else {
            None
        }
    }

    /// The tracer drawn to a player `distance` away, when tracers are on. A
    /// tracer to the mouse is drawn only while the pointer is over the
    /// overlay (`pointer_present`).
    pub fn tracer(&mut self, distance: u32, pointer_present: bool) -> (r: Option<Tracer>)
        requires
            old(self).wf(),
        ensures
            final(self).wf(),
            final(self).same_menu(old(self)),
            tracer_reads(settings_of(*old(self)), distance, pointer_present) == (r, settings_of(*final(self))),
    {
        if !self.flag("esp_tracers_enabled", false) {
            return None;
        }
        let fixed = self.color("esp_tracers_color", white_exec());
        let color = if self.flag("esp_tracers_distance_based", false) {
            let max_distance = if self.flag("esp_distance_limited", false) {
                self.count("esp_distance_limit", 1000)
            } else {
                DEFAULT_MAX_DISTANCE
            };
            let shade_distance = if distance == 0 { 1 } else { distance };
            TracerColor::ByDistance { max_distance, distance: shade_distance }
        } else {
            TracerColor::Fixed(fixed)
        };
        let anchor = tracer_anchor(self.choice("esp_tracers_type", 0));
        if anchor == TracerAnchor::Mouse && !pointer_present {
            None
        } else {
            Some(Tracer { anchor, color })
        }
    }

    /// What is drawn for a player `distance` away whose box is on the
    /// screen, reading the settings in the overlay's order.
    pub fn player_drawing(&mut self, distance: u32, pointer_present: bool) -> (r: PlayerDrawing)
        requires
            old(self).wf(),
        ensures
            final(self).wf(),
            final(self).same_menu(old(self)),
            player_drawing_reads(settings_of(*old(self)), distance, pointer_present) == (r, settings_of(*final(self))),
            r.color == value_or(old(self).color_map.view(), "esp_color"@, white()),
    {
        let color = self.esp_color();
        let tracer = self.tracer(distance, pointer_present);
        let esp_box = self.esp_box();
        let health_bar = self.health_bar();
        let distance_text = self.distance_text();
        let name_text = self.name_text();
        PlayerDrawing { color, tracer, esp_box, health_bar, distance_text, name_text }
    }

    /// The aim circle around the pointer: drawn while the pointer is over the
    /// overlay, the aimbot and its field of view are on, and the circle is
    /// not hidden. A filled circle's outline starts one pixel wide, an empty
    /// one's one and a half.
    pub fn fov_circle(&mut self, pointer_present: bool) -> (r: Option<FovCircle>)
        requires
            old(self).wf(),
        ensures
            final(self).wf(),
            final(self).same_menu(old(self)),
            final(self).usize_map == old(self).usize_map,
            !pointer_present ==> r is None && final(self).bool_map == old(self).bool_map
                && final(self).u32_map == old(self).u32_map && final(self).f32_map == old(self).f32_map
                && final(self).color_map == old(self).color_map,
            fov_circle_reads(settings_of(*old(self)), pointer_present) == (r, settings_of(*final(self))),
            pointer_present ==> ({
                let b0 = old(self).bool_map.view();
                let u0 = old(self).u32_map.view();
                let f0 = old(self).f32_map.view();
                let c0 = old(self).color_map.view();
                let hide = value_or(b0, "aimbot_hide_fov"@, false);
                let b1 = touched(b0, "aimbot_hide_fov"@, false);
                let fov = value_or(b1, "aimbot_fov_enabled"@, false);
                let b2 = touched(b1, "aimbot_fov_enabled"@, false);
                let aim = value_or(b2, "aimbot_enabled"@, false);
                let b3 = touched(b2, "aimbot_enabled"@, false);
                let color = value_or(c0, "aimbot_fov_color"@, white());
                let x_offset_bits = value_or(f0, "aimbot_xoffset"@, F32_ZERO);
                let f1 = touched(f0, "aimbot_xoffset"@, F32_ZERO);
                let y_offset_bits = value_or(f1, "aimbot_yoffset"@, F32_ZERO);
                let f2 = touched(f1, "aimbot_yoffset"@, F32_ZERO);
                let filled = value_or(b3, "fov_circle_filled"@, false);
                let radius = value_or(u0, "aimbot_fov_value"@, 100u32);
                let width = if filled { F32_ONE } else { F32_ONE_AND_A_HALF };
                let thickness_bits = value_or(f2, "fov_circle_thickness"@, width);
                let unchanged_rest = final(self).u32_map == old(self).u32_map
                    && final(self).f32_map == old(self).f32_map && final(self).color_map == old(self).color_map;
                &&& hide ==> r is None && final(self).bool_map.view() == b1 && unchanged_rest
                &&& !hide && !fov ==> r is None && final(self).bool_map.view() == b2 && unchanged_rest
                &&& !hide && fov && !aim ==> r is None && final(self).bool_map.view() == b3 && unchanged_rest
                &&& !hide && fov && aim ==> {
                    &&& r == Some(FovCircle { color, x_offset_bits, y_offset_bits, filled, radius, thickness_bits })
                    &&& final(self).bool_map.view() == touched(b3, "fov_circle_filled"@, false)
                    &&& final(self).u32_map.view() == touched(u0, "aimbot_fov_value"@, 100u32)
                    &&& final(self).f32_map.view() == touched(f2, "fov_circle_thickness"@, width)
                    &&& final(self).color_map.view() == touched(c0, "aimbot_fov_color"@, white())
                }
            }),
    {
        if !pointer_present {
            return None;
        }
        if !self.flag("aimbot_hide_fov", false) && self.flag("aimbot_fov_enabled", false) && self.flag(
            "aimbot_enabled",
            false,
        ) {
            let color = self.color("aimbot_fov_color", white_exec());
            let x_offset_bits = self.float_bits("aimbot_xoffset", F32_ZERO);
            let y_offset_bits = self.float_bits("aimbot_yoffset", F32_ZERO);
            let filled = self.flag("fov_circle_filled", false);
            let radius = self.count("aimbot_fov_value", 100);
            let width = if filled { F32_ONE } else { F32_ONE_AND_A_HALF };
            let thickness_bits = self.float_bits("fov_circle_thickness", width);
            Some(FovCircle { color, x_offset_bits, y_offset_bits, filled, radius, thickness_bits })
        } else {
            None
        }
    }
}

} // verus!
