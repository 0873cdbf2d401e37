//! The menu's panels and its settings frame: which controls they show, which
//! are enabled, and the values and choices they display.
//!
//! Showing a control reads its setting with the control's default, so the
//! panels, like the overlay, store a default the first time a setting is
//! shown. Each panel reads its settings in the order its controls come.
use vstd::prelude::*;
use crate::menu::choice_names;
use crate::menu::lemma_setting_names_differ;
use crate::menu::white;
use crate::menu::white_exec;
use crate::menu::Choices;
use crate::menu::Lock;
use crate::menu::Rgba;
use crate::menu::F32_ONE;
use crate::menu::F32_TEN;
use crate::menu::F32_ZERO;
use crate::settings::touched;
use crate::settings::SettingMap;
use crate::settings::value_or;

verus! {

/// The stored choices of the aimbot panel's drop-downs (smoothing curve,
/// target priority, aim part) are entries of their lists; a drop-down cannot
/// be drawn for a choice its list does not have.
pub open spec fn aimbot_choices_in_range(z: Map<Seq<char>, usize>) -> bool {
    &&& value_or(z, "aimbot_smoothness_type"@, 0usize) < choice_names(Choices::Smoothness).len()
    &&& value_or(z, "aimbot_type"@, 0usize) < choice_names(Choices::TargetPriority).len()
    &&& value_or(z, "aimbot_aimpart"@, 0usize) < choice_names(Choices::AimPart).len()
}

/// The stored choices of the player box panel's drop-downs (box type, tracer
/// type) are entries of their lists.
pub open spec fn esp_choices_in_range(z: Map<Seq<char>, usize>) -> bool {
    &&& value_or(z, "esp_type"@, 1usize) < choice_names(Choices::EspType).len()
    &&& value_or(z, "esp_tracers_type"@, 0usize) < choice_names(Choices::TracerType).len()
}

/// The choice stored under `key`, or `default` when none is; unlike showing
/// the drop-down, this stores nothing.
fn stored_choice(choices: &SettingMap<usize>, key: &str, default: usize) -> (r: usize)
    requires
        choices.wf(),
    ensures
        r == value_or(choices.view(), key@, default),
{
    match choices.get(key) {
        Some(index) => index,
        None => default,
    }
}

/// The three aim checks, shown while the aimbot is on.
#[derive(PartialEq, Eq, Structural, Clone, Copy, Debug)]
pub struct AimChecks {
    pub teamcheck: bool,
    pub wallcheck: bool,
    pub sticky_aim: bool,
}

/// The aimbot panel. The controls after the "Aimbot Enabled" switch are
/// enabled only while the aimbot is on.
#[derive(PartialEq, Eq, Structural, Clone, Copy, Debug)]
pub struct AimbotPanel {
    /// Whether the info marks with tooltips are shown.
    pub tooltips: bool,
    pub enabled: bool,
    pub x_offset_bits: u32,
    pub y_offset_bits: u32,
    /// Shown only while the aimbot is on.
    pub checks: Option<AimChecks>,
    pub range_enabled: bool,
    pub range: u32,
    pub fov_enabled: bool,
    pub fov_value: u32,
    pub hide_fov: bool,
    /// The circle's colour button is enabled unless the circle is hidden.
    pub fov_color_enabled: bool,
    pub fov_color: Rgba,
    pub triggerbot: bool,
    pub triggerbot_delay: u32,
    pub smoothness: u32,
    /// The smoothing curve can be chosen only with some smoothing.
    pub smoothness_type_enabled: bool,
    pub smoothness_type: usize,
    pub prediction: u32,
    pub target_priority: usize,
    pub aim_part: usize,
}

/// The team options, shown while the team check is on.
#[derive(PartialEq, Eq, Structural, Clone, Copy, Debug)]
pub struct TeamOptions {
    pub hide_team: bool,
    pub show_team_names: bool,
    pub team_based_color: bool,
}

/// The labels shown on boxes, offered while boxes are on.
#[derive(PartialEq, Eq, Structural, Clone, Copy, Debug)]
pub struct LabelOptions {
    pub names: bool,
    pub distance: bool,
}

/// The player box panel. The controls after the "ESP Enabled" switch are
/// enabled only while boxes are on.
#[derive(PartialEq, Eq, Structural, Clone, Copy, Debug)]
pub struct EspPanel {
    pub enabled: bool,
    /// The box colour button is enabled unless colours follow the teams.
    pub color_enabled: bool,
    pub color: Rgba,
    pub box_type: usize,
    pub labels: Option<LabelOptions>,
    pub teamcheck: bool,
    pub team: Option<TeamOptions>,
    pub wallcheck: bool,
    pub tracers: bool,
    pub tracers_distance_based: bool,
    /// The tracer colour button is enabled unless tracers are shaded by distance.
    pub tracer_color_enabled: bool,
    pub tracer_color: Rgba,
    pub tracer_type: usize,
    pub show_health: bool,
    pub health_bar: bool,
    pub health_text: bool,
    pub distance_limited: bool,
    pub distance_limit: u32,
}

/// The miscellaneous panel.
#[derive(PartialEq, Eq, Structural, Clone, Copy, Debug)]
pub struct MiscPanel {
    pub tooltip: bool,
    pub unlock_fps: bool,
    /// The frame rate slider is enabled only while the cap is lifted.
    pub fps_slider_enabled: bool,
    pub fps_limit: i32,
}

/// The settings frame.
#[derive(PartialEq, Eq, Structural, Clone, Copy, Debug)]
pub struct SettingsFrame {
    pub tooltips: bool,
    pub light_theme: bool,
    pub esp_text_size_bits: u32,
    pub box_filled: bool,
    pub fov_thickness_bits: u32,
    pub fov_filled: bool,
}

/// The aimbot panel shown from settings `b`, `u`, `z`, `f`, `c` (switches,
/// whole numbers, choices, `f32` bits, colours), and those settings after it
/// is shown.
pub open spec fn aimbot_panel_reads(
    tooltips: bool,
    b: Map<Seq<char>, bool>,
    u: Map<Seq<char>, u32>,
    z: Map<Seq<char>, usize>,
    f: Map<Seq<char>, u32>,
    c: Map<Seq<char>, Rgba>,
) -> (AimbotPanel, Map<Seq<char>, bool>, Map<Seq<char>, u32>, Map<Seq<char>, usize>, Map<Seq<char>, u32>, Map<Seq<char>, Rgba>) {
    let enabled = value_or(b, "aimbot_enabled"@, false);
    let b1 = touched(b, "aimbot_enabled"@, false);
    let x_offset_bits = value_or(f, "aimbot_xoffset"@, F32_ZERO);
    let f1 = touched(f, "aimbot_xoffset"@, F32_ZERO);
    let y_offset_bits = value_or(f1, "aimbot_yoffset"@, F32_ZERO);
    let f2 = touched(f1, "aimbot_yoffset"@, F32_ZERO);
    let teamcheck = value_or(b1, "aimbot_teamcheck"@, false);
    let bt = touched(b1, "aimbot_teamcheck"@, false);
    let wallcheck = value_or(bt, "aimbot_wallcheck"@, false);
    let bw = touched(bt, "aimbot_wallcheck"@, false);
    let sticky_aim = value_or(bw, "aimbot_stickyaim"@, false);
    let bs = touched(bw, "aimbot_stickyaim"@, false);
    let checks = if enabled { Some(AimChecks { teamcheck, wallcheck, sticky_aim }) } else { None };
    let b2 = if enabled { bs } else { b1 };
    let range_enabled = value_or(b2, "aimbot_range_enabled"@, false);
    let b3 = touched(b2, "aimbot_range_enabled"@, false);
    let range = value_or(u, "aimbot_range"@, 1000u32);
    let u1 = touched(u, "aimbot_range"@, 1000u32);
    let fov_enabled = value_or(b3, "aimbot_fov_enabled"@, false);
    let b4 = touched(b3, "aimbot_fov_enabled"@, false);
    let fov_value = value_or(u1, "aimbot_fov_value"@, 100u32);
    let u2 = touched(u1, "aimbot_fov_value"@, 100u32);
    let hide_fov = value_or(b4, "aimbot_hide_fov"@, false);
    let b5 = touched(b4, "aimbot_hide_fov"@, false);
    let fov_color = value_or(c, "aimbot_fov_color"@, white());
    let c1 = touched(c, "aimbot_fov_color"@, white());
    let triggerbot = value_or(b5, "aimbot_triggerbot"@, false);
    let b6 = touched(b5, "aimbot_triggerbot"@, false);
    let triggerbot_delay = value_or(u2, "aimbot_triggerbot_delay"@, 0u32);
    let u3 = touched(u2, "aimbot_triggerbot_delay"@, 0u32);
    let smoothness = value_or(u3, "aimbot_smoothness"@, 0u32);
    let u4 = touched(u3, "aimbot_smoothness"@, 0u32);
    let smoothness_type = value_or(z, "aimbot_smoothness_type"@, 0usize);
    let z1 = touched(z, "aimbot_smoothness_type"@, 0usize);
    let prediction = value_or(u4, "aimbot_prediction"@, 0u32);
    let u5 = touched(u4, "aimbot_prediction"@, 0u32);
    let target_priority = value_or(z1, "aimbot_type"@, 0usize);
    let z2 = touched(z1, "aimbot_type"@, 0usize);
    let aim_part = value_or(z2, "aimbot_aimpart"@, 0usize);
    let z3 = touched(z2, "aimbot_aimpart"@, 0usize);
    (
        AimbotPanel {
            tooltips,
            enabled,
            x_offset_bits,
            y_offset_bits,
            checks,
            range_enabled,
            range,
            fov_enabled,
            fov_value,
            hide_fov,
            fov_color_enabled: !hide_fov,
            fov_color,
            triggerbot,
            triggerbot_delay,
            smoothness,
            smoothness_type_enabled: smoothness > 0,
            smoothness_type: smoothness_type,
            prediction,
            target_priority: target_priority,
            aim_part: aim_part,
        },
        b6,
        u5,
        z3,
        f2,
        c1,
    )
}

/// The player box panel shown from settings `b`, `u`, `z`, `c` (switches,
/// whole numbers, choices, colours), and those settings after it is shown.
pub open spec fn esp_panel_reads(
    b: Map<Seq<char>, bool>,
    u: Map<Seq<char>, u32>,
    z: Map<Seq<char>, usize>,
    c: Map<Seq<char>, Rgba>,
) -> (EspPanel, Map<Seq<char>, bool>, Map<Seq<char>, u32>, Map<Seq<char>, usize>, Map<Seq<char>, Rgba>) {
    let enabled = value_or(b, "esp_enabled"@, false);
    let b1 = touched(b, "esp_enabled"@, false);
    let team_colors = value_or(b1, "esp_team_based_color"@, false);
    let b2 = touched(b1, "esp_team_based_color"@, false);
    let color = value_or(c, "esp_color"@, white());
    let c1 = touched(c, "esp_color"@, white());
    let box_type = value_or(z, "esp_type"@, 1usize);
    let z1 = touched(z, "esp_type"@, 1usize);
    let names = value_or(b2, "esp_names"@, false);
    let bn = touched(b2, "esp_names"@, false);
    let distance = value_or(bn, "esp_distance"@, false);
    let bd = touched(bn, "esp_distance"@, false);
    let labels = if enabled { Some(LabelOptions { names, distance }) } else { None };
    let b3 = if enabled { bd } else { b2 };
    let teamcheck = value_or(b3, "esp_teamcheck"@, false);
    let b4 = touched(b3, "esp_teamcheck"@, false);
    let hide_team = value_or(b4, "esp_hide_team"@, false);
    let bh = touched(b4, "esp_hide_team"@, false);
    let show_team_names = value_or(bh, "show_team_names"@, false);
    let bsn = touched(bh, "show_team_names"@, false);
    let team_based_color = value_or(bsn, "esp_team_based_color"@, false);
    let btc = touched(bsn, "esp_team_based_color"@, false);
    let team = if teamcheck { Some(TeamOptions { hide_team, show_team_names, team_based_color }) } else { None };
    let b5 = if teamcheck { btc } else { b4 };
    let wallcheck = value_or(b5, "esp_wallcheck_enabled"@, false);
    let b6 = touched(b5, "esp_wallcheck_enabled"@, false);
    let tracers = value_or(b6, "esp_tracers_enabled"@, false);
    let b7 = touched(b6, "esp_tracers_enabled"@, false);
    let by_distance = value_or(b7, "esp_tracers_distance_based"@, false);
    let b8 = touched(b7, "esp_tracers_distance_based"@, false);
    let tracer_color = value_or(c1, "esp_tracers_color"@, white());
    let c2 = touched(c1, "esp_tracers_color"@, white());
    let tracer_type = value_or(z1, "esp_tracers_type"@, 0usize);
    let z2 = touched(z1, "esp_tracers_type"@, 0usize);
    let show_health = value_or(b8, "esp_show_health"@, false);
    let b9 = touched(b8, "esp_show_health"@, false);
    let health_bar = value_or(b9, "esp_health_bar"@, false);
    let b10 = touched(b9, "esp_health_bar"@, false);
    let health_text = value_or(b10, "esp_health_text"@, false);
    let b11 = touched(b10, "esp_health_text"@, false);
    let distance_limited = value_or(b11, "esp_distance_limited"@, false);
    let b12 = touched(b11, "esp_distance_limited"@, false);
    let distance_limit = value_or(u, "esp_distance_limit"@, 1000u32);
    let u1 = touched(u, "esp_distance_limit"@, 1000u32);
    (
        EspPanel {
            enabled,
            color_enabled: !team_colors,
            color,
            box_type: box_type,
            labels,
            teamcheck,
            team,
            wallcheck,
            tracers,
            tracers_distance_based: by_distance,
            tracer_color_enabled: !by_distance,
            tracer_color,
            tracer_type: tracer_type,
            show_health,
            health_bar,
            health_text,
            distance_limited,
            distance_limit,
        },
        b12,
        u1,
        z2,
        c2,
    )
}

/// The settings frame shown from switches `b` and `f32` bits `f`, and those
/// settings after it is shown.
pub open spec fn settings_frame_reads(
    tooltips: bool,
    light_theme: bool,
    b: Map<Seq<char>, bool>,
    f: Map<Seq<char>, u32>,
) -> (SettingsFrame, Map<Seq<char>, bool>, Map<Seq<char>, u32>) {
    let esp_text_size_bits = value_or(f, "esp_text_size"@, F32_TEN);
    let f1 = touched(f, "esp_text_size"@, F32_TEN);
    let box_filled = value_or(b, "esp_box_filled"@, false);
    let b1 = touched(b, "esp_box_filled"@, false);
    let fov_thickness_bits = value_or(f1, "fov_circle_thickness"@, F32_ONE);
    let f2 = touched(f1, "fov_circle_thickness"@, F32_ONE);
    let fov_filled = value_or(b1, "fov_circle_filled"@, false);
    let b2 = touched(b1, "fov_circle_filled"@, false);
    (
        SettingsFrame { tooltips, light_theme, esp_text_size_bits, box_filled, fov_thickness_bits, fov_filled },
        b2,
        f2,
    )
}

/// Every control of the aimbot panel shows the setting stored under its
/// own name, or the control's default when that name was never set: the
/// offsets under "aimbot_xoffset" and "aimbot_yoffset", the aim checks
/// (only while the aimbot is on) under theirs, and so on.
pub proof fn law_aimbot_panel_shows_each_setting(
    tooltips: bool,
    b: Map<Seq<char>, bool>,
    u: Map<Seq<char>, u32>,
    z: Map<Seq<char>, usize>,
    f: Map<Seq<char>, u32>,
    c: Map<Seq<char>, Rgba>,
)
    ensures
        ({
            let r = aimbot_panel_reads(tooltips, b, u, z, f, c).0;
            let enabled = value_or(b, "aimbot_enabled"@, false);
            &&& r.tooltips == tooltips
            &&& r.enabled == enabled
            &&& r.x_offset_bits == value_or(f, "aimbot_xoffset"@, F32_ZERO)
            &&& r.y_offset_bits == value_or(f, "aimbot_yoffset"@, F32_ZERO)
            &&& r.checks == (if enabled {
                Some(
                    AimChecks {
                        teamcheck: value_or(b, "aimbot_teamcheck"@, false),
                        wallcheck: value_or(b, "aimbot_wallcheck"@, false),
                        sticky_aim: value_or(b, "aimbot_stickyaim"@, false),
                    },
                )
            } else {
                None
            })
            &&& r.range_enabled == value_or(b, "aimbot_range_enabled"@, false)
            &&& r.range == value_or(u, "aimbot_range"@, 1000u32)
            &&& r.fov_enabled == value_or(b, "aimbot_fov_enabled"@, false)
            &&& r.fov_value == value_or(u, "aimbot_fov_value"@, 100u32)
            &&& r.hide_fov == value_or(b, "aimbot_hide_fov"@, false)
            &&& r.fov_color_enabled == !value_or(b, "aimbot_hide_fov"@, false)
            &&& r.fov_color == value_or(c, "aimbot_fov_color"@, white())
            &&& r.triggerbot == value_or(b, "aimbot_triggerbot"@, false)
            &&& r.triggerbot_delay == value_or(u, "aimbot_triggerbot_delay"@, 0u32)
            &&& r.smoothness == value_or(u, "aimbot_smoothness"@, 0u32)
            &&& r.smoothness_type_enabled == (value_or(u, "aimbot_smoothness"@, 0u32) > 0)
            &&& r.smoothness_type == value_or(z, "aimbot_smoothness_type"@, 0usize)
            &&& r.prediction == value_or(u, "aimbot_prediction"@, 0u32)
            &&& r.target_priority == value_or(z, "aimbot_type"@, 0usize)
            &&& r.aim_part == value_or(z, "aimbot_aimpart"@, 0usize)
        }),
{
    lemma_setting_names_differ();
}

/// Every control of the player box panel shows the setting stored under its
/// own name, or the control's default when that name was never set: the
/// label switches (only while boxes are on) under "esp_names" and
/// "esp_distance", the team options (only while the team check is on) under
/// theirs, and so on.
pub proof fn law_esp_panel_shows_each_setting(
    b: Map<Seq<char>, bool>,
    u: Map<Seq<char>, u32>,
    z: Map<Seq<char>, usize>,
    c: Map<Seq<char>, Rgba>,
)
    ensures
        ({
            let r = esp_panel_reads(b, u, z, c).0;
            let enabled = value_or(b, "esp_enabled"@, false);
            let teamcheck = value_or(b, "esp_teamcheck"@, false);
            let by_distance = value_or(b, "esp_tracers_distance_based"@, false);
            &&& r.enabled == enabled
            &&& r.color_enabled == !value_or(b, "esp_team_based_color"@, false)
            &&& r.color == value_or(c, "esp_color"@, white())
            &&& r.box_type == value_or(z, "esp_type"@, 1usize)
            &&& r.labels == (if enabled {
                Some(
                    LabelOptions {
                        names: value_or(b, "esp_names"@, false),
                        distance: value_or(b, "esp_distance"@, false),
                    },
                )
            } else {
                None
            })
            &&& r.teamcheck == teamcheck
            &&& r.team == (if teamcheck {
                Some(
                    TeamOptions {
                        hide_team: value_or(b, "esp_hide_team"@, false),
                        show_team_names: value_or(b, "show_team_names"@, false),
                        team_based_color: value_or(b, "esp_team_based_color"@, false),
                    },
                )
            } else {
                None
            })
            &&& r.wallcheck == value_or(b, "esp_wallcheck_enabled"@, false)
            &&& r.tracers == value_or(b, "esp_tracers_enabled"@, false)
            &&& r.tracers_distance_based == by_distance
            &&& r.tracer_color_enabled == !by_distance
            &&& r.tracer_color == value_or(c, "esp_tracers_color"@, white())
            &&& r.tracer_type == value_or(z, "esp_tracers_type"@, 0usize)
            &&& r.show_health == value_or(b, "esp_show_health"@, false)
            &&& r.health_bar == value_or(b, "esp_health_bar"@, false)
            &&& r.health_text == value_or(b, "esp_health_text"@, false)
            &&& r.distance_limited == value_or(b, "esp_distance_limited"@, false)
            &&& r.distance_limit == value_or(u, "esp_distance_limit"@, 1000u32)
        }),
{
    lemma_setting_names_differ();
}

/// The settings frame shows the text size stored under "esp_text_size"
/// (10.0 when never set), the box fill under "esp_box_filled", the circle's
/// outline width under "fov_circle_thickness" (1.0 when never set) and the
/// circle's fill under "fov_circle_filled".
pub proof fn law_settings_frame_shows_each_setting(
    tooltips: bool,
    light_theme: bool,
    b: Map<Seq<char>, bool>,
    f: Map<Seq<char>, u32>,
)
    ensures
        ({
            let r = settings_frame_reads(tooltips, light_theme, b, f).0;
            &&& r.tooltips == tooltips
            &&& r.light_theme == light_theme
            &&& r.esp_text_size_bits == value_or(f, "esp_text_size"@, F32_TEN)
            &&& r.box_filled == value_or(b, "esp_box_filled"@, false)
            &&& r.fov_thickness_bits == value_or(f, "fov_circle_thickness"@, F32_ONE)
            &&& r.fov_filled == value_or(b, "fov_circle_filled"@, false)
        }),
{
    lemma_setting_names_differ();
}

impl Lock {
    /// Whether the aimbot panel can be drawn: its stored choices are entries
    /// of their lists.
    pub fn aimbot_choices_fit(&self) -> (r: bool)
        requires
            self.wf(),
        ensures
            r == aimbot_choices_in_range(self.usize_map.view()),
    {
        let smoothness_type = stored_choice(&self.usize_map, "aimbot_smoothness_type", 0);
        let target_priority = stored_choice(&self.usize_map, "aimbot_type", 0);
        let aim_part = stored_choice(&self.usize_map, "aimbot_aimpart", 0);
        proof {
            reveal_strlit("Linear");
            reveal_strlit("Ease in");
            reveal_strlit("Ease out");
            reveal_strlit("Smooth");
            reveal_strlit("Distance");
            reveal_strlit("Cursor");
            reveal_strlit("Head");
            reveal_strlit("Torso");
        }
        smoothness_type < 4 && target_priority < 2 && aim_part < 2
    }

    /// Whether the player box panel can be drawn: its stored choices are
    /// entries of their lists.
    pub fn esp_choices_fit(&self) -> (r: bool)
        requires
            self.wf(),
        ensures
            r == esp_choices_in_range(self.usize_map.view()),
    {
        let box_type = stored_choice(&self.usize_map, "esp_type", 1);
        let tracer_type = stored_choice(&self.usize_map, "esp_tracers_type", 0);
        box_type < 4 && tracer_type < 5
    }

    /// The aimbot panel, storing the defaults of the settings it shows for
    /// the first time. Its drop-downs show the stored choices, which must be
    /// entries of their lists.
    pub fn aimbot_panel(&mut self) -> (r: AimbotPanel)
        requires
            old(self).wf(),
            aimbot_choices_in_range(old(self).usize_map.view()),
        ensures
            final(self).wf(),
            final(self).same_menu(old(self)),
            aimbot_panel_reads(
                old(self).window_tooltips_enabled,
                old(self).bool_map.view(),
                old(self).u32_map.view(),
                old(self).usize_map.view(),
                old(self).f32_map.view(),
                old(self).color_map.view(),
            ) == (
                r,
                final(self).bool_map.view(),
                final(self).u32_map.view(),
                final(self).usize_map.view(),
                final(self).f32_map.view(),
                final(self).color_map.view(),
            ),
    {
        let tooltips = self.window_tooltips_enabled;
        let enabled = self.flag("aimbot_enabled", false);
        let x_offset_bits = self.float_bits("aimbot_xoffset", F32_ZERO);
        let y_offset_bits = self.float_bits("aimbot_yoffset", F32_ZERO);
        let checks = if enabled {
            let teamcheck = self.flag("aimbot_teamcheck", false);
            let wallcheck = self.flag("aimbot_wallcheck", false);
            let sticky_aim = self.flag("aimbot_stickyaim", false);
            Some(AimChecks { teamcheck, wallcheck, sticky_aim })
        } else {
            None
        };
        let range_enabled = self.flag("aimbot_range_enabled", false);
        let range = self.count("aimbot_range", 1000);
        let fov_enabled = self.flag("aimbot_fov_enabled", false);
        let fov_value = self.count("aimbot_fov_value", 100);
        let hide_fov = self.flag("aimbot_hide_fov", false);
        let fov_color = self.color("aimbot_fov_color", white_exec());
        let triggerbot = self.flag("aimbot_triggerbot", false);
        let triggerbot_delay = self.count("aimbot_triggerbot_delay", 0);
        let smoothness = self.count("aimbot_smoothness", 0);
        let smoothness_type = self.choice("aimbot_smoothness_type", 0);
        let prediction = self.count("aimbot_prediction", 0);
        let target_priority = self.choice("aimbot_type", 0);
        let aim_part = self.choice("aimbot_aimpart", 0);
        AimbotPanel {
            tooltips,
            enabled,
            x_offset_bits,
            y_offset_bits,
            checks,
            range_enabled,
            range,
            fov_enabled,
            fov_value,
            hide_fov,
            fov_color_enabled: !hide_fov,
            fov_color,
            triggerbot,
            triggerbot_delay,
            smoothness,
            smoothness_type_enabled: smoothness > 0,
            smoothness_type: smoothness_type,
            prediction,
            target_priority: target_priority,
            aim_part: aim_part,
        }
    }

    /// The player box panel, storing the defaults of the settings it shows
    /// for the first time. Its drop-downs show the stored choices, which must
    /// be entries of their lists.
    #[verifier::spinoff_prover]
    #[verifier::rlimit(80)]
    pub fn esp_panel(&mut self) -> (r: EspPanel)
        requires
            old(self).wf(),
            esp_choices_in_range(old(self).usize_map.view()),
        ensures
            final(self).wf(),
            final(self).same_menu(old(self)),
            final(self).f32_map == old(self).f32_map,
            esp_panel_reads(
                old(self).bool_map.view(),
                old(self).u32_map.view(),
                old(self).usize_map.view(),
                old(self).color_map.view(),
            ) == (
                r,
                final(self).bool_map.view(),
                final(self).u32_map.view(),
                final(self).usize_map.view(),
                final(self).color_map.view(),
            ),
    {
        let enabled = self.flag("esp_enabled", false);
        let team_colors = self.flag("esp_team_based_color", false);
        let color = self.color("esp_color", white_exec());
        let box_type = self.choice("esp_type", 1);
        let labels = if enabled {
            let names = self.flag("esp_names", false);
            let distance = self.flag("esp_distance", false);
            Some(LabelOptions { names, distance })
        } else {
            None
        };
        let teamcheck = self.flag("esp_teamcheck", false);
        let team = if teamcheck {
            let hide_team = self.flag("esp_hide_team", false);
            let show_team_names = self.flag("show_team_names", false);
            let team_based_color = self.flag("esp_team_based_color", false);
            Some(TeamOptions { hide_team, show_team_names, team_based_color })
        } else {
            None
        };
        let wallcheck = self.flag("esp_wallcheck_enabled", false);
        let tracers = self.flag("esp_tracers_enabled", false);
        let by_distance = self.flag("esp_tracers_distance_based", false);
        let tracer_color = self.color("esp_tracers_color", white_exec());
        let tracer_type = self.choice("esp_tracers_type", 0);
        let show_health = self.flag("esp_show_health", false);
        let health_bar = self.flag("esp_health_bar", false);
        let health_text = self.flag("esp_health_text", false);
        let distance_limited = self.flag("esp_distance_limited", false);
        let distance_limit = self.count("esp_distance_limit", 1000);
        EspPanel {
            enabled,
            color_enabled: !team_colors,
            color,
            box_type: box_type,
            labels,
            teamcheck,
            team,
            wallcheck,
            tracers,
            tracers_distance_based: by_distance,
            tracer_color_enabled: !by_distance,
            tracer_color,
            tracer_type: tracer_type,
            show_health,
            health_bar,
            health_text,
            distance_limited,
            distance_limit,
        }
    }

    /// The miscellaneous panel: the frame rate cap switch and its slider.
    pub fn misc_panel(&self) -> (r: MiscPanel)
        ensures
            r.tooltip == self.window_tooltips_enabled,
            r.unlock_fps == self.unlock_fps,
            r.fps_slider_enabled == self.unlock_fps,
            r.fps_limit == self.fps_limit,
    {
        MiscPanel {
            tooltip: self.window_tooltips_enabled,
            unlock_fps: self.unlock_fps,
            fps_slider_enabled: self.unlock_fps,
            fps_limit: self.fps_limit,
        }
    }

    /// The settings frame, storing the defaults of the settings it shows for
    /// the first time.
    pub fn settings_frame(&mut self) -> (r: SettingsFrame)
        requires
            old(self).wf(),
        ensures
            final(self).wf(),
            final(self).same_menu(old(self)),
            final(self).u32_map == old(self).u32_map,
            final(self).usize_map == old(self).usize_map,
            final(self).color_map == old(self).color_map,
            settings_frame_reads(
                old(self).window_tooltips_enabled,
                old(self).window_theme,
                old(self).bool_map.view(),
                old(self).f32_map.view(),
            ) == (r, final(self).bool_map.view(), final(self).f32_map.view()),
    {
        let tooltips = self.window_tooltips_enabled;
        let light_theme = self.window_theme;
        let esp_text_size_bits = self.float_bits("esp_text_size", F32_TEN);
        let box_filled = self.flag("esp_box_filled", false);
        let fov_thickness_bits = self.float_bits("fov_circle_thickness", F32_ONE);
        let fov_filled = self.flag("fov_circle_filled", false);
        SettingsFrame { tooltips, light_theme, esp_text_size_bits, box_filled, fov_thickness_bits, fov_filled }
    }
}

} // verus!
