use lock_rs::layout::datamodel_from_slot;
use lock_rs::layout::job_name_slot;
use lock_rs::layout::jobs_begin_slot;
use lock_rs::layout::jobs_end_slot;
use lock_rs::layout::rbxfunctions;
use lock_rs::layout::rebase_adress;
use lock_rs::layout::render_view_slot;
use lock_rs::layout::screen_dimension_slots;
use lock_rs::layout::visual_engine_slot;
use lock_rs::layout::Addresses;
use lock_rs::layout::Offsets;

#[test]
fn default_offsets_match_the_game_build() {
    let o = Offsets::default();
    assert_eq!(o.waitscriptdata, 0x28);
    assert_eq!(o.parent_addon, 0x38);
    assert_eq!(o.name_addon, 0x2c);
    assert_eq!(o.children_start, 0x30);
    assert_eq!(o.children_end, 0x4);
    assert_eq!(o.character, 0x80);
    assert_eq!(o.def_start, 0xc);
    assert_eq!(o.class_name, 0x4);
    assert_eq!(o.primitive, 0xc4);
    assert_eq!(o.position, 0xfc);
    assert_eq!(o.roblox_printaddy, 0x10e1c00);
    assert_eq!(o.task_scheduler, 0xb26840);
    assert_eq!(o.viewmatrix, 0x170);
    assert_eq!(o.fireprox, 0x146ea30);
}

#[test]
fn rebasing_moves_from_the_image_base_to_the_module_base() {
    assert_eq!(rebase_adress(0x0040_1000, 0x1000_0000), 0x1000_1000);
    assert_eq!(rebase_adress(0x0040_0000, 0), 0);
    let o = Offsets::default();
    assert_eq!(o.task_scheduler_function(0x0040_0000), 0xb26840);
    assert_eq!(o.task_scheduler_function(0x0100_0000), 0xb26840 - 0x0040_0000 + 0x0100_0000);
    assert_eq!(o.fireprox_function(0x0200_0000), 0x146ea30 - 0x0040_0000 + 0x0200_0000);
    assert_eq!(o.print_function(0x0200_0000), 0x10e1c00 - 0x0040_0000 + 0x0200_0000);
    assert_eq!(o.with_base_adress(0x20, 0x1000), 0x1020);
}

#[test]
fn field_slots_add_the_offsets() {
    let o = Offsets::default();
    assert_eq!(o.parent_slot(0x1000), 0x1038);
    assert_eq!(o.character_slot(0x1000), 0x1080);
    assert_eq!(o.name_slot(0x1000), 0x102c);
    assert_eq!(o.class_descriptor_slot(0x1000), 0x100c);
    assert_eq!(o.class_name_slot(0x2000), 0x2004);
    assert_eq!(o.primitive_slot(0x1000), 0x10c4);
    assert_eq!(o.datamodel_slot(0x3000), 0x3028);
    assert_eq!(o.view_matrix_slot(0x4000), 0x4170);
    assert_eq!(o.children_end_slot(0x5000), 0x5004);
    assert_eq!(datamodel_from_slot(0x7000), 0x7004);
    assert_eq!(jobs_begin_slot(0x8000), 0x8134);
    assert_eq!(jobs_end_slot(0x8000), 0x8138);
    assert_eq!(job_name_slot(0x9000), 0x9010);
    assert_eq!(render_view_slot(0xa000), 0xa148);
    assert_eq!(visual_engine_slot(0xb000), 0xb008);
    assert_eq!(screen_dimension_slots(0xc000), (0xc6fc, 0xc700));
    assert_eq!(rbxfunctions { address: 0xd000 }.name_slot(), 0xd004);
}

#[test]
fn position_is_read_only_from_a_live_primitive() {
    let o = Offsets::default();
    assert_eq!(o.position_source(0x2000, 7), Some(0x20fc));
    assert_eq!(o.position_source(0x2000, -1), Some(0x20fc));
    assert_eq!(o.position_source(0x2000, 0), None);
}

#[test]
fn an_instance_at_zero_has_no_children_table() {
    let o = Offsets::default();
    assert_eq!(o.children_slot(0), None);
    assert_eq!(o.children_slot(0x1000), Some(0x1030));
}

#[test]
fn addresses_start_unset() {
    let a = Addresses::unset();
    assert_eq!((a.datamodel, a.players, a.localplayer, a.visualengine), (0, 0, 0, 0));
}

#[test]
fn an_executable_loaded_at_its_image_base_keeps_its_addresses() {
    let o = Offsets::default();
    assert_eq!(rebase_adress(0x0123_4567, 0x0040_0000), 0x0123_4567);
    assert_eq!(o.print_function(0x0040_0000), o.roblox_printaddy);
}

#[test]
fn the_local_player_and_the_character_share_their_field() {
    let o = Offsets::default();
    for instance in [0usize, 0x1000, 0xdead_0000] {
        assert_eq!(o.localplayer_slot(instance), o.character_slot(instance));
    }
}
