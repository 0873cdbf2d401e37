use lock_rs::targets::body_part_name;
use lock_rs::targets::BodyPart;
use lock_rs::targets::PlayerProbe;
use lock_rs::targets::ProbeStep;

#[test]
fn the_player_at_zero_is_skipped() {
    assert_eq!(PlayerProbe::new(0).step, ProbeStep::Skip);
}

#[test]
fn a_player_with_a_torso_is_ready() {
    let mut p = PlayerProbe::new(0x10);
    assert_eq!(p.step, ProbeStep::ReadCharacter(0x10));
    p.answer(0x20);
    assert_eq!(p.step, ProbeStep::FindChild(0x20, BodyPart::Head));
    p.answer(0x30);
    assert_eq!(p.step, ProbeStep::FindChild(0x20, BodyPart::Torso));
    p.answer(0x40);
    assert_eq!(p.step, ProbeStep::Ready { head: 0x30, torso: 0x40 });
}

#[test]
fn the_upper_torso_stands_in_for_a_missing_torso() {
    let mut p = PlayerProbe::new(0x10);
    p.answer(0x20);
    p.answer(0x30);
    p.answer(0);
    assert_eq!(p.step, ProbeStep::FindChild(0x20, BodyPart::UpperTorso));
    p.answer(0x50);
    assert_eq!(p.step, ProbeStep::Ready { head: 0x30, torso: 0x50 });
}

#[test]
fn a_missing_part_skips_the_player() {
    let mut p = PlayerProbe::new(0x10);
    p.answer(0);
    assert_eq!(p.step, ProbeStep::Skip);
    let mut p = PlayerProbe::new(0x10);
    p.answer(0x20);
    p.answer(0);
    assert_eq!(p.step, ProbeStep::Skip);
    let mut p = PlayerProbe::new(0x10);
    p.answer(0x20);
    p.answer(0x30);
    p.answer(0);
    p.answer(0);
    assert_eq!(p.step, ProbeStep::Skip);
}

#[test]
fn body_parts_have_their_child_names() {
    assert_eq!(body_part_name(BodyPart::Head), "Head");
    assert_eq!(body_part_name(BodyPart::Torso), "Torso");
    assert_eq!(body_part_name(BodyPart::UpperTorso), "UpperTorso");
}
