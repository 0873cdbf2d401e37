use lock_rs::instances::JobSearch;
use lock_rs::instances::child_slots;
use lock_rs::instances::child_walk_fits;
use lock_rs::instances::job_name_from_slot;
use lock_rs::instances::other_player_walk_fits;
use lock_rs::instances::JobName;
use lock_rs::instances::job_slots;
use lock_rs::instances::named_children;
use lock_rs::instances::other_player_slots;
use lock_rs::layout::Offsets;

fn names(list: &[&str]) -> Vec<String> {
    list.iter().map(|s| s.to_string()).collect()
}

#[test]
fn children_table_slots_are_eight_bytes_apart() {
    assert_eq!(child_slots(100, 124), vec![100, 108, 116]);
    assert_eq!(child_slots(100, 125), vec![100, 108, 116, 124]);
    assert_eq!(child_slots(100, 101), vec![100]);
    assert_eq!(child_slots(100, 100), Vec::<usize>::new());
    assert_eq!(child_slots(200, 100), Vec::<usize>::new());
}

#[test]
fn other_players_skip_the_first_slot() {
    assert_eq!(other_player_slots(100, 124), vec![108, 116]);
    assert_eq!(other_player_slots(100, 108), Vec::<usize>::new());
}

#[test]
fn job_slots_run_exactly_to_the_end() {
    assert_eq!(job_slots(0x500, 0x518), vec![0x500, 0x508, 0x510]);
    assert_eq!(job_slots(0x500, 0x500), Vec::<usize>::new());
}

#[test]
fn children_without_a_name_are_dropped() {
    let kept = named_children(&[1, 2, 3, 4], &names(&["Head", "", "Torso", ""]));
    assert_eq!(kept, vec![1, 3]);
    assert_eq!(named_children(&[], &[]), Vec::<usize>::new());
}

#[test]
fn find_first_child_gives_the_first_child_so_named() {
    let o = Offsets::default();
    let children = [10, 20, 30];
    let n = names(&["Head", "Torso", "Head"]);
    assert_eq!(o.find_first_child(&children, &n, "Head"), 10);
    assert_eq!(o.find_first_child(&children, &n, "Torso"), 20);
    assert_eq!(o.find_first_child(&children, &n, "Humanoid"), 0);
}

#[test]
fn find_first_child_of_class_gives_the_first_child_of_that_class() {
    let o = Offsets::default();
    let children = [10, 20, 30];
    let classes = names(&["Part", "Humanoid", "Humanoid"]);
    assert_eq!(o.find_first_child_of_class(&children, &classes, "Humanoid"), 20);
    assert_eq!(o.find_first_child_of_class(&children, &classes, "Part"), 10);
    assert_eq!(o.find_first_child_of_class(&children, &classes, "Tool"), 0);
}

#[test]
fn a_single_match_is_found_by_both_searches() {
    let o = Offsets::default();
    let children = [7, 8, 9];
    let n = names(&["Workspace", "Players", "Lighting"]);
    assert_eq!(o.find_first_child(&children, &n, "Players"), 8);
    assert_eq!(o.find_first_child_of_class(&children, &n, "Players"), 8);
}

#[test]
fn get_job_stops_at_the_first_job_so_named() {
    let o = Offsets::default();
    let jobs = [0x100, 0x200, 0x300];
    let n = names(&["Heartbeat", "Render", "Render"]);
    assert_eq!(o.get_job(&jobs, &n, "Render"), 0x200);
    assert_eq!(o.get_job(&jobs, &n, "WaitingHybridScriptsJob"), 0);
    assert_eq!(o.get_job(&[], &[], "Render"), 0);
}

#[test]
fn a_job_search_ends_at_the_first_job_so_named() {
    let mut search = JobSearch::new("Render");
    search.offer(0x100, &String::from("Heartbeat"));
    assert_eq!(search.found, None);
    search.offer(0x200, &String::from("Render"));
    assert_eq!(search.found, Some(0x200));
    assert_eq!(search.result(), 0x200);
    let mut none = JobSearch::new("Render");
    none.offer(0x100, &String::from("Physics"));
    assert_eq!(none.result(), 0);
}

#[test]
fn a_walk_fits_when_the_step_past_the_last_slot_stays_in_range() {
    assert!(child_walk_fits(100, 124));
    assert!(child_walk_fits(200, 100));
    assert!(child_walk_fits(usize::MAX - 15, usize::MAX - 7));
    assert!(!child_walk_fits(usize::MAX - 15, usize::MAX - 6));
    assert!(!child_walk_fits(usize::MAX - 3, usize::MAX));
    assert!(child_walk_fits(usize::MAX, usize::MAX));
}

#[test]
fn the_walk_past_the_local_player_fits_only_when_its_start_does() {
    assert!(other_player_walk_fits(100, 124));
    assert!(!other_player_walk_fits(usize::MAX - 7, usize::MAX));
    assert!(other_player_walk_fits(usize::MAX - 8, usize::MAX));
    assert!(other_player_walk_fits(usize::MAX - 16, usize::MAX));
    assert!(!other_player_walk_fits(usize::MAX - 15, usize::MAX));
}

#[test]
fn the_other_players_are_the_children_but_the_first() {
    let pointers = [0x10, 0x20, 0x30];
    let n = names(&["Me", "", "Them"]);
    assert_eq!(named_children(&pointers, &n), vec![0x10, 0x30]);
    assert_eq!(named_children(&pointers[1..], &n[1..]), vec![0x30]);
    assert_eq!(child_slots(100, 124)[1..].to_vec(), other_player_slots(100, 124));
}

#[test]
fn a_job_name_slot_holds_the_name_or_a_pointer_to_it() {
    match job_name_from_slot(b"Render") {
        JobName::Inline(name) => assert_eq!(name, "Render"),
        JobName::Behind => panic!("the name is inline"),
    }
    assert!(matches!(job_name_from_slot(&[0x10, 0xf0, 0x9f, 0xff]), JobName::Behind));
}
