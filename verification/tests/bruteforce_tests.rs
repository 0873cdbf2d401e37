use lock_rs::bruteforce::character_offset_scan;
use lock_rs::bruteforce::localplayer_offset_scan;
use lock_rs::bruteforce::place_id_offset_scan;
use lock_rs::bruteforce::user_id_offset_scan;
use lock_rs::bruteforce::OffsetScan;
use lock_rs::bruteforce::ScanKind;
use lock_rs::bruteforce::ScanValue;
use lock_rs::bruteforce::KNOWN_PLACE_ID;
use lock_rs::bruteforce::KNOWN_USER_ID;

/// Runs a scan over words laid out four bytes apart from `base`.
fn run(mut scan: OffsetScan, memory: &[(usize, ScanValue)]) -> OffsetScan {
    loop {
        let address = scan.probe_address();
        let value = memory
            .iter()
            .find(|(a, _)| *a == address)
            .map(|(_, v)| *v)
            .expect("probed outside the test memory");
        if scan.observe(value) {
            return scan;
        }
    }
}

#[test]
fn the_character_scan_stops_at_the_first_match() {
    let memory = [
        (0x1000, ScanValue::Word(1)),
        (0x1004, ScanValue::Word(2)),
        (0x1008, ScanValue::Word(0xabc)),
        (0x100c, ScanValue::Word(0xabc)),
    ];
    let scan = run(character_offset_scan(0x1000, 0xabc), &memory);
    assert!(scan.found);
    assert_eq!(scan.offset, 8);
    assert_eq!(scan.report(), "Player Character Offset 8");
}

#[test]
fn a_match_at_the_start_is_offset_zero() {
    let memory = [(0x2000, ScanValue::Word(0x55))];
    let scan = run(localplayer_offset_scan(0x2000, 0x55), &memory);
    assert_eq!(scan.offset, 0);
    assert_eq!(scan.report(), "Players LocalPlayer Offset 0");
}

#[test]
fn the_user_id_scan_reads_unsigned_words() {
    let mut memory = Vec::new();
    for i in 0..0x30usize {
        memory.push((0x4000 + 4 * i, ScanValue::Dword(i as u32)));
    }
    memory[0x2b] = (0x4000 + 4 * 0x2b, ScanValue::Dword(KNOWN_USER_ID));
    let scan = run(user_id_offset_scan(0x4000), &memory);
    assert_eq!(scan.offset, 0xac);
    assert_eq!(scan.report(), "Players UserID Offset ac");
}

#[test]
fn the_place_id_scan_reads_signed_words() {
    let memory = [
        (0x6000, ScanValue::SignedDword(-1)),
        (0x6004, ScanValue::SignedDword(KNOWN_PLACE_ID)),
    ];
    let scan = run(place_id_offset_scan(0x6000), &memory);
    assert_eq!(scan.offset, 4);
    assert_eq!(scan.report(), "Players PlaceID Offset 4");
}

#[test]
fn a_miss_moves_on_four_bytes() {
    let mut scan = OffsetScan::new(ScanKind::Character, 0x10, ScanValue::Word(9));
    assert_eq!(scan.probe_address(), 0x10);
    assert!(!scan.observe(ScanValue::Word(8)));
    assert_eq!(scan.probe_address(), 0x14);
    assert!(!scan.found);
    assert!(scan.observe(ScanValue::Word(9)));
    assert_eq!(scan.offset, 4);
}
