use lock_rs::text::decode_text;
use lock_rs::text::holds_nul;
use lock_rs::text::print_payload;
use lock_rs::text::to_lower_hex;

#[test]
fn valid_utf8_names_decode() {
    assert_eq!(decode_text(b"Players"), Some(String::from("Players")));
    assert_eq!(decode_text("Über".as_bytes()), Some(String::from("Über")));
    assert_eq!(decode_text(b""), Some(String::new()));
}

#[test]
fn invalid_utf8_is_refused() {
    assert_eq!(decode_text(&[0x50, 0xff, 0x41]), None);
    assert_eq!(decode_text(&[0xc3]), None);
}

#[test]
fn print_text_loses_non_ascii_characters() {
    assert_eq!(print_payload("héllo wörld"), b"hllo wrld".to_vec());
    assert_eq!(print_payload("Player Character Offset 1c"), b"Player Character Offset 1c".to_vec());
    assert_eq!(print_payload("日本"), Vec::<u8>::new());
    assert_eq!(print_payload(""), Vec::<u8>::new());
}

#[test]
fn print_text_with_a_nul_cannot_be_handed_over() {
    assert!(holds_nul("a\0b"));
    assert!(holds_nul("é\0"));
    assert!(!holds_nul("ab"));
    assert!(!holds_nul(""));
}

#[test]
fn hexadecimal_matches_lower_hex_formatting() {
    assert_eq!(to_lower_hex(0), "0");
    assert_eq!(to_lower_hex(15), "f");
    assert_eq!(to_lower_hex(16), "10");
    assert_eq!(to_lower_hex(0x1a2b), "1a2b");
    for n in [1usize, 9, 10, 255, 256, 4096, 0xdead_beef, usize::MAX] {
        assert_eq!(to_lower_hex(n), format!("{:x}", n));
    }
}

#[test]
fn hexadecimal_reads_back_as_the_number() {
    for n in [0usize, 7, 16, 0x80, 0x1234, 0xffff_ffff] {
        let text = to_lower_hex(n);
        assert_eq!(usize::from_str_radix(&text, 16).unwrap(), n);
        assert!(n == 0 || !text.starts_with('0'));
    }
}

#[test]
fn ascii_text_reaches_the_print_function_unchanged() {
    let text = "Players UserID Offset ac";
    assert_eq!(print_payload(text), text.as_bytes().to_vec());
    let stripped = print_payload("ça va ☺");
    assert!(stripped.iter().all(|b| *b < 128));
}

#[test]
fn names_written_as_utf8_read_back() {
    for name in ["HumanoidRootPart", "Ünïcödé", "名前", ""] {
        assert_eq!(decode_text(name.as_bytes()), Some(name.to_string()));
    }
}
