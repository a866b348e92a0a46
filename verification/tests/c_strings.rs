use hudhook::c_string::{has_nul, path_buffer, read_c_string, terminator, MAX_PATH};

fn chars(text: &[u8], size: usize) -> Vec<i8> {
    let mut buffer = vec![0i8; size];
    for (i, b) in text.iter().enumerate() {
        buffer[i] = *b as i8;
    }
    buffer
}

#[test]
fn terminator_is_the_first_nul() {
    assert_eq!(terminator(&[104, 105, 0, 33, 0]), Some(2));
    assert_eq!(terminator(&[0]), Some(0));
    assert_eq!(terminator(&[104, 105]), None);
    assert_eq!(terminator(&[]), None);
}

#[test]
fn string_is_read_up_to_its_nul() {
    assert_eq!(read_c_string(&[104, 105, 0, 33]), b"hi".to_vec());
    assert_eq!(read_c_string(&[0, 33]), Vec::<u8>::new());
    assert_eq!(read_c_string(&[-61, -87, 0]), vec![0xc3u8, 0xa9]);
}

#[test]
fn short_path_is_padded_with_nuls() {
    let buffer = path_buffer("C:\\hud.dll");
    assert_eq!(buffer, chars(b"C:\\hud.dll", 260));
    assert_eq!(buffer.len(), MAX_PATH);
}

#[test]
fn short_path_is_read_back() {
    for path in ["", "C:\\hud.dll", "C:\\caf\u{e9}.dll"] {
        assert_eq!(read_c_string(&path_buffer(path)), path.as_bytes().to_vec());
    }
    let longest = "a".repeat(259);
    assert_eq!(read_c_string(&path_buffer(&longest)), longest.into_bytes());
}

#[test]
fn long_path_is_cut_off_without_a_nul() {
    for length in [260usize, 261, 1000] {
        let buffer = path_buffer(&"a".repeat(length));
        assert_eq!(buffer, vec![97i8; 260]);
        assert_eq!(terminator(&buffer), None);
    }
}

#[test]
fn nul_in_a_text_is_noticed() {
    assert!(!has_nul(""));
    assert!(!has_nul("C:\\hud.dll"));
    assert!(has_nul("a\0b"));
    assert!(has_nul("\0"));
}
