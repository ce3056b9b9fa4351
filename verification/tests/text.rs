use speculare_server::text::{chars_of, header_text, replace_all};

#[test]
fn header_reads_visible_ascii() {
    assert_eq!(header_text(&b"abc-123 \tX".to_vec()), Some("abc-123 \tX".to_string()));
    assert_eq!(header_text(&vec![]), Some(String::new()));
    assert_eq!(header_text(&vec![b'a', 0x7f]), None);
    assert_eq!(header_text(&vec![0xc3, 0xa9]), None);
    assert_eq!(header_text(&vec![b'\n']), None);
}

#[test]
fn replace_matches_std() {
    for (s, p, w) in [
        ("$this > 50", "$this", "12.5"),
        ("$this > 1 && $this < 9", "$this", "3"),
        ("no placeholder", "$this", "3"),
        ("$this$this", "$this", ""),
        ("aaa", "aa", "b"),
        ("héllo $this", "$this", "wörld"),
    ] {
        assert_eq!(replace_all(s, p, w), s.replace(p, w));
    }
}

#[test]
fn chars_in_order() {
    assert_eq!(chars_of("aé$"), vec!['a', 'é', '$']);
}
