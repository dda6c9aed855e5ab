use medit::editor::Medit;
use medit::text::decode_text;

#[test]
fn decode_text_keeps_valid_utf8() {
    assert_eq!(decode_text("grüße".as_bytes().to_vec()), "grüße");
    assert_eq!(decode_text(Vec::new()), "");
}

#[test]
fn decode_text_replaces_invalid_utf8_with_empty() {
    assert_eq!(decode_text(vec![0x80]), "");
    assert_eq!(decode_text(vec![b'o', b'k', 0xc0, 0xaf]), "");
}

#[test]
fn preview_is_off_until_toggled() {
    let mut m = Medit::new();
    assert!(m.preview_html().is_none());
    m.open_file("a.md".to_string(), b"# Title".to_vec());
    assert!(m.preview_html().is_none());
}

#[test]
fn preview_renders_markdown_of_the_active_tab() {
    let mut m = Medit::new();
    m.open_file("a.md".to_string(), b"# Title".to_vec());
    m.toggle_markdown_view();
    assert!(m.tab_markdown_view(0));
    assert_eq!(m.preview_html().unwrap(), "<h1>Title</h1>\n");
}

#[test]
fn toggling_twice_turns_the_preview_back_off() {
    let mut m = Medit::new();
    m.open_file("a.md".to_string(), b"*hi*".to_vec());
    m.toggle_markdown_view();
    m.toggle_markdown_view();
    assert!(!m.tab_markdown_view(0));
    assert!(m.preview_html().is_none());
}
