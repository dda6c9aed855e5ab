use medit::editor::Medit;
use medit::tab::EditMode;
use medit::tab::Tab;

fn editor_with(files: &[(&str, &str)]) -> Medit {
    let mut m = Medit::new();
    for (name, content) in files {
        m.open_file(name.to_string(), content.as_bytes().to_vec());
    }
    m
}

#[test]
fn loading_valid_utf8_keeps_content_exactly() {
    let mut m = Medit::new();
    m.open_file("notes.md".to_string(), "# Hello\nworld  \n".as_bytes().to_vec());
    assert_eq!(m.tab_count(), 1);
    assert_eq!(m.tab_name(0), "notes.md");
    assert_eq!(m.tab_text(0), "# Hello\nworld  \n");
    assert_eq!(m.tab_mode(0), EditMode::Normal);
    assert!(!m.tab_markdown_view(0));
}

#[test]
fn loading_invalid_utf8_gives_empty_buffer() {
    let mut m = Medit::new();
    m.open_file("junk.bin".to_string(), vec![0xff, 0xfe, b'a']);
    assert_eq!(m.tab_count(), 1);
    assert_eq!(m.tab_text(0), "");
}

#[test]
fn opening_files_in_sequence_keeps_open_order() {
    let m = editor_with(&[("a.md", "one"), ("b.md", "two"), ("c.md", "three")]);
    assert_eq!(m.tab_count(), 3);
    assert_eq!(m.tab_name(0), "a.md");
    assert_eq!(m.tab_name(1), "b.md");
    assert_eq!(m.tab_name(2), "c.md");
    assert_eq!(m.tab_text(0), "one");
    assert_eq!(m.tab_text(1), "two");
    assert_eq!(m.tab_text(2), "three");
    assert_eq!(m.selected_tab(), 0);
}

#[test]
fn selecting_a_tab_changes_only_the_index() {
    let mut m = editor_with(&[("a.md", "one"), ("b.md", "two")]);
    m.select_tab(1);
    assert_eq!(m.selected_tab(), 1);
    assert_eq!(m.tab_text(0), "one");
    assert_eq!(m.tab_text(1), "two");
}

#[test]
fn selecting_out_of_range_changes_nothing() {
    let mut m = editor_with(&[("a.md", "one")]);
    m.select_tab(7);
    assert_eq!(m.selected_tab(), 0);
    assert_eq!(m.tab_count(), 1);
}

#[test]
fn editing_touches_only_the_active_tab() {
    let mut m = editor_with(&[("a.md", "one"), ("b.md", "two")]);
    m.set_active_text("edited".to_string());
    assert_eq!(m.tab_text(0), "edited");
    assert_eq!(m.tab_text(1), "two");
}

#[test]
fn switching_tabs_and_back_preserves_edits() {
    let mut m = editor_with(&[("a.md", "one"), ("b.md", "two")]);
    m.set_active_text("edited".to_string());
    m.select_tab(1);
    m.set_active_text("also edited".to_string());
    m.select_tab(0);
    assert_eq!(m.selected_tab(), 0);
    assert_eq!(m.active_text().unwrap(), "edited");
    assert_eq!(m.tab_text(1), "also edited");
}

#[test]
fn closing_the_only_tab_resets_the_selection() {
    let mut m = editor_with(&[("a.md", "one")]);
    m.close_tab(0);
    assert_eq!(m.tab_count(), 0);
    assert_eq!(m.selected_tab(), 0);
    assert!(m.active_text().is_none());
}

#[test]
fn closing_a_later_tab_keeps_the_selected_tab() {
    let mut m = editor_with(&[("a.md", "one"), ("b.md", "two"), ("c.md", "three")]);
    m.close_tab(2);
    assert_eq!(m.tab_count(), 2);
    assert_eq!(m.selected_tab(), 0);
    assert_eq!(m.active_text().unwrap(), "one");
}

#[test]
fn closing_an_earlier_tab_slides_the_selection_down() {
    let mut m = editor_with(&[("a.md", "one"), ("b.md", "two"), ("c.md", "three")]);
    m.select_tab(2);
    m.close_tab(0);
    assert_eq!(m.tab_count(), 2);
    assert_eq!(m.selected_tab(), 1);
    assert_eq!(m.active_text().unwrap(), "three");
}

#[test]
fn closing_the_selected_last_tab_moves_to_the_new_last() {
    let mut m = editor_with(&[("a.md", "one"), ("b.md", "two")]);
    m.select_tab(1);
    m.close_tab(1);
    assert_eq!(m.tab_count(), 1);
    assert_eq!(m.selected_tab(), 0);
    assert_eq!(m.active_text().unwrap(), "one");
}

#[test]
fn closing_out_of_range_changes_nothing() {
    let mut m = editor_with(&[("a.md", "one")]);
    m.close_tab(5);
    assert_eq!(m.tab_count(), 1);
    assert_eq!(m.tab_text(0), "one");
}

#[test]
fn picker_session_opens_and_resolves() {
    let mut m = Medit::new();
    assert!(!m.picker_open());
    m.request_open();
    assert!(m.picker_open());
    m.open_file("a.md".to_string(), b"one".to_vec());
    assert!(!m.picker_open());
    assert_eq!(m.tab_count(), 1);
}

#[test]
fn pressing_insert_puts_the_active_tab_in_insert_mode() {
    let mut m = editor_with(&[("a.md", "one"), ("b.md", "two")]);
    m.press_insert();
    assert_eq!(m.tab_mode(0), EditMode::Insert);
    assert_eq!(m.tab_mode(1), EditMode::Normal);
}

#[test]
fn pressing_insert_with_no_tabs_changes_nothing() {
    let mut m = Medit::new();
    m.press_insert();
    assert_eq!(m.tab_count(), 0);
}

#[test]
fn new_tab_appends_a_prebuilt_tab() {
    let mut m = Medit::new();
    let tab = Tab::from_file("a.md".to_string(), b"# T".to_vec());
    m.new_tab(tab);
    assert_eq!(m.tab_count(), 1);
    assert_eq!(m.tab_name(0), "a.md");
    assert_eq!(m.tab_text(0), "# T");
}

#[test]
fn default_editor_is_empty() {
    let m = Medit::default();
    assert_eq!(m.tab_count(), 0);
    assert_eq!(m.selected_tab(), 0);
    assert!(!m.picker_open());
}
