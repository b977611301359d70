use font_book::glyph::GlyphEntry;
use font_book::panel::{FontBook, FrameInput, FrameOutput};
use font_book::style::TextStyle;

fn entry(codepoint: u32, character: char, name: &str) -> GlyphEntry {
    GlyphEntry { codepoint, character, name: name.to_string() }
}

fn standard_table() -> Vec<GlyphEntry> {
    vec![
        entry(0x61, 'a', "latin small letter a"),
        entry(0x62, 'b', "latin small letter b"),
        entry(0x2603, '☃', "snowman"),
    ]
}

fn emoji_table() -> Vec<GlyphEntry> {
    vec![
        entry(0x1F600, '😀', "grinning face"),
        entry(0x2764, '❤', "heavy black heart"),
        entry(0x1F499, '💙', "blue heart"),
    ]
}

fn quiet_input(filter_text: &str, standard_len: usize, emoji_len: usize) -> FrameInput {
    FrameInput {
        selected_style: None,
        standard_clicked: false,
        emojis_clicked: false,
        filter_text: filter_text.to_string(),
        clear_clicked: false,
        standard_clicks: vec![false; standard_len],
        emoji_clicks: vec![false; emoji_len],
    }
}

fn rendered_chars(out: &FrameOutput) -> Vec<char> {
    out.rendered.iter().map(|g| g.character).collect()
}

#[test]
fn default_state() {
    let book = FontBook::default();
    assert!(!book.standard);
    assert!(book.emojis);
    assert_eq!(book.filter, "");
    assert_eq!(book.text_style, TextStyle::Button);
}

#[test]
fn default_frame_renders_emoji_table_only() {
    let mut book = FontBook::default();
    let standard = standard_table();
    let emojis = emoji_table();
    let input = quiet_input("", standard.len(), emojis.len());
    let out = book.ui(&input, &standard, &emojis);
    assert_eq!(rendered_chars(&out), vec!['😀', '❤', '💙']);
    assert_eq!(out.copied_text, None);
}

#[test]
fn empty_filter_renders_all_enabled_in_table_order() {
    let mut book = FontBook::default();
    book.standard = true;
    let standard = standard_table();
    let emojis = emoji_table();
    let input = quiet_input("", standard.len(), emojis.len());
    let out = book.ui(&input, &standard, &emojis);
    assert_eq!(rendered_chars(&out), vec!['a', 'b', '☃', '😀', '❤', '💙']);
}

#[test]
fn filter_heart_renders_matching_names_only() {
    let mut book = FontBook::default();
    book.standard = true;
    let standard = standard_table();
    let emojis = emoji_table();
    let input = quiet_input("heart", standard.len(), emojis.len());
    let out = book.ui(&input, &standard, &emojis);
    assert_eq!(rendered_chars(&out), vec!['❤', '💙']);
    assert_eq!(book.filter, "heart");
}

#[test]
fn filter_without_match_renders_nothing() {
    let mut book = FontBook::default();
    book.standard = true;
    let standard = standard_table();
    let emojis = emoji_table();
    let input = quiet_input("zz", standard.len(), emojis.len());
    let out = book.ui(&input, &standard, &emojis);
    assert!(out.rendered.is_empty());
}

#[test]
fn text_edit_is_lowercased() {
    let mut book = FontBook::default();
    book.set_filter("A");
    assert_eq!(book.filter, "a");
    book.set_filter("HeArT");
    assert_eq!(book.filter, "heart");
    book.set_filter("");
    assert_eq!(book.filter, "");
}

#[test]
fn uppercase_edit_matches_by_character_equality() {
    let mut book = FontBook::default();
    book.set_filter("A");
    assert_eq!(book.filter, "a");
    // The letter matches through the character-equality branch: its name
    // holds no "a".
    let letter = entry(0x61, 'a', "first letter of the row");
    assert!(book.matches_filter(&letter));
    // The snowman's character is not 'a'; it still renders because its name
    // holds one.
    let snowman = entry(0x2603, '☃', "snowman");
    assert!(book.matches_filter(&snowman));
    // Neither branch: not rendered.
    let other = entry(0x62, 'b', "second letter of the row");
    assert!(!book.matches_filter(&other));
}

#[test]
fn multibyte_filter_matches_exact_codepoint_only() {
    let mut book = FontBook::default();
    book.set_filter("😀");
    let grin = entry(0x1F600, '😀', "grinning face");
    let heart = entry(0x2764, '❤', "heavy black heart");
    assert!(book.matches_filter(&grin));
    assert!(!book.matches_filter(&heart));
}

#[test]
fn click_copies_single_character_string() {
    let book = FontBook::default();
    let table = vec![entry(0x1F600, '😀', "grinning face")];
    let clicked = vec![true];
    let mut copied: Option<String> = None;
    book.characters_ui(&table, &clicked, &mut copied);
    assert_eq!(copied, Some("😀".to_string()));
}

#[test]
fn later_click_overwrites_earlier_one() {
    let book = FontBook::default();
    let table = emoji_table();
    let clicked = vec![true, false, true];
    let mut copied: Option<String> = None;
    book.characters_ui(&table, &clicked, &mut copied);
    assert_eq!(copied, Some("💙".to_string()));
}

#[test]
fn click_on_filtered_out_entry_is_ignored() {
    let mut book = FontBook::default();
    book.set_filter("grinning");
    let table = emoji_table();
    let clicked = vec![false, true, false];
    let mut copied: Option<String> = None;
    let rendered = book.characters_ui(&table, &clicked, &mut copied);
    assert_eq!(rendered.len(), 1);
    assert_eq!(copied, None);
}

#[test]
fn frame_click_reaches_copied_text_slot() {
    let mut book = FontBook::default();
    let standard = standard_table();
    let emojis = emoji_table();
    let mut input = quiet_input("", standard.len(), emojis.len());
    input.emoji_clicks[0] = true;
    let out = book.ui(&input, &standard, &emojis);
    assert_eq!(out.copied_text, Some("😀".to_string()));
}

#[test]
fn emoji_section_click_wins_over_standard_section_click() {
    let mut book = FontBook::default();
    book.standard = true;
    let standard = standard_table();
    let emojis = emoji_table();
    let mut input = quiet_input("", standard.len(), emojis.len());
    input.standard_clicks[1] = true;
    input.emoji_clicks[2] = true;
    let out = book.ui(&input, &standard, &emojis);
    assert_eq!(out.copied_text, Some("💙".to_string()));
}

#[test]
fn clear_button_empties_filter_and_restores_all_entries() {
    let mut book = FontBook::default();
    book.set_filter("abc");
    assert_eq!(book.filter, "abc");
    let standard = standard_table();
    let emojis = emoji_table();
    let mut input = quiet_input("abc", standard.len(), emojis.len());
    input.clear_clicked = true;
    let out = book.ui(&input, &standard, &emojis);
    assert_eq!(book.filter, "");
    assert_eq!(rendered_chars(&out), vec!['😀', '❤', '💙']);
}

#[test]
fn toggling_standard_off_removes_exactly_that_section() {
    let mut book = FontBook::default();
    book.standard = true;
    let standard = standard_table();
    let emojis = emoji_table();

    let input = quiet_input("", standard.len(), emojis.len());
    let both = book.ui(&input, &standard, &emojis);
    assert_eq!(rendered_chars(&both), vec!['a', 'b', '☃', '😀', '❤', '💙']);

    let mut toggle = quiet_input("", standard.len(), emojis.len());
    toggle.standard_clicked = true;
    let emoji_only = book.ui(&toggle, &standard, &emojis);
    assert!(!book.standard);
    assert_eq!(rendered_chars(&emoji_only), vec!['😀', '❤', '💙']);
}

#[test]
fn toggling_emojis_off_leaves_standard_section_untouched() {
    let mut book = FontBook::default();
    book.standard = true;
    let standard = standard_table();
    let emojis = emoji_table();
    let mut toggle = quiet_input("", standard.len(), emojis.len());
    toggle.emojis_clicked = true;
    let out = book.ui(&toggle, &standard, &emojis);
    assert!(!book.emojis);
    assert_eq!(rendered_chars(&out), vec!['a', 'b', '☃']);
}

#[test]
fn style_selection_restyles_buttons_until_changed_again() {
    let mut book = FontBook::default();
    let standard = standard_table();
    let emojis = emoji_table();

    let mut pick = quiet_input("", standard.len(), emojis.len());
    pick.selected_style = Some(TextStyle::Heading);
    let out = book.ui(&pick, &standard, &emojis);
    assert_eq!(book.text_style, TextStyle::Heading);
    assert!(out.rendered.iter().all(|g| g.text_style == TextStyle::Heading));

    let keep = quiet_input("", standard.len(), emojis.len());
    let again = book.ui(&keep, &standard, &emojis);
    assert_eq!(book.text_style, TextStyle::Heading);
    assert!(again.rendered.iter().all(|g| g.text_style == TextStyle::Heading));
}
