use chesstui::ui::help::{contains_chars, help_lines, key_bindings, HelpLine};
use chesstui::ui::text_fit::{truncate, truncate_cuts_cleanly};

fn describe(lines: &[HelpLine]) -> Vec<String> {
    lines
        .iter()
        .map(|l| match l {
            HelpLine::Blank => String::new(),
            HelpLine::Section(c) => format!("[{}]", c),
            HelpLine::Binding(k, a) => format!("{} = {}", k, a),
        })
        .collect()
}

#[test]
fn help_lists_every_binding_under_its_category() {
    assert_eq!(key_bindings().len(), 19);
    let lines = help_lines("");
    let text = describe(&lines);
    assert_eq!(text.len(), 19 + 4 + 3 + 1);
    assert_eq!(text[0], "[MOVEMENT]");
    assert_eq!(text[1], "h j k l = Move cursor");
    assert_eq!(text[6], "");
    assert_eq!(text[7], "[INPUT]");
    assert_eq!(text[text.len() - 2], ": = Enter command mode");
    assert_eq!(text[text.len() - 1], "");
}

#[test]
fn help_search_ignores_case_and_keeps_headers() {
    let text = describe(&help_lines("MOVE"));
    assert_eq!(
        text,
        vec![
            "[MOVEMENT]".to_string(),
            "h j k l = Move cursor".to_string(),
            "Enter = Select / move piece".to_string(),
            "".to_string(),
            "[INPUT]".to_string(),
            "e2e4 = Algebraic move".to_string(),
            "".to_string(),
        ]
    );
    let text = describe(&help_lines("o-o"));
    assert_eq!(
        text,
        vec![
            "[INPUT]".to_string(),
            "O-O = Castle kingside".to_string(),
            "O-O-O = Castle queenside".to_string(),
            "".to_string(),
        ]
    );
    assert_eq!(describe(&help_lines("zzz")), vec!["".to_string()]);
}

#[test]
fn substring_search() {
    let hay: Vec<char> = "select square".chars().collect();
    assert!(contains_chars(&hay, &"squ".chars().collect()));
    assert!(contains_chars(&hay, &Vec::new()));
    assert!(!contains_chars(&hay, &"squares".chars().collect()));
    assert!(!contains_chars(&Vec::new(), &"a".chars().collect()));
}

#[test]
fn panel_lines_are_measured_in_bytes() {
    assert_eq!(truncate("abc", 5), " abc");
    assert_eq!(truncate("abcdefgh", 5), " abc\u{2026}");
    assert_eq!(truncate("abcdef", 1), " \u{2026}");
    // "ééé" takes six bytes; a four-byte panel keeps the first two bytes.
    assert!(truncate_cuts_cleanly("ééé", 4));
    assert_eq!(truncate("ééé", 4), " é\u{2026}");
    assert_eq!(truncate("ééé", 6), " ééé");
}

#[test]
fn panel_refuses_a_cut_inside_a_character() {
    assert!(!truncate_cuts_cleanly("ééé", 5));
    assert!(truncate_cuts_cleanly("ééé", 7));
    assert!(truncate_cuts_cleanly("abc", 2));
}
