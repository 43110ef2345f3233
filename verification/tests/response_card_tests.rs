use chat_cli::response_card::ResponseCard;

#[test]
fn test_wrap_text() {
    let card = ResponseCard::new();
    let text = "This is a very long line that should be wrapped properly";
    let wrapped = card.wrap_text(text, 20);

    assert!(wrapped.len() > 1);
    for line in &wrapped {
        assert!(line.len() <= 20);
    }
}

#[test]
fn test_card_creation() {
    let card = ResponseCard::new();
    assert_eq!(card.title, "Response");
    assert_eq!(card.width, 120);

    let custom_card = ResponseCard::with_title("Custom").with_width(80);
    assert_eq!(custom_card.title, "Custom");
    assert_eq!(custom_card.width, 80);
}

#[test]
fn wrap_text_gives_the_exact_lines() {
    let card = ResponseCard::new();
    let wrapped = card.wrap_text("This is a very long line that should be wrapped properly", 20);
    assert_eq!(
        wrapped,
        vec![
            "This is a very long".to_string(),
            "line that should be".to_string(),
            "wrapped properly".to_string(),
        ]
    );
}

#[test]
fn wrap_text_keeps_a_short_text_as_it_is() {
    let card = ResponseCard::new();
    assert_eq!(card.wrap_text("  two  words ", 20), vec!["  two  words ".to_string()]);
}

#[test]
fn wrap_text_puts_a_long_word_on_its_own_line() {
    let card = ResponseCard::new();
    assert_eq!(
        card.wrap_text("a incomprehensibilities b", 5),
        vec!["a".to_string(), "incomprehensibilities".to_string(), "b".to_string()]
    );
}

#[test]
fn header_centres_the_title() {
    let card = ResponseCard::with_title("Hi").with_width(10);
    assert_eq!(card.header_line(), "╭── Hi ──╮");
    assert_eq!(card.footer_line(), "╰────────╯");
}

#[test]
fn content_line_is_padded_to_the_width() {
    let card = ResponseCard::new().with_width(10);
    assert_eq!(card.content_line("abc"), "│ abc    │");
    assert_eq!(card.blank_line(), "│        ");
}

#[test]
fn narrow_card_has_no_padding() {
    let card = ResponseCard::with_title("Title").with_width(1);
    assert_eq!(card.header_line(), "╭ Title ╮");
    assert_eq!(card.footer_line(), "╰╯");
}

#[test]
fn card_shows_content_row_by_row() {
    let card = ResponseCard::with_title("T").with_width(12);
    let rows = card.card_lines("ab\n\nhello wide world\n");
    assert_eq!(
        rows,
        vec![
            format!("╭{} T {}╮", "─".repeat(3), "─".repeat(4)),
            format!("│ ab{} │", " ".repeat(6)),
            format!("│{}", " ".repeat(10)),
            format!("│ hello{} │", " ".repeat(3)),
            format!("│ wide{} │", " ".repeat(4)),
            format!("│ world{} │", " ".repeat(3)),
            format!("╰{}╯", "─".repeat(10)),
        ]
    );
    assert_eq!(card.content_lines(""), Vec::<String>::new());
    assert_eq!(card.content_lines("x"), vec![format!("│ x{} │", " ".repeat(7))]);
}
