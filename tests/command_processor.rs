use vocalinux::command_processor::CommandProcessor;

#[test]
fn test_punctuation() {
    let processor = CommandProcessor::new();
    let (text, actions) = processor.process("Hello period How are you question mark");
    assert_eq!(text, "Hello . How are you ?");
    assert!(actions.is_empty());
}

#[test]
fn test_action_detection() {
    let processor = CommandProcessor::new();
    let (_, actions) = processor.process("delete that");
    assert!(actions.contains(&"delete_that".to_string()));
}

#[test]
fn test_new_line() {
    let processor = CommandProcessor::new();
    let (text, _) = processor.process("First line new line Second line");
    assert!(text.contains('\n'));
}

#[test]
fn whole_action_utterance_types_nothing() {
    let processor = CommandProcessor::new();
    let (text, actions) = processor.process("  Delete That ");
    assert_eq!(text, "");
    assert_eq!(actions, vec!["delete_that".to_string()]);
}

#[test]
fn new_line_keeps_newline_between_words() {
    let processor = CommandProcessor::new();
    let (text, actions) = processor.process("First line new line Second line");
    assert_eq!(text, "First line \n Second line");
    assert!(actions.is_empty());
}

#[test]
fn word_boundaries_protect_longer_words() {
    let processor = CommandProcessor::new();
    let (text, _) = processor.process("newlinetest periodic commas");
    assert_eq!(text, "newlinetest periodic commas");
}

#[test]
fn replacement_is_case_insensitive() {
    let processor = CommandProcessor::new();
    let (text, _) = processor.process("Stop PERIOD then Comma");
    assert_eq!(text, "Stop . then ,");
}

#[test]
fn action_inside_sentence_keeps_text() {
    let processor = CommandProcessor::new();
    let (text, actions) = processor.process("please undo that now");
    assert_eq!(text, "please undo that now");
    assert_eq!(actions, vec!["undo".to_string(), "undo_that".to_string()]);
}

#[test]
fn open_quote_wins_over_quote() {
    let processor = CommandProcessor::new();
    let (text, _) = processor.process("open quote hi close quote");
    assert_eq!(text, "\" hi \"");
}

#[test]
fn dollar_sign_is_literal() {
    let processor = CommandProcessor::new();
    let (text, _) = processor.process("five dollar sign");
    assert_eq!(text, "five $");
}

#[test]
fn spaces_are_collapsed_and_trimmed() {
    let processor = CommandProcessor::new();
    let (text, actions) = processor.process("   a    b   ");
    assert_eq!(text, "a b");
    assert!(actions.is_empty());
    let (empty, none) = processor.process("");
    assert_eq!(empty, "");
    assert!(none.is_empty());
}

#[test]
fn command_tables_are_listed() {
    let processor = CommandProcessor::default();
    let phrases = processor.text_commands();
    assert_eq!(phrases.len(), 35);
    assert!(phrases.contains(&"new paragraph"));
    let actions = processor.action_commands();
    assert_eq!(actions.len(), 16);
    assert_eq!(actions[0], "delete that");
    assert_eq!(actions[15], "lowercase");
}
