use anchor_kit::parsing::{parse_add_command, AddCommandError};

fn args(words: &[&str]) -> Vec<String> {
    words.iter().map(|w| w.to_string()).collect()
}

#[test]
fn missing_description() {
    assert_eq!(parse_add_command(&args(&["add"])), Err(AddCommandError::MissingDescription));
    assert_eq!(parse_add_command(&args(&[])), Err(AddCommandError::MissingDescription));
}

#[test]
fn single_word() {
    assert_eq!(parse_add_command(&args(&["add", "milk"])), Ok("milk".to_string()));
}

#[test]
fn words_are_joined_by_spaces() {
    assert_eq!(
        parse_add_command(&args(&["add", "Walk", "the", "dog"])),
        Ok("Walk the dog".to_string())
    );
}

#[test]
fn surrounding_double_quotes_are_removed() {
    assert_eq!(
        parse_add_command(&args(&["add", "\"Buy", "groceries\""])),
        Ok("Buy groceries".to_string())
    );
}

#[test]
fn surrounding_single_quotes_are_removed_after_double() {
    assert_eq!(
        parse_add_command(&args(&["add", "\"'hi'\""])),
        Ok("hi".to_string())
    );
    // Single quotes outside double quotes shield the double quotes.
    assert_eq!(
        parse_add_command(&args(&["add", "'\"hi\"'"])),
        Ok("\"hi\"".to_string())
    );
}

#[test]
fn repeated_quotes_are_all_removed() {
    assert_eq!(parse_add_command(&args(&["add", "\"\"x\"\"\""])), Ok("x".to_string()));
}

#[test]
fn inner_quotes_are_kept() {
    assert_eq!(
        parse_add_command(&args(&["add", "say", "\"hi\"", "now"])),
        Ok("say \"hi\" now".to_string())
    );
}

#[test]
fn only_quotes_is_empty() {
    assert_eq!(
        parse_add_command(&args(&["add", "\"\"''"])),
        Err(AddCommandError::EmptyDescription)
    );
    assert_eq!(parse_add_command(&args(&["add", ""])), Err(AddCommandError::EmptyDescription));
}

#[test]
fn non_ascii_text() {
    assert_eq!(
        parse_add_command(&args(&["add", "\"café", "☕\""])),
        Ok("café ☕".to_string())
    );
}
