use polyphony_tui::commands::{
    command_query_matches, commands, filtered_commands, filtered_slash_commands,
    slash_commands, slash_query_matches, SLASH_MAX_VISIBLE,
};

fn slash_names(input: &str) -> Vec<&'static str> {
    filtered_slash_commands(input).iter().map(|c| c.name).collect()
}

fn command_names(search: &str) -> Vec<&'static str> {
    filtered_commands(search).iter().map(|c| c.name).collect()
}

#[test]
fn tables_have_expected_sizes() {
    assert_eq!(commands().len(), 12);
    assert_eq!(slash_commands().len(), 22);
    assert_eq!(SLASH_MAX_VISIBLE, 10);
    assert_eq!(commands()[0].name, "Share session");
    assert_eq!(commands()[0].section, "Suggested");
    assert_eq!(commands()[11].shortcut, "ctrl+x h");
    assert_eq!(slash_commands()[15].name, "/themes");
}

#[test]
fn lone_slash_offers_every_command() {
    assert_eq!(filtered_slash_commands("/").len(), 22);
}

#[test]
fn slash_filter_is_a_case_insensitive_prefix_match() {
    assert_eq!(slash_names("/th"), vec!["/themes", "/thinking"]);
    assert_eq!(slash_names("/TH"), vec!["/themes", "/thinking"]);
    assert_eq!(slash_names("/ti"), vec!["/timeline", "/timestamps"]);
    assert_eq!(slash_names("/e"), vec!["/editor", "/exit", "/export"]);
    assert!(slash_names("/zzz").is_empty());
    assert!(slash_names("themes").is_empty());
}

#[test]
fn slash_filter_on_empty_input_offers_everything() {
    // Every name starts with the empty string.
    assert_eq!(filtered_slash_commands("").len(), 22);
}

#[test]
fn empty_search_lists_every_command() {
    assert_eq!(filtered_commands("").len(), 12);
}

#[test]
fn command_search_is_case_insensitive_substring() {
    assert_eq!(
        command_names("SESSION"),
        vec![
            "Share session",
            "Switch session",
            "New session",
            "Rename session",
            "Fork session",
            "Compact session"
        ]
    );
    assert_eq!(command_names("model"), vec!["Switch model"]);
    assert_eq!(command_names("side"), vec!["Show sidebar"]);
    assert!(command_names("nothing like this").is_empty());
}

#[test]
fn query_matchers_decide_on_lowercased_text() {
    assert!(slash_query_matches("/themes", "/th"));
    assert!(slash_query_matches("/help", "/"));
    assert!(!slash_query_matches("/help", "/x"));
    assert!(!slash_query_matches("/help", "/HE"));
    assert!(command_query_matches("share session", "re se"));
    assert!(!command_query_matches("share session", "Share"));
}
