use rustin::adapter;
use rustin::chat_service::{Shell, ShellInput};
use rustin::config::Config;
use rustin::pattern::Pattern;

#[test]
fn shell_user_carries_the_name() {
    let s = Shell::new("Botty");
    assert_eq!(s.user().id(), "1");
    assert_eq!(s.user().username(), Some("Botty"));
    assert_eq!(Shell::default().user().username(), Some("Rustin"));
}

#[test]
fn mention_pattern_text_escapes_names() {
    let s = Shell::new("r.bot");
    assert_eq!(s.mention_pattern_text(None), "(?i)\\A\\s*r\\.bot");
    assert_eq!(s.mention_pattern_text(Some("!")), "(?i)\\A\\s*r\\.bot|!");
    assert_eq!(s.mention_pattern_text(Some("$")), "(?i)\\A\\s*r\\.bot|\\$");
}

#[test]
fn mention_pattern_quotes_meta_characters() {
    assert_eq!(Shell::new("a.b*c").mention_pattern_text(None), "(?i)\\A\\s*a\\.b\\*c");
    assert_eq!(Shell::new("plain").mention_pattern_text(Some("")), "(?i)\\A\\s*plain|");
}

#[test]
fn read_line_classifies_input() {
    let s = Shell::default();
    let mention = s.mention_pattern(None).unwrap();
    assert!(matches!(s.read_line(&mention, String::new()), ShellInput::Blank));
    assert!(matches!(s.read_line(&mention, "exit".to_string()), ShellInput::Quit));
    assert!(matches!(s.read_line(&mention, "quit".to_string()), ShellInput::Quit));
    match s.read_line(&mention, "  rustin hello".to_string()) {
        ShellInput::Message(m) => {
            assert_eq!(m.mention_offset(), 8);
            assert_eq!(m.body(), " hello");
            assert_eq!(m.user().id(), "1");
            assert_eq!(m.user().username(), Some("Shell User"));
        }
        other => panic!("unexpected {:?}", other),
    }
    match s.read_line(&mention, "hello".to_string()) {
        ShellInput::Message(m) => assert_eq!(m.mention_offset(), 0),
        other => panic!("unexpected {:?}", other),
    }
}

#[test]
fn alias_counts_as_mention() {
    let s = Shell::default();
    let mention = s.mention_pattern(Some("!")).unwrap();
    match s.read_line(&mention, "!ping".to_string()) {
        ShellInput::Message(m) => {
            assert_eq!(m.mention_offset(), 1);
            assert_eq!(m.body(), "ping");
        }
        other => panic!("unexpected {:?}", other),
    }
}

#[test]
fn pattern_finds_first_match_end() {
    let p = Pattern::new("b+").unwrap();
    assert_eq!(p.first_match_end("aabbbc"), Some(5));
    assert_eq!(p.first_match_end("xyz"), None);
    assert!(p.is_match("abc"));
    assert!(!p.is_match("xyz"));
    assert!(Pattern::new("[").is_err());
}

#[test]
fn adapter_shell_keeps_config() {
    let s = adapter::Shell::new(Config { alias: Some("/".to_string()) });
    assert_eq!(s.config().alias.as_deref(), Some("/"));
}

#[test]
fn interpret_line_uses_the_given_mention_end() {
    let s = Shell::default();
    assert!(matches!(s.interpret_line(String::new(), None), ShellInput::Blank));
    assert!(matches!(s.interpret_line("quit".to_string(), Some(0)), ShellInput::Quit));
    match s.interpret_line("bot: go".to_string(), Some(5)) {
        ShellInput::Message(m) => {
            assert_eq!(m.mention_offset(), 5);
            assert_eq!(m.body(), "go");
            assert_eq!(m.raw_body(), "bot: go");
        }
        other => panic!("unexpected {:?}", other),
    }
    match s.interpret_line("exit now".to_string(), None) {
        ShellInput::Message(m) => assert_eq!(m.mention_offset(), 0),
        other => panic!("unexpected {:?}", other),
    }
}
