use commodore::{Command, MatchCommand, MatchSubCommand, MatchText, Matcher};

fn command_with(command: &str, text: &str) -> Command {
    Command {
        token: String::new(),
        team_id: String::new(),
        team_domain: String::new(),
        channel_id: String::new(),
        channel_name: String::new(),
        user_id: String::new(),
        user_name: String::new(),
        command: command.to_string(),
        text: text.to_string(),
        response_url: String::new(),
    }
}

#[test]
fn matches_commands() {
    let cmd = command_with("/test", "");
    let (_, matched) = MatchCommand("/test".to_owned()).matches(&cmd);
    assert!(matched, "cmd did not match")
}

#[test]
fn matches_text() {
    let cmd = command_with("", "/test hello world");
    let (captures, matched) = MatchText::new(r"(?P<greeting>\S+?) (?P<name>\S+?)$")
        .unwrap()
        .matches(&cmd);
    assert!(matched, "cmd did not match");
    match captures {
        Some(caps) => {
            assert_eq!(caps.name(&"greeting".to_string()), Some("hello".to_string()));
            assert_eq!(caps.name(&"name".to_string()), Some("world".to_string()));
        }
        _ => assert!(false, "expected captures"),
    }
}

#[test]
fn exact_match_is_equality() {
    let m = MatchCommand("/deploy".to_owned());
    let (caps, matched) = m.matches(&command_with("/deploy", "now"));
    assert!(matched);
    assert!(caps.is_none());
    let (caps, matched) = m.matches(&command_with("/deploys", "now"));
    assert!(!matched);
    assert!(caps.is_none());
    let (_, matched) = m.matches(&command_with("/deplo", ""));
    assert!(!matched);
}

#[test]
fn prefix_match_is_starts_with() {
    let m = MatchSubCommand("help".to_owned());
    let (caps, matched) = m.matches(&command_with("/x", "help me please"));
    assert!(matched);
    assert!(caps.is_none());
    let (_, matched) = m.matches(&command_with("/x", "hel"));
    assert!(!matched);
    let (_, matched) = m.matches(&command_with("/x", "say help"));
    assert!(!matched);
    let empty = MatchSubCommand(String::new());
    let (_, matched) = empty.matches(&command_with("/x", "anything"));
    assert!(matched);
}

#[test]
fn pattern_non_match_has_no_captures() {
    let m = MatchText::new(r"(?P<n>\d+)").unwrap();
    let (caps, matched) = m.matches(&command_with("/x", "no digits here"));
    assert!(!matched);
    assert!(caps.is_none());
}

#[test]
fn pattern_captures_exact_groups() {
    let m = MatchText::new(r"(?P<verb>\w+) (\w+) (?P<rest>.*)").unwrap();
    let (caps, matched) = m.matches(&command_with("/x", "open the pod bay doors"));
    assert!(matched);
    let caps = caps.expect("expected captures");
    assert_eq!(caps.name(&"verb".to_string()), Some("open".to_string()));
    assert_eq!(caps.name(&"rest".to_string()), Some("pod bay doors".to_string()));
    assert_eq!(caps.name(&"absent".to_string()), None);
}

#[test]
fn bad_pattern_does_not_compile() {
    assert!(MatchText::new(r"foo(bar").is_none());
}

#[test]
fn matcher_variants_delegate() {
    let cmd = command_with("/go", "go north");
    let (_, m1) = Matcher::Command(MatchCommand("/go".to_owned())).matches(&cmd);
    assert!(m1);
    let (_, m2) = Matcher::SubCommand(MatchSubCommand("go".to_owned())).matches(&cmd);
    assert!(m2);
    let (caps, m3) = Matcher::Text(MatchText::new(r"go (?P<dir>\w+)").unwrap()).matches(&cmd);
    assert!(m3);
    assert_eq!(
        caps.expect("expected captures").name(&"dir".to_string()),
        Some("north".to_string())
    );
}
