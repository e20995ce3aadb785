use wemux_login::{CliArgs, CliCommand, Mode, Resolution, unsupported_message};

fn session_of(c: &CliCommand) -> Option<String> {
    match c {
        CliCommand::Mirror(s) | CliCommand::Pair(s) | CliCommand::Rogue(s) => s.clone(),
        _ => None,
    }
}

fn args(command: Option<CliCommand>) -> CliArgs {
    CliArgs {
        cmd_help: false,
        cmd_list: false,
        cmd_mirror: false,
        cmd_pair: false,
        cmd_rogue: false,
        arg_SESSION: None,
        arg_command: command,
    }
}

#[test]
fn parse_literal_words() {
    assert!(matches!(CliCommand::parse("help"), CliCommand::Help));
    assert!(matches!(CliCommand::parse("list"), CliCommand::List));
    assert!(matches!(CliCommand::parse(" list"), CliCommand::Unknown(_)));
}

#[test]
fn parse_actions_without_session() {
    assert!(matches!(CliCommand::parse("mirror"), CliCommand::Mirror(None)));
    assert!(matches!(CliCommand::parse("pair"), CliCommand::Pair(None)));
    assert!(matches!(CliCommand::parse("rogue"), CliCommand::Rogue(None)));
    assert!(matches!(CliCommand::parse("pair   "), CliCommand::Pair(None)));
}

#[test]
fn parse_actions_with_session() {
    let c = CliCommand::parse("pair work");
    assert!(matches!(c, CliCommand::Pair(_)));
    assert_eq!(session_of(&c), Some("work".to_string()));
    let c = CliCommand::parse("mirror  my-session_2 \t");
    assert!(matches!(c, CliCommand::Mirror(_)));
    assert_eq!(session_of(&c), Some("my-session_2".to_string()));
    let c = CliCommand::parse("rogue\tcafé");
    assert!(matches!(c, CliCommand::Rogue(_)));
    assert_eq!(session_of(&c), Some("café".to_string()));
}

#[test]
fn parse_leading_white_space() {
    let c = CliCommand::parse("  mirror x");
    assert!(matches!(c, CliCommand::Mirror(_)));
    assert_eq!(session_of(&c), Some("x".to_string()));
}

#[test]
fn parse_rejects_malformed_strings() {
    for text in ["bogus", "", "   ", "Mirror", "mirrorx", "pair a b", "pair a!", "lists"] {
        match CliCommand::parse(text) {
            CliCommand::Unknown(t) => assert_eq!(t, text),
            _ => panic!("accepted {:?}", text),
        }
    }
}

#[test]
fn parse_non_breaking_space_separates() {
    let c = CliCommand::parse("pair\u{a0}work");
    assert_eq!(session_of(&c), Some("work".to_string()));
}

#[test]
fn assemble_follows_token_check() {
    assert!(matches!(CliCommand::assemble("pair x", false), CliCommand::Unknown(_)));
    assert!(matches!(CliCommand::assemble("pair x", true), CliCommand::Pair(Some(_))));
    assert!(matches!(CliCommand::assemble("pair", false), CliCommand::Pair(None)));
    assert!(matches!(CliCommand::assemble("help", false), CliCommand::Help));
}

#[test]
fn render_commands() {
    assert_eq!(CliCommand::Help.render(), "help");
    assert_eq!(CliCommand::List.render(), "list");
    assert_eq!(CliCommand::Mirror(None).render(), "mirror");
    assert_eq!(CliCommand::Pair(Some("work".to_string())).render(), "pair work");
    assert_eq!(CliCommand::Unknown("x y".to_string()).render(), "x y");
}

#[test]
fn render_round_trip() {
    for text in ["help", "list", "mirror", "pair work", "  rogue   s-1  ", "mirror\tab_c"] {
        let c = CliCommand::parse(text);
        let again = CliCommand::parse(&c.render());
        assert_eq!(c.render(), again.render());
        assert_eq!(session_of(&c), session_of(&again));
        assert_eq!(std::mem::discriminant(&c), std::mem::discriminant(&again));
    }
}

#[test]
fn flags_and_string_agree() {
    for (word, flag) in [("mirror", 0), ("pair", 1), ("rogue", 2)] {
        for session in [None, Some("dev")] {
            let mut a = args(None);
            a.cmd_mirror = flag == 0;
            a.cmd_pair = flag == 1;
            a.cmd_rogue = flag == 2;
            a.arg_SESSION = session.map(|s| s.to_string());
            let from_flags = a.flag_command().unwrap();
            let text = match session {
                Some(s) => format!("{} {}", word, s),
                None => word.to_string(),
            };
            let from_string = CliCommand::parse(&text);
            assert_eq!(std::mem::discriminant(&from_flags), std::mem::discriminant(&from_string));
            assert_eq!(session_of(&from_flags), session_of(&from_string));
        }
    }
}

#[test]
fn flag_command_none_without_flags() {
    assert!(args(None).flag_command().is_none());
    let mut a = args(None);
    a.cmd_help = true;
    assert!(matches!(a.flag_command(), Some(CliCommand::Help)));
}

#[test]
fn mode_prefers_command_string() {
    let mut a = args(Some(CliCommand::Rogue(None)));
    a.cmd_pair = true;
    assert_eq!(a.mode(), Some(Mode::Rogue));
    let mut a = args(Some(CliCommand::Help));
    a.cmd_list = true;
    assert_eq!(a.mode(), Some(Mode::ListSessions));
    assert_eq!(args(None).mode(), None);
}

#[test]
fn absent_action_resolves_to_mirror() {
    match args(None).resolve() {
        Resolution::Proceed(m, s) => {
            assert_eq!(m, Mode::Mirror);
            assert_eq!(s, None);
        }
        _ => panic!("expected to proceed"),
    }
}

#[test]
fn positional_session_wins() {
    let mut a = args(Some(CliCommand::parse("pair bar")));
    a.cmd_pair = true;
    a.arg_SESSION = Some("foo".to_string());
    assert_eq!(a.session(), Some("foo".to_string()));
    match a.resolve() {
        Resolution::Proceed(m, s) => {
            assert_eq!(m, Mode::Pair);
            assert_eq!(s, Some("foo".to_string()));
        }
        _ => panic!("expected to proceed"),
    }
    let a = args(Some(CliCommand::parse("pair bar")));
    assert_eq!(a.session(), Some("bar".to_string()));
}

#[test]
fn help_resolution() {
    let mut a = args(None);
    a.cmd_help = true;
    let r = a.resolve();
    assert!(matches!(r, Resolution::ShowHelp));
    assert_eq!(r.exit_code(), Some(0));
    let r = args(Some(CliCommand::parse("help"))).resolve();
    assert!(matches!(r, Resolution::ShowHelp));
}

#[test]
fn unknown_command_scenario() {
    let r = args(Some(CliCommand::parse("bogus"))).resolve();
    assert_eq!(r.exit_code(), Some(1));
    match r {
        Resolution::Unsupported(t) => {
            assert_eq!(t, "bogus");
            let msg = unsupported_message(&t);
            assert_eq!(
                msg,
                "Unsupported command 'bogus'.\nSee 'wemux-login help' for a list of supported commands."
            );
        }
        _ => panic!("expected an unsupported command"),
    }
}

#[test]
fn proceed_has_no_exit_code() {
    let r = args(Some(CliCommand::parse("list"))).resolve();
    assert_eq!(r.exit_code(), None);
    assert!(matches!(r, Resolution::Proceed(Mode::ListSessions, None)));
}

#[test]
fn trailing_non_breaking_space_is_white_space() {
    assert!(matches!(CliCommand::parse("pair\u{a0}"), CliCommand::Pair(None)));
}
