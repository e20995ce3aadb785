use vstd::prelude::*;
use crate::mode::{Mode, mode_word};
use crate::grammar::{
    scan, scan_spec, same_text, view_opt, is_space, skip_space, back_space, action_at,
    lemma_scan_token,
};

verus! {

/// Whether the regular expression `pattern` matches somewhere in `text`, or
/// `None` where `pattern` does not compile.
pub uninterp spec fn regex_search(pattern: Seq<char>, text: Seq<char>) -> Option<bool>;

/// Relies on regex::Regex::new, which compiles `pattern` or fails with an
/// error, and regex::Regex::is_match, which tells whether the compiled
/// expression matches somewhere in `text`.
#[verifier::external_body]
fn search(pattern: &str, text: &str) -> (r: Option<bool>)
    ensures
        r == regex_search(pattern@, text@),
{
    match regex::Regex::new(pattern) {
        Ok(re) => Some(re.is_match(text)),
        Err(_) => None,
    }
}

/// A session token is a run of word characters and hyphens, and nothing else.
pub open spec fn session_pattern() -> Seq<char> {
    "^[\\w\\-]+$"@
}

pub open spec fn is_session_token(t: Seq<char>) -> bool {
    regex_search(session_pattern(), t) == Some(true)
}

/// A command, whichever way it was given.
pub enum CliCommand {
    Help,
    List,
    Mirror(Option<String>),
    Pair(Option<String>),
    Rogue(Option<String>),
    Unknown(String),
}

/// What a command means: an action with the session it targets (`None` for
/// the default session), or text that was not understood.
pub enum CommandView {
    Help,
    List,
    Action(Mode, Option<Seq<char>>),
    Unknown(Seq<char>),
}

impl View for CliCommand {
    type V = CommandView;

    open spec fn view(&self) -> CommandView {
        match self {
            CliCommand::Help => CommandView::Help,
            CliCommand::List => CommandView::List,
            CliCommand::Mirror(s) => CommandView::Action(Mode::Mirror, view_opt(*s)),
            CliCommand::Pair(s) => CommandView::Action(Mode::Pair, view_opt(*s)),
            CliCommand::Rogue(s) => CommandView::Action(Mode::Rogue, view_opt(*s)),
            CliCommand::Unknown(t) => CommandView::Unknown(t@),
        }
    }
}

/// The candidate token of a forced-command string, if it has one.
pub open spec fn candidate_token(s: Seq<char>) -> Option<Seq<char>> {
    match scan_spec(s) {
        Some((_, Some(t))) => Some(t),
        _ => None,
    }
}

/// The command that a forced-command string gives, where `token_ok` tells
/// whether its candidate session token, if it has one, is well formed.
pub open spec fn parse_with(s: Seq<char>, token_ok: bool) -> CommandView {
    if s == "help"@ {
        CommandView::Help
    } else if s == "list"@ {
        CommandView::List
    } else {
        match scan_spec(s) {
            Some((m, None)) => CommandView::Action(m, None),
            Some((m, Some(t))) => if token_ok {
                CommandView::Action(m, Some(t))
            } else {
                CommandView::Unknown(s)
            },
            None => CommandView::Unknown(s),
        }
    }
}

/// The command that a forced-command string gives.
pub open spec fn parse_spec(s: Seq<char>) -> CommandView {
    match candidate_token(s) {
        Some(t) => parse_with(s, is_session_token(t)),
        None => parse_with(s, true),
    }
}

/// The text of a command as it would be typed.
pub open spec fn render_spec(c: CommandView) -> Seq<char> {
    match c {
        CommandView::Help => "help"@,
        CommandView::List => "list"@,
        CommandView::Action(m, None) => mode_word(m),
        CommandView::Action(m, Some(t)) => mode_word(m) + " "@ + t,
        CommandView::Unknown(t) => t,
    }
}

fn with_session(m: Mode, session: Option<String>) -> (r: CliCommand)
    requires
        m != Mode::ListSessions,
    ensures
        r@ == CommandView::Action(m, view_opt(session)),
{
    match m {
        Mode::Mirror => CliCommand::Mirror(session),
        Mode::Pair => CliCommand::Pair(session),
        _ => CliCommand::Rogue(session),
    }
}

impl CliCommand {
    /// Builds the command of a forced-command string once it is known whether
    /// its candidate session token is well formed.
    pub fn assemble(text: &str, token_ok: bool) -> (r: CliCommand)
        ensures
            r@ == parse_with(text@, token_ok),
    {
        if same_text(text, "help") {
            return CliCommand::Help;
        }
        if same_text(text, "list") {
            return CliCommand::List;
        }
        match scan(text) {
            Some((m, None)) => with_session(m, None),
            Some((m, Some(t))) => if token_ok {
                with_session(m, Some(t))
            } else {
                CliCommand::Unknown(String::from_str(text))
            },
            None => CliCommand::Unknown(String::from_str(text)),
        }
    }

    /// Reads a forced-command string: `help`, `list`, or an action word with
    /// an optional session token; anything else is kept as unknown text.
    pub fn parse(text: &str) -> (r: CliCommand)
        ensures
            r@ == parse_spec(text@),
    {
        let token_ok = match scan(text) {
            Some((_, Some(t))) => match search("^[\\w\\-]+$", t.as_str()) {
                Some(b) => b,
                None => false,
            },
            _ => true,
        };
        CliCommand::assemble(text, token_ok)
    }

    /// The text of this command as it would be typed.
    pub fn render(&self) -> (r: String)
        ensures
            r@ == render_spec(self@),
    {
        match self {
            CliCommand::Help => String::from_str("help"),
            CliCommand::List => String::from_str("list"),
            CliCommand::Mirror(s) => render_action(Mode::Mirror, s),
            CliCommand::Pair(s) => render_action(Mode::Pair, s),
            CliCommand::Rogue(s) => render_action(Mode::Rogue, s),
            CliCommand::Unknown(t) => t.clone(),
        }
    }
}

fn render_action(m: Mode, session: &Option<String>) -> (r: String)
    ensures
        r@ == render_spec(CommandView::Action(m, view_opt(*session))),
{
    match session {
        None => String::from_str(m.name()),
        Some(t) => String::from_str(m.name()).concat(" ").concat(t.as_str()),
    }
}

/// An action written out as text is read back as the same action, where its
/// session token is well formed and has no white space at either end.
pub proof fn lemma_parse_rendered_action(m: Mode, ot: Option<Seq<char>>)
    requires
        m != Mode::ListSessions,
        ot matches Some(t) ==> t.len() > 0 && !is_space(t[0]) && !is_space(t[t.len() - 1])
            && is_session_token(t),
    ensures
        parse_spec(render_spec(CommandView::Action(m, ot))) == CommandView::Action(m, ot),
{
    reveal_strlit("help");
    reveal_strlit("list");
    reveal_strlit("mirror");
    reveal_strlit("pair");
    reveal_strlit("rogue");
    reveal_strlit(" ");
    let w = mode_word(m);
    let x = render_spec(CommandView::Action(m, ot));
    assert(x.subrange(0, w.len() as int) == w);
    assert(x[0] == w[0]);
    assert(x != "help"@);
    assert(x != "list"@);
    assert(skip_space(x, 0) == 0);
    match ot {
        None => {
            assert(x == w);
            assert(back_space(x, x.len() as int) == x.len());
        },
        Some(t) => {
            assert(x[x.len() - 1] == t[t.len() - 1]);
            assert(back_space(x, x.len() as int) == x.len());
            let e = w.len() as int;
            assert(x[e] == ' ');
            assert(x[e + 1] == t[0]);
            assert(skip_space(x, e + 1) == e + 1);
            assert(skip_space(x, e) == e + 1);
            assert(x.subrange(e + 1, x.len() as int) == t);
        },
    }
    assert(action_at(x, 0, x.len() as int) == Some(m));
}

/// Rendering a command read from a well-formed forced-command string and
/// reading the text again gives the same action and session.
pub proof fn lemma_render_round_trip(s: Seq<char>)
    requires
        !(parse_spec(s) is Unknown),
    ensures
        parse_spec(render_spec(parse_spec(s))) == parse_spec(s),
{
    reveal_strlit("help");
    reveal_strlit("list");
    if let CommandView::Action(m, ot) = parse_spec(s) {
        lemma_scan_token(s);
        lemma_parse_rendered_action(m, ot);
    }
}

} // verus!
