use vstd::prelude::*;
use crate::mode::Mode;
use crate::grammar::{is_space, view_opt};
use crate::command::{
    CliCommand, CommandView, parse_spec, render_spec, is_session_token,
    lemma_parse_rendered_action,
};

verus! {

/// The arguments of one invocation: the subcommand flags and positional
/// session of the structured form, and the command string of `-c`.
#[allow(non_snake_case)]
pub struct CliArgs {
    pub cmd_help: bool,
    pub cmd_list: bool,
    pub cmd_mirror: bool,
    pub cmd_pair: bool,
    pub cmd_rogue: bool,
    pub arg_SESSION: Option<String>,
    pub arg_command: Option<CliCommand>,
}

/// What the user asked for.
pub enum Resolution {
    /// Show the usage text and end with exit code 0.
    ShowHelp,
    /// The command string was not understood: report it and end with exit code 1.
    Unsupported(String),
    /// Run the mode against the session, or the default session for `None`.
    Proceed(Mode, Option<String>),
}

/// The mode that a command names, if any.
pub open spec fn command_mode(c: CommandView) -> Option<Mode> {
    match c {
        CommandView::List => Some(Mode::ListSessions),
        CommandView::Action(m, _) => Some(m),
        _ => None,
    }
}

/// The session that a command names, if any.
pub open spec fn command_session(c: CommandView) -> Option<Seq<char>> {
    match c {
        CommandView::Action(_, s) => s,
        _ => None,
    }
}

/// The command of the structured form: the first subcommand flag that is set,
/// with the positional session for an action.
pub open spec fn flags_command(
    help: bool,
    list: bool,
    mirror: bool,
    pair: bool,
    rogue: bool,
    session: Option<Seq<char>>,
) -> Option<CommandView> {
    if help {
        Some(CommandView::Help)
    } else if list {
        Some(CommandView::List)
    } else if mirror {
        Some(CommandView::Action(Mode::Mirror, session))
    } else if pair {
        Some(CommandView::Action(Mode::Pair, session))
    } else if rogue {
        Some(CommandView::Action(Mode::Rogue, session))
    } else {
        None
    }
}

impl CliArgs {
    /// The mode named by the subcommand flags alone.
    pub open spec fn flag_mode(&self) -> Option<Mode> {
        if self.cmd_list {
            Some(Mode::ListSessions)
        } else if self.cmd_mirror {
            Some(Mode::Mirror)
        } else if self.cmd_pair {
            Some(Mode::Pair)
        } else if self.cmd_rogue {
            Some(Mode::Rogue)
        } else {
            None
        }
    }

    /// The mode named by the command string wins over the flags.
    pub open spec fn mode_spec(&self) -> Option<Mode> {
        match self.arg_command {
            Some(c) => match command_mode(c@) {
                Some(m) => Some(m),
                None => self.flag_mode(),
            },
            None => self.flag_mode(),
        }
    }

    /// The positional session wins over the session of the command string.
    pub open spec fn session_spec(&self) -> Option<Seq<char>> {
        match self.arg_SESSION {
            Some(s) => Some(s@),
            None => match self.arg_command {
                Some(c) => command_session(c@),
                None => None,
            },
        }
    }

    pub open spec fn is_unknown(&self) -> bool {
        self.arg_command matches Some(CliCommand::Unknown(_))
    }

    pub open spec fn is_help(&self) -> bool {
        self.cmd_help || self.arg_command matches Some(CliCommand::Help)
    }

    pub fn mode(&self) -> (r: Option<Mode>)
        ensures
            r == self.mode_spec(),
    {
        let from_command = match &self.arg_command {
            Some(CliCommand::List) => Some(Mode::ListSessions),
            Some(CliCommand::Mirror(_)) => Some(Mode::Mirror),
            Some(CliCommand::Pair(_)) => Some(Mode::Pair),
            Some(CliCommand::Rogue(_)) => Some(Mode::Rogue),
            _ => None,
        };
        if from_command.is_some() {
            from_command
        } else if self.cmd_list {
            Some(Mode::ListSessions)
        } else if self.cmd_mirror {
            Some(Mode::Mirror)
        } else if self.cmd_pair {
            Some(Mode::Pair)
        } else if self.cmd_rogue {
            Some(Mode::Rogue)
        } else {
            None
        }
    }

    pub fn session(&self) -> (r: Option<String>)
        ensures
            view_opt(r) == self.session_spec(),
            self.arg_SESSION matches Some(s) ==> view_opt(r) == Some(s@),
    {
        match &self.arg_SESSION {
            Some(s) => Some(s.clone()),
            None => match &self.arg_command {
                Some(CliCommand::Mirror(Some(s))) => Some(s.clone()),
                Some(CliCommand::Pair(Some(s))) => Some(s.clone()),
                Some(CliCommand::Rogue(Some(s))) => Some(s.clone()),
                _ => None,
            },
        }
    }

    /// The command that the structured form gives, if a subcommand flag is set.
    pub fn flag_command(&self) -> (r: Option<CliCommand>)
        ensures
            match r {
                Some(c) => flags_command(
                    self.cmd_help,
                    self.cmd_list,
                    self.cmd_mirror,
                    self.cmd_pair,
                    self.cmd_rogue,
                    view_opt(self.arg_SESSION),
                ) == Some(c@),
                None => flags_command(
                    self.cmd_help,
                    self.cmd_list,
                    self.cmd_mirror,
                    self.cmd_pair,
                    self.cmd_rogue,
                    view_opt(self.arg_SESSION),
                ) is None,
            },
    {
        if self.cmd_help {
            Some(CliCommand::Help)
        } else if self.cmd_list {
            Some(CliCommand::List)
        } else if self.cmd_mirror {
            Some(CliCommand::Mirror(self.arg_SESSION.clone()))
        } else if self.cmd_pair {
            Some(CliCommand::Pair(self.arg_SESSION.clone()))
        } else if self.cmd_rogue {
            Some(CliCommand::Rogue(self.arg_SESSION.clone()))
        } else {
            None
        }
    }

    /// Decides what to do before anything is run: help and unknown command
    /// strings end the run; otherwise the mode (`Mirror` where none is named)
    /// and the session are settled.
    pub fn resolve(&self) -> (r: Resolution)
        ensures
            self.is_help() <==> r is ShowHelp,
            match r {
                Resolution::ShowHelp => true,
                Resolution::Unsupported(t) => !self.is_help() && match self.arg_command {
                    Some(CliCommand::Unknown(u)) => t@ == u@,
                    _ => false,
                },
                Resolution::Proceed(m, s) => !self.is_help() && !self.is_unknown()
                    && m == (match self.mode_spec() {
                        Some(n) => n,
                        None => Mode::Mirror,
                    })
                    && view_opt(s) == self.session_spec(),
            },
            !self.is_help() && self.is_unknown() ==> r is Unsupported,
            !self.is_help() && !self.is_unknown() && self.mode_spec() is None ==> (
            r matches Resolution::Proceed(Mode::Mirror, _)),
            match (r, self.arg_SESSION) {
                (Resolution::Proceed(_, s), Some(p)) => view_opt(s) == Some(p@),
                _ => true,
            },
    {
        if self.cmd_help {
            return Resolution::ShowHelp;
        }
        match &self.arg_command {
            Some(CliCommand::Help) => Resolution::ShowHelp,
            Some(CliCommand::Unknown(t)) => Resolution::Unsupported(t.clone()),
            _ => {
                let m = match self.mode() {
                    Some(n) => n,
                    None => Mode::Mirror,
                };
                Resolution::Proceed(m, self.session())
            },
        }
    }
}

impl Resolution {
    /// The exit code that ends the run at once, if the run ends here.
    pub fn exit_code(&self) -> (r: Option<i32>)
        ensures
            r == (match self {
                Resolution::ShowHelp => Some(0i32),
                Resolution::Unsupported(_) => Some(1i32),
                Resolution::Proceed(..) => None,
            }),
    {
        match self {
            Resolution::ShowHelp => Some(0),
            Resolution::Unsupported(_) => Some(1),
            Resolution::Proceed(..) => None,
        }
    }
}

/// The diagnostic for a command string that was not understood.
pub fn unsupported_message(cmd: &str) -> (r: String)
    ensures
        r@ == "Unsupported command '"@ + cmd@
            + "'.\nSee 'wemux-login help' for a list of supported commands."@,
{
    String::from_str("Unsupported command '").concat(cmd).concat(
        "'.\nSee 'wemux-login help' for a list of supported commands.",
    )
}

/// An action with an optional session gives the same command whether it comes
/// from the subcommand flags with the positional session or from the command
/// string that spells it out, where the session is a well-formed token.
pub proof fn lemma_flags_match_string(m: Mode, session: Option<Seq<char>>)
    requires
        m != Mode::ListSessions,
        session matches Some(t) ==> t.len() > 0 && is_session_token(t)
            && forall|i: int| 0 <= i < t.len() ==> !is_space(#[trigger] t[i]),
    ensures
        flags_command(
            false,
            false,
            m == Mode::Mirror,
            m == Mode::Pair,
            m == Mode::Rogue,
            session,
        ) == Some(parse_spec(render_spec(CommandView::Action(m, session)))),
{
    if let Some(t) = session {
        assert(!is_space(t[0]));
        assert(!is_space(t[t.len() - 1]));
    }
    lemma_parse_rendered_action(m, session);
}

} // verus!
