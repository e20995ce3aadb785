use vstd::prelude::*;
use crate::mode::{Mode, mode_word};
use crate::error::WemuxError;
use crate::grammar::view_opt;
use crate::outcome::{Termination, child_failed, failure_spec, is_failure};

verus! {

/// The multiplexer program that every invocation runs.
pub const WEMUX_EXE: &'static str = "wemux";

/// The environment variables of the inbound connection, which are removed
/// before the multiplexer is started.
pub fn stripped_env_vars() -> (r: Vec<&'static str>)
    ensures
        r@.len() == 3,
        r@[0]@ == "SSH_CONNECTION"@,
        r@[1]@ == "SSH_CLIENT"@,
        r@[2]@ == "SSH_TTY"@,
{
    let mut v: Vec<&'static str> = Vec::new();
    v.push("SSH_CONNECTION");
    v.push("SSH_CLIENT");
    v.push("SSH_TTY");
    v
}

/// How the child's standard streams are connected.
#[derive(Debug, Clone, Copy, PartialEq, Eq, Structural)]
pub enum IoMode {
    /// Standard input and output are the caller's own.
    Interactive,
    /// Standard input is empty and standard output is collected.
    Captured,
}

/// One run of the multiplexer: its arguments after the program name, and how
/// its streams are connected.
pub struct Invocation {
    pub io: IoMode,
    pub args: Vec<String>,
}

impl Invocation {
    pub open spec fn args_view(&self) -> Seq<Seq<char>> {
        self.args@.map_values(|a: String| a@)
    }
}

/// What the caller does next.
pub enum Step {
    /// Run the invocation and report how it ended.
    Launch(Invocation),
    /// The run is over, with this result.
    Finish(Result<(), WemuxError>),
}

/// Where a session run stands.
#[derive(Debug, Clone, Copy, PartialEq, Eq, Structural)]
pub enum Phase {
    Idle,
    SessionTargeting,
    ActionDispatch,
    Terminal,
}

/// The arguments that select the session: `client reset` for the default
/// session, `client join <session>` for a named one.
pub open spec fn targeting_args(session: Option<Seq<char>>) -> Seq<Seq<char>> {
    match session {
        None => seq!["client"@, "reset"@],
        Some(s) => seq!["client"@, "join"@, s],
    }
}

/// `r` launches the invocation with these streams and arguments.
pub open spec fn launches(r: Step, io: IoMode, args: Seq<Seq<char>>) -> bool {
    match r {
        Step::Launch(inv) => inv.io == io && inv.args_view() == args,
        _ => false,
    }
}

/// `r` ends the run with the failure `f`, or with success where `f` is `None`.
pub open spec fn finishes(r: Step, f: Option<(Seq<char>, i32)>) -> bool {
    match (r, f) {
        (Step::Finish(Ok(())), None) => true,
        (Step::Finish(Err(e)), Some(g)) => is_failure(e, g),
        _ => false,
    }
}

/// The failure of a mode that has no client to launch.
pub open spec fn unsupported_mode(m: Mode) -> (Seq<char>, i32) {
    ("mode '"@ + mode_word(m) + "' is not supported"@, 1)
}

fn client_invocation(io: IoMode, sub: &str, session: Option<&str>) -> (r: Invocation)
    ensures
        r.io == io,
        r.args_view() == (match session {
            None => seq!["client"@, sub@],
            Some(s) => seq!["client"@, sub@, s@],
        }),
{
    let mut args: Vec<String> = Vec::new();
    args.push(String::from_str("client"));
    args.push(String::from_str(sub));
    if let Some(s) = session {
        args.push(String::from_str(s));
    }
    let r = Invocation { io, args };
    assert(r.args_view() =~= (match session {
        None => seq!["client"@, sub@],
        Some(s) => seq!["client"@, sub@, s@],
    }));
    r
}

/// The captured invocation that lists the sessions.
pub fn list_invocation() -> (r: Invocation)
    ensures
        r.io == IoMode::Captured,
        r.args_view() == seq!["client"@, "list"@],
{
    client_invocation(IoMode::Captured, "list", None)
}

/// The result of listing the sessions once the listing child has ended; on
/// success its output is shown as it is.
pub fn list_outcome(status: &Termination) -> (r: Result<(), WemuxError>)
    ensures
        finishes(Step::Finish(r), failure_spec(*status)),
{
    match child_failed(status) {
        Some(e) => Err(e),
        None => Ok(()),
    }
}

/// The exit code of the whole run.
pub fn exit_code(r: &Result<(), WemuxError>) -> (c: i32)
    ensures
        c == (match r {
            Ok(()) => 0,
            Err(e) => e.spec_code(),
        }),
{
    match r {
        Ok(()) => 0,
        Err(e) => e.code(),
    }
}

/// The line shown before a session is joined.
pub fn connect_message(mode: Mode, session: &Option<String>) -> (r: String)
    ensures
        r@ == (match session {
            None => "Connect to default session in "@ + mode_word(mode) + " mode..."@,
            Some(s) => "Connect to session '"@ + s@ + "' in "@ + mode_word(mode) + " mode..."@,
        }),
{
    match session {
        None => String::from_str("Connect to default session in ").concat(mode.name()).concat(
            " mode...",
        ),
        Some(s) => String::from_str("Connect to session '").concat(s.as_str()).concat(
            "' in ",
        ).concat(mode.name()).concat(" mode..."),
    }
}

/// A session run: select the session, then launch the client of the mode.
/// Any failure ends the run at once.
pub struct SessionRunner {
    pub mode: Mode,
    pub session: Option<String>,
    pub phase: Phase,
}

impl SessionRunner {
    pub fn new(mode: Mode, session: Option<String>) -> (r: Self)
        ensures
            r.mode == mode,
            r.session == session,
            r.phase == Phase::Idle,
    {
        SessionRunner { mode, session, phase: Phase::Idle }
    }

    /// Starts the run: selects the session for a mode that has a client to
    /// launch (`Mirror`, `Pair`), and ends the run with an error for any other.
    pub fn start(&mut self) -> (r: Step)
        requires
            old(self).phase == Phase::Idle,
        ensures
            final(self).mode == old(self).mode,
            final(self).session == old(self).session,
            old(self).mode == Mode::Mirror || old(self).mode == Mode::Pair ==> final(self).phase
                == Phase::SessionTargeting && launches(
                r,
                IoMode::Captured,
                targeting_args(view_opt(old(self).session)),
            ),
            !(old(self).mode == Mode::Mirror || old(self).mode == Mode::Pair) ==> final(self).phase
                == Phase::Terminal && finishes(r, Some(unsupported_mode(old(self).mode))),
    {
        match self.mode {
            Mode::Mirror | Mode::Pair => {
                self.phase = Phase::SessionTargeting;
                let inv = match &self.session {
                    None => client_invocation(IoMode::Captured, "reset", None),
                    Some(s) => client_invocation(IoMode::Captured, "join", Some(s.as_str())),
                };
                Step::Launch(inv)
            },
            _ => {
                self.phase = Phase::Terminal;
                let msg = String::from_str("mode '").concat(self.mode.name()).concat(
                    "' is not supported",
                );
                Step::Finish(Err(WemuxError::new(msg.as_str(), 1)))
            },
        }
    }

    /// Takes how the last launched child ended. After the session is
    /// selected the client of the mode is launched; after the client ends, or
    /// after any failure, the run is over.
    pub fn on_exit(&mut self, status: &Termination) -> (r: Step)
        requires
            old(self).phase == Phase::SessionTargeting || old(self).phase == Phase::ActionDispatch,
            old(self).mode == Mode::Mirror || old(self).mode == Mode::Pair,
        ensures
            final(self).mode == old(self).mode,
            final(self).session == old(self).session,
            old(self).phase == Phase::SessionTargeting && failure_spec(*status) is None
                ==> final(self).phase == Phase::ActionDispatch && launches(
                r,
                IoMode::Interactive,
                seq!["client"@, mode_word(old(self).mode)],
            ),
            old(self).phase == Phase::ActionDispatch || failure_spec(*status) is Some
                ==> final(self).phase == Phase::Terminal && finishes(r, failure_spec(*status)),
    {
        match child_failed(status) {
            Some(e) => {
                self.phase = Phase::Terminal;
                Step::Finish(Err(e))
            },
            None => if self.phase == Phase::SessionTargeting {
                self.phase = Phase::ActionDispatch;
                Step::Launch(client_invocation(IoMode::Interactive, self.mode.name(), None))
            } else {
                self.phase = Phase::Terminal;
                Step::Finish(Ok(()))
            },
        }
    }
}

} // verus!
