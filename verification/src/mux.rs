//! The multiplexer collaborator, seen from the core: a capability that can
//! probe for a session, submit one creation batch, and switch or attach a
//! client.  Every implementation carries a log of the calls it has issued,
//! so the reconciliation pipeline can state which multiplexer commands an
//! invocation performs and in what order.

use vstd::prelude::*;
use crate::errors::MuxError;
use tmux_interface::AttachSession;
use tmux_interface::HasSession;
use tmux_interface::NewSession;
use tmux_interface::NewWindow;
use tmux_interface::SwitchClient;
use tmux_interface::Tmux;
use tmux_interface::TmuxCommands;

verus! {

/// One multiplexer call, as recorded in a capability's log.
pub enum MuxCall {
    /// The read-only liveness probe, with the answer it reported.
    Probe { name: Seq<char>, found: bool },
    /// Creation of a detached session running the layout's first command.
    NewSession { name: Seq<char>, dir: Seq<char>, cmd: Seq<char> },
    /// Addition of one detached window to the session.
    NewWindow { name: Seq<char>, dir: Seq<char>, cmd: Seq<char> },
    /// Redirection of an already-attached client to the session.
    SwitchClient { name: Seq<char>, client: Option<Seq<char>> },
    /// A foreground attach that takes over the invoking terminal.
    Attach { name: Seq<char> },
}

/// The view of an optional client identifier.
pub open spec fn opt_str_view(c: Option<&str>) -> Option<Seq<char>> {
    match c {
        Some(s) => Some(s@),
        None => None,
    }
}

/// The one atomic creation batch for a session: the first command opens the
/// session itself, every further command adds a window, all rooted at the
/// same start directory and all detached.
pub open spec fn batch_calls(name: Seq<char>, dir: Seq<char>, layout: Seq<Seq<char>>) -> Seq<
    MuxCall,
> {
    seq![MuxCall::NewSession { name, dir, cmd: layout[0] }] + Seq::new(
        (layout.len() - 1) as nat,
        |i: int| MuxCall::NewWindow { name, dir, cmd: layout[i + 1] },
    )
}

/// The creation batch has one call per layout command: a session-creation
/// call with the first command, then window-addition calls with the rest,
/// in order, all rooted at the same start directory.
pub proof fn lemma_batch_shape(name: Seq<char>, dir: Seq<char>, layout: Seq<Seq<char>>)
    requires
        layout.len() >= 1,
    ensures
        batch_calls(name, dir, layout).len() == layout.len(),
        batch_calls(name, dir, layout)[0] == (MuxCall::NewSession { name, dir, cmd: layout[0] }),
        forall|i: int|
            1 <= i < layout.len() ==> batch_calls(name, dir, layout)[i] == (MuxCall::NewWindow {
                name,
                dir,
                cmd: layout[i],
            }),
{
}

/// The multiplexer capability.  The contracts say only how each call
/// extends the log: what a real multiplexer answers is decided by the
/// outside world, so nothing is promised of the returned values.
pub trait Multiplexer {
    /// The multiplexer calls this capability has issued, oldest first.
    spec fn log(&self) -> Seq<MuxCall>;

    /// The read-only liveness probe: is a session with this name
    /// registered?
    fn has_session(&mut self, name: &str) -> (r: Result<bool, MuxError>)
        ensures
            r matches Ok(found) ==> final(self).log() == old(self).log().push(
                MuxCall::Probe { name: name@, found },
            ),
            r is Err ==> final(self).log() == old(self).log(),
    ;

    /// Submits the whole creation batch as one invocation.  The batch is
    /// issued whether or not the multiplexer accepts it; a failure reports
    /// that the session must not be considered constructed.
    fn create_session(&mut self, name: &str, dir: &str, layout: &Vec<String>) -> (r: Result<
        (),
        MuxError,
    >)
        requires
            layout@.len() >= 1,
        ensures
            final(self).log() == old(self).log() + batch_calls(name@, dir@, layout.deep_view()),
    ;

    /// Redirects a client (the invoking one when `client` is `None`) to the
    /// session, without stacking nested sessions.
    fn switch_client(&mut self, name: &str, client: Option<&str>) -> (r: Result<(), MuxError>)
        ensures
            final(self).log() == old(self).log().push(
                MuxCall::SwitchClient { name: name@, client: opt_str_view(client) },
            ),
    ;

    /// Attaches the invoking terminal to the session in the foreground.
    fn attach(&mut self, name: &str) -> (r: Result<(), MuxError>)
        ensures
            final(self).log() == old(self).log().push(MuxCall::Attach { name: name@ }),
    ;
}

/// The real multiplexer: shells out to tmux through `tmux_interface`.  The
/// log is a ghost record of the invocations the methods issue.
pub struct TmuxMux {
    calls: Ghost<Seq<MuxCall>>,
}

impl TmuxMux {
    /// A fresh capability with an empty log.
    pub fn new() -> (r: TmuxMux)
        ensures
            r.log() == Seq::<MuxCall>::empty(),
    {
        TmuxMux { calls: Ghost(Seq::empty()) }
    }
}

/// Relies on `tmux_interface::Tmux::output` running `tmux has-session -t
/// <name>`: the exit status reports whether the session exists.  Nothing is
/// promised of the answer: the session table belongs to the multiplexer.
#[verifier::external_body]
fn tmux_has_session(name: &str) -> (r: Result<bool, MuxError>) {
    match Tmux::with_command(HasSession::new().target_session(name)).output() {
        Ok(o) => Ok(o.status().success()),
        Err(_) => Err(MuxError),
    }
}

/// Relies on `tmux_interface::Tmux::status` running one `tmux` invocation
/// holding `new-session -d` for the layout's first command and `new-window
/// -d` for each further one, all with the same start directory; a non-zero
/// exit reports a rejected batch.
#[verifier::external_body]
fn tmux_create_session(name: &str, dir: &str, layout: &Vec<String>) -> (r: Result<(), MuxError>)
    requires
        layout@.len() >= 1,
{
    let mut cmds = TmuxCommands::new();
    let first = NewSession::new().session_name(name).shell_command(&layout[0]);
    cmds.push(first.start_directory(dir).detached());
    for cmd in &layout[1..] {
        let w = NewWindow::new().target_window(name).shell_command(cmd);
        cmds.push(w.start_directory(dir).detached());
    }
    match Tmux::with_commands(cmds).status() {
        Ok(s) if s.success() => Ok(()),
        _ => Err(MuxError),
    }
}

/// Relies on `tmux_interface::Tmux::status` running `tmux switch-client -t
/// <name>`, with `-c <client>` when a client is given.
#[verifier::external_body]
fn tmux_switch_client(name: &str, client: Option<&str>) -> (r: Result<(), MuxError>) {
    let cmd = match client {
        Some(c) => SwitchClient::new().target_session(name).target_client(c),
        None => SwitchClient::new().target_session(name),
    };
    match Tmux::with_command(cmd).status() {
        Ok(s) if s.success() => Ok(()),
        _ => Err(MuxError),
    }
}

/// Relies on `tmux_interface::Tmux::output` running `tmux attach-session
/// -t <name>`, which takes over the invoking terminal.
#[verifier::external_body]
fn tmux_attach(name: &str) -> (r: Result<(), MuxError>) {
    match Tmux::with_command(AttachSession::new().target_session(name)).output() {
        Ok(o) if o.status().success() => Ok(()),
        _ => Err(MuxError),
    }
}

impl Multiplexer for TmuxMux {
    closed spec fn log(&self) -> Seq<MuxCall> {
        self.calls@
    }

    fn has_session(&mut self, name: &str) -> (r: Result<bool, MuxError>) {
        let r = tmux_has_session(name);
        match &r {
            Ok(found) => {
                self.calls = Ghost(self.calls@.push(MuxCall::Probe { name: name@, found: *found }));
            },
            Err(_) => {
            },
        }
        r
    }

    fn create_session(&mut self, name: &str, dir: &str, layout: &Vec<String>) -> (r: Result<
        (),
        MuxError,
    >) {
        let r = tmux_create_session(name, dir, layout);
        self.calls = Ghost(self.calls@ + batch_calls(name@, dir@, layout.deep_view()));
        r
    }

    fn switch_client(&mut self, name: &str, client: Option<&str>) -> (r: Result<(), MuxError>) {
        let r = tmux_switch_client(name, client);
        self.calls = Ghost(
            self.calls@.push(MuxCall::SwitchClient { name: name@, client: opt_str_view(client) }),
        );
        r
    }

    fn attach(&mut self, name: &str) -> (r: Result<(), MuxError>) {
        let r = tmux_attach(name);
        self.calls = Ghost(self.calls@.push(MuxCall::Attach { name: name@ }));
        r
    }
}

/// One multiplexer call as the fake capability records it, with plain
/// values that a test can inspect.
#[derive(Debug, Clone, PartialEq, Eq)]
pub enum RecordedCall {
    Probe { name: String, found: bool },
    NewSession { name: String, dir: String, cmd: String },
    NewWindow { name: String, dir: String, cmd: String },
    SwitchClient { name: String, client: Option<String> },
    Attach { name: String },
}

/// The view of an optional recorded client identifier.
pub open spec fn opt_string_view(c: Option<String>) -> Option<Seq<char>> {
    match c {
        Some(s) => Some(s@),
        None => None,
    }
}

impl View for RecordedCall {
    type V = MuxCall;

    open spec fn view(&self) -> MuxCall {
        match self {
            RecordedCall::Probe { name, found } => MuxCall::Probe { name: name@, found: *found },
            RecordedCall::NewSession { name, dir, cmd } => MuxCall::NewSession {
                name: name@,
                dir: dir@,
                cmd: cmd@,
            },
            RecordedCall::NewWindow { name, dir, cmd } => MuxCall::NewWindow {
                name: name@,
                dir: dir@,
                cmd: cmd@,
            },
            RecordedCall::SwitchClient { name, client } => MuxCall::SwitchClient {
                name: name@,
                client: opt_string_view(*client),
            },
            RecordedCall::Attach { name } => MuxCall::Attach { name: name@ },
        }
    }
}

/// A fake multiplexer for tests: it records every call it is asked to
/// issue and answers as configured, so a test can hold the pipeline to the
/// calls it promises.
pub struct FakeMux {
    /// What the probe reports.
    pub session_exists: bool,
    /// Makes the probe fail instead of answering.
    pub fail_probe: bool,
    /// Makes the creation batch report rejection.
    pub fail_create: bool,
    /// Makes the switch or attach call fail.
    pub fail_attach: bool,
    /// Every call issued so far, oldest first.
    pub calls: Vec<RecordedCall>,
}

impl FakeMux {
    /// A fresh fake whose probe reports `session_exists` and whose calls
    /// all succeed.
    pub fn new(session_exists: bool) -> (r: FakeMux)
        ensures
            r.log() == Seq::<MuxCall>::empty(),
            r.session_exists == session_exists,
            !r.fail_probe,
            !r.fail_create,
            !r.fail_attach,
            r.calls@.len() == 0,
    {
        FakeMux {
            session_exists,
            fail_probe: false,
            fail_create: false,
            fail_attach: false,
            calls: Vec::new(),
        }
    }
}

impl Multiplexer for FakeMux {
    open spec fn log(&self) -> Seq<MuxCall> {
        self.calls@.map_values(|c: RecordedCall| c@)
    }

    fn has_session(&mut self, name: &str) -> (r: Result<bool, MuxError>) {
        if self.fail_probe {
            Err(MuxError)
        } else {
            let found = self.session_exists;
            self.calls.push(RecordedCall::Probe { name: name.to_owned(), found });
            proof {
                assert(self.calls@.map_values(|c: RecordedCall| c@) =~= old(
                    self,
                ).calls@.map_values(|c: RecordedCall| c@).push(
                    MuxCall::Probe { name: name@, found },
                ));
            }
            Ok(found)
        }
    }

    fn create_session(&mut self, name: &str, dir: &str, layout: &Vec<String>) -> (r: Result<
        (),
        MuxError,
    >) {
        let ghost batch = batch_calls(name@, dir@, layout.deep_view());
        self.calls.push(
            RecordedCall::NewSession {
                name: name.to_owned(),
                dir: dir.to_owned(),
                cmd: layout[0].clone(),
            },
        );
        proof {
            assert(self.calls@.map_values(|c: RecordedCall| c@) =~= old(self).calls@.map_values(
                |c: RecordedCall| c@,
            ) + batch.take(1));
        }
        let mut i: usize = 1;
        while i < layout.len()
            invariant
                1 <= i <= layout@.len(),
                layout@.len() >= 1,
                batch == batch_calls(name@, dir@, layout.deep_view()),
                self.calls@.map_values(|c: RecordedCall| c@) == old(self).calls@.map_values(
                    |c: RecordedCall| c@,
                ) + batch.take(i as int),
                self.fail_create == old(self).fail_create,
            decreases layout@.len() - i,
        {
            let ghost pre = self.calls@;
            let rc = RecordedCall::NewWindow {
                name: name.to_owned(),
                dir: dir.to_owned(),
                cmd: layout[i].clone(),
            };
            self.calls.push(rc);
            proof {
                assert(batch[i as int] == (MuxCall::NewWindow {
                    name: name@,
                    dir: dir@,
                    cmd: layout.deep_view()[i as int],
                }));
                assert(rc@ == batch[i as int]);
                assert(self.calls@ == pre.push(rc));
                assert(self.calls@.map_values(|c: RecordedCall| c@) =~= pre.map_values(
                    |c: RecordedCall| c@,
                ).push(rc@));
                assert(batch.take(i as int + 1) =~= batch.take(i as int).push(batch[i as int]));
                assert(self.calls@.map_values(|c: RecordedCall| c@) =~= old(
                    self,
                ).calls@.map_values(|c: RecordedCall| c@) + batch.take(i as int + 1));
            }
            i = i + 1;
        }
        proof {
            assert(batch.take(layout@.len() as int) =~= batch);
        }
        if self.fail_create {
            Err(MuxError)
        } else {
            Ok(())
        }
    }

    fn switch_client(&mut self, name: &str, client: Option<&str>) -> (r: Result<(), MuxError>) {
        let recorded_client: Option<String> = match client {
            Some(c) => Some(c.to_owned()),
            None => None,
        };
        self.calls.push(
            RecordedCall::SwitchClient { name: name.to_owned(), client: recorded_client },
        );
        proof {
            assert(self.calls@.map_values(|c: RecordedCall| c@) =~= old(self).calls@.map_values(
                |c: RecordedCall| c@,
            ).push(MuxCall::SwitchClient { name: name@, client: opt_str_view(client) }));
        }
        if self.fail_attach {
            Err(MuxError)
        } else {
            Ok(())
        }
    }

    fn attach(&mut self, name: &str) -> (r: Result<(), MuxError>) {
        self.calls.push(RecordedCall::Attach { name: name.to_owned() });
        proof {
            assert(self.calls@.map_values(|c: RecordedCall| c@) =~= old(self).calls@.map_values(
                |c: RecordedCall| c@,
            ).push(MuxCall::Attach { name: name@ }));
        }
        if self.fail_attach {
            Err(MuxError)
        } else {
            Ok(())
        }
    }
}

} // verus!
