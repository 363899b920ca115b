//! One run of the tool, as a machine that asks and is answered.
//!
//! A [`Session`] is opened on the argument list and names the first thing to
//! do. The caller does it, reports what the operating system answered, and is
//! told what to do next, until an action that ends the run comes out.

use crate::cli::{classify, mode_of, Mode};
use crate::clock::{now, Timestamp};
use crate::text::{banner, banner_text, error_message, error_text, help_message, help_text};
use vstd::prelude::*;

verus! {

/// What a session is waiting to hear about.
#[derive(Clone, Copy, Debug, PartialEq, Eq, Structural)]
pub enum Phase {
    /// Whether anything exists at the current path.
    Probing,
    /// How creating the current path went.
    Creating,
    /// How setting the times of the current path went.
    Stamping,
    /// Nothing: the run is over.
    Finished,
}

/// What the caller reports back after carrying out a request.
#[derive(Debug, PartialEq, Eq)]
pub enum Event {
    /// The answer to [`Action::Probe`]: whether an entry exists at the path.
    Exists(bool),
    /// The outcome of [`Action::Create`] or [`Action::SetTimes`]; a failure
    /// carries the cause in the operating system's words.
    Completed(Result<(), String>),
}

/// The mathematical value of an [`Event`].
pub enum EventView {
    Exists(bool),
    Completed(Result<(), Seq<char>>),
}

impl View for Event {
    type V = EventView;

    open spec fn view(&self) -> EventView {
        match *self {
            Event::Exists(found) => EventView::Exists(found),
            Event::Completed(Ok(())) => EventView::Completed(Ok(())),
            Event::Completed(Err(cause)) => EventView::Completed(Err(cause@)),
        }
    }
}

/// What the caller is to do next.
#[derive(Debug, PartialEq, Eq)]
pub enum Action {
    /// Write `text` and a line break to standard output; the run has
    /// succeeded.
    Print { text: String },
    /// Find out whether an entry exists at `path`, and report
    /// [`Event::Exists`].
    Probe { path: String },
    /// Create an empty regular file at `path` (create, or open for writing)
    /// and close it again; report [`Event::Completed`].
    Create { path: String },
    /// Set the access time and the modification time of the entry at `path`;
    /// report [`Event::Completed`].
    SetTimes { path: String, accessed: Timestamp, modified: Timestamp },
    /// Every path was touched: the run has succeeded, with no output.
    Done,
    /// Write `message` and a line break to standard error; the run has
    /// failed.
    Abort { message: String },
}

/// The mathematical value of an [`Action`].
pub enum ActionView {
    Print { text: Seq<char> },
    Probe { path: Seq<char> },
    Create { path: Seq<char> },
    SetTimes { path: Seq<char>, accessed: Timestamp, modified: Timestamp },
    Done,
    Abort { message: Seq<char> },
}

impl View for Action {
    type V = ActionView;

    open spec fn view(&self) -> ActionView {
        match *self {
            Action::Print { text } => ActionView::Print { text: text@ },
            Action::Probe { path } => ActionView::Probe { path: path@ },
            Action::Create { path } => ActionView::Create { path: path@ },
            Action::SetTimes { path, accessed, modified } => ActionView::SetTimes {
                path: path@,
                accessed,
                modified,
            },
            Action::Done => ActionView::Done,
            Action::Abort { message } => ActionView::Abort { message: message@ },
        }
    }
}

impl ActionView {
    /// The exit code that goes with an action that ends the run: 0 for
    /// success, 1 for failure. A request does not end the run.
    pub open spec fn exit_code(self) -> Option<i32> {
        match self {
            ActionView::Print { .. } | ActionView::Done => Some(0i32),
            ActionView::Abort { .. } => Some(1i32),
            _ => None,
        }
    }

    /// The path whose filesystem entry the action concerns, if it concerns
    /// one.
    pub open spec fn target(self) -> Option<Seq<char>> {
        match self {
            ActionView::Probe { path }
            | ActionView::Create { path }
            | ActionView::SetTimes { path, .. } => Some(path),
            _ => None,
        }
    }
}

impl Action {
    /// The exit code with which the process is to end after this action, or
    /// `None` where the run goes on.
    pub fn exit_code(&self) -> (code: Option<i32>)
        ensures
            code == self@.exit_code(),
    {
        match self {
            Action::Print { .. } | Action::Done => Some(0),
            Action::Abort { .. } => Some(1),
            _ => None,
        }
    }
}

/// The mathematical value of a [`Session`]: the paths not yet fully touched,
/// the current one first, and what the session waits for.
pub struct SessionView {
    pub pending: Seq<Seq<char>>,
    pub phase: Phase,
}

impl SessionView {
    /// A session that is not finished has a current path.
    pub open spec fn wf(self) -> bool {
        self.phase != Phase::Finished ==> self.pending.len() > 0
    }

    /// Whether `event` answers the request that is outstanding.
    pub open spec fn expects(self, event: EventView) -> bool {
        match self.phase {
            Phase::Probing => event is Exists,
            Phase::Creating | Phase::Stamping => event is Completed,
            Phase::Finished => false,
        }
    }

    /// Ask for both times of the current path to be set to `now`.
    pub open spec fn stamp(self, now: Timestamp) -> (SessionView, ActionView) {
        (
            SessionView { phase: Phase::Stamping, ..self },
            ActionView::SetTimes { path: self.pending[0], accessed: now, modified: now },
        )
    }

    /// Give up on the current path, and with it on the run.
    pub open spec fn fail(self, cause: Seq<char>) -> (SessionView, ActionView) {
        (
            SessionView { phase: Phase::Finished, ..self },
            ActionView::Abort { message: error_text(self.pending[0], cause) },
        )
    }

    /// Leave the current path behind: go on to the next, or end the run.
    pub open spec fn advance(self) -> (SessionView, ActionView) {
        let rest = self.pending.drop_first();
        if rest.len() == 0 {
            (SessionView { pending: rest, phase: Phase::Finished }, ActionView::Done)
        } else {
            (
                SessionView { pending: rest, phase: Phase::Probing },
                ActionView::Probe { path: rest[0] },
            )
        }
    }

    /// The state and the action that follow when `event` answers the
    /// outstanding request and the clock reads `now`.
    pub open spec fn step(self, event: EventView, now: Timestamp) -> (SessionView, ActionView)
        recommends
            self.wf(),
            self.expects(event),
    {
        match event {
            EventView::Exists(false) => (
                SessionView { phase: Phase::Creating, ..self },
                ActionView::Create { path: self.pending[0] },
            ),
            EventView::Exists(true) => self.stamp(now),
            EventView::Completed(Err(cause)) => self.fail(cause),
            EventView::Completed(Ok(())) => if self.phase == Phase::Creating {
                self.stamp(now)
            } else {
                self.advance()
            },
        }
    }
}

/// How a run on `args` opens: the banner for an empty list, the usage text
/// where a help flag occurs, and otherwise a probe of the first path.
pub open spec fn opening(args: Seq<Seq<char>>, build: Seq<char>) -> (SessionView, ActionView) {
    match mode_of(args) {
        Mode::Banner => (
            SessionView { pending: args, phase: Phase::Finished },
            ActionView::Print { text: banner_text(build) },
        ),
        Mode::Usage => (
            SessionView { pending: args, phase: Phase::Finished },
            ActionView::Print { text: help_text() },
        ),
        Mode::Touch => (
            SessionView { pending: args, phase: Phase::Probing },
            ActionView::Probe { path: args[0] },
        ),
    }
}

/// A run opens well formed, whatever the arguments, and it opens finished
/// exactly where its first action already ends it.
pub proof fn lemma_opening_invariant(args: Seq<Seq<char>>, build: Seq<char>)
    ensures
        opening(args, build).0.wf(),
        opening(args, build).0.phase == Phase::Finished <==> opening(args, build).1.exit_code()
            is Some,
        opening(args, build).0.phase == Phase::Finished <==> mode_of(args) != Mode::Touch,
{
}

/// A step leads from a well-formed session to a well-formed session, and the
/// session is finished exactly when the action just named ends the run; any
/// other action is a request about the current path.
pub proof fn lemma_step_invariant(session: SessionView, event: EventView, now: Timestamp)
    requires
        session.wf(),
        session.expects(event),
    ensures
        session.step(event, now).0.wf(),
        session.step(event, now).0.phase == Phase::Finished <==> session.step(
            event,
            now,
        ).1.exit_code() is Some,
        session.step(event, now).0.phase != Phase::Finished ==> session.step(event, now).1.target()
            == Some(session.step(event, now).0.pending[0]),
{
}

/// A finished session takes no event: after the action that ends a run,
/// nothing more is asked of anyone.
pub proof fn lemma_finished_is_final(session: SessionView, event: EventView)
    requires
        session.phase == Phase::Finished,
    ensures
        !session.expects(event),
{
}

/// One run of the tool over its argument list.
pub struct Session {
    paths: Vec<String>,
    cursor: usize,
    phase: Phase,
}

impl View for Session {
    type V = SessionView;

    closed spec fn view(&self) -> SessionView {
        SessionView {
            pending: self.paths.deep_view().skip(self.cursor as int),
            phase: self.phase,
        }
    }
}

impl Session {
    #[verifier::type_invariant]
    spec fn inv(self) -> bool {
        &&& self.cursor <= self.paths.len()
        &&& self.phase != Phase::Finished ==> self.cursor < self.paths.len()
    }

    /// Opens a run on the arguments `args` (program name excluded) and names
    /// its first action. `build` is the build stamp that the banner shows.
    pub fn start(args: Vec<String>, build: &str) -> (opened: (Session, Action))
        ensures
            (opened.0@, opened.1@) == opening(args.deep_view(), build@),
            opened.0@.wf(),
    {
        match classify(&args) {
            Mode::Banner => {
                let session = Session { paths: args, cursor: 0, phase: Phase::Finished };
                assert(session@.pending =~= args.deep_view());
                (session, Action::Print { text: banner(build) })
            },
            Mode::Usage => {
                let session = Session { paths: args, cursor: 0, phase: Phase::Finished };
                assert(session@.pending =~= args.deep_view());
                (session, Action::Print { text: help_message() })
            },
            Mode::Touch => {
                let path = args[0].clone();
                let session = Session { paths: args, cursor: 0, phase: Phase::Probing };
                assert(session@.pending =~= args.deep_view());
                (session, Action::Probe { path })
            },
        }
    }

    /// What the session is waiting to hear about.
    pub fn phase(&self) -> (phase: Phase)
        ensures
            phase == self@.phase,
            self@.wf(),
    {
        proof {
            use_type_invariant(self);
        }
        self.phase
    }

    /// Takes the answer `event` to the outstanding request, with the clock
    /// reading `now`, and names the next action. An event that does not
    /// answer the outstanding request changes nothing and yields `None`.
    pub fn step_at(&mut self, event: Event, now: Timestamp) -> (action: Option<Action>)
        ensures
            final(self)@.wf(),
            match action {
                Some(next) => old(self)@.expects(event@) && (final(self)@, next@) == old(self)@.step(
                    event@,
                    now,
                ),
                None => !old(self)@.expects(event@) && final(self)@ == old(self)@,
            },
    {
        proof {
            use_type_invariant(&*self);
        }
        if self.phase == Phase::Finished {
            return None;
        }
        match event {
            Event::Exists(found) => {
                if self.phase != Phase::Probing {
                    return None;
                }
                let path = self.paths[self.cursor].clone();
                if found {
                    self.phase = Phase::Stamping;
                    Some(Action::SetTimes { path, accessed: now, modified: now })
                } else {
                    self.phase = Phase::Creating;
                    Some(Action::Create { path })
                }
            },
            Event::Completed(outcome) => {
                if self.phase == Phase::Probing {
                    return None;
                }
                match outcome {
                    Err(cause) => {
                        let message = error_message(
                            self.paths[self.cursor].as_str(),
                            cause.as_str(),
                        );
                        self.phase = Phase::Finished;
                        Some(Action::Abort { message })
                    },
                    Ok(()) => {
                        if self.phase == Phase::Creating {
                            let path = self.paths[self.cursor].clone();
                            self.phase = Phase::Stamping;
                            Some(Action::SetTimes { path, accessed: now, modified: now })
                        } else if self.cursor + 1 < self.paths.len() {
                            self.cursor = self.cursor + 1;
                            self.phase = Phase::Probing;
                            let path = self.paths[self.cursor].clone();
                            assert(self@.pending =~= old(self)@.pending.drop_first());
                            Some(Action::Probe { path })
                        } else {
                            self.phase = Phase::Finished;
                            self.cursor = self.cursor + 1;
                            assert(self@.pending =~= old(self)@.pending.drop_first());
                            Some(Action::Done)
                        }
                    },
                }
            },
        }
    }

    /// Takes the answer `event` to the outstanding request and names the next
    /// action, reading the clock for the times that a `SetTimes` request
    /// carries. An event that does not answer the outstanding request changes
    /// nothing and yields `None`.
    pub fn step(&mut self, event: Event) -> (action: Option<Action>)
        ensures
            final(self)@.wf(),
            match action {
                Some(next) => old(self)@.expects(event@) && exists|now: Timestamp|
                    now.wf() && (final(self)@, next@) == #[trigger] old(self)@.step(event@, now),
                None => !old(self)@.expects(event@) && final(self)@ == old(self)@,
            },
    {
        let reading = now();
        self.step_at(event, reading)
    }
}

} // verus!
