//! A whole run, told in one piece, and the proof that a session plays it out
//! step by step.

use crate::cli::{asks_for_help, mode_of, Mode};
use crate::clock::Timestamp;
use crate::session::{opening, ActionView, EventView, Phase, SessionView};
use crate::text::{
    banner_text, error_text, help_text, lemma_banner_mentions, lemma_error_text_shape,
    lemma_help_text_mentions, mentions,
};
use vstd::prelude::*;

verus! {

/// What the world answers while one path is touched.
pub struct Answers {
    /// Whether an entry exists at the path.
    pub exists: bool,
    /// How creating the file goes, should it be asked for.
    pub created: Result<(), Seq<char>>,
    /// What the clock reads when the times are about to be set.
    pub now: Timestamp,
    /// How setting the times goes, should it be asked for.
    pub stamped: Result<(), Seq<char>>,
}

impl Answers {
    /// Nothing exists at the path, and nothing can be created there.
    pub open spec fn creation_fails(self) -> bool {
        !self.exists && self.created is Err
    }

    /// How touching the path ends: with the failure to create it where that
    /// is tried and fails, and otherwise as setting its times ends.
    pub open spec fn outcome(self) -> Result<(), Seq<char>> {
        if self.creation_fails() {
            self.created
        } else {
            self.stamped
        }
    }

    /// What is asked of the filesystem to touch `path`, in order: a probe; a
    /// creation only where nothing exists; then both times set to the one
    /// clock reading, unless the creation failed.
    pub open spec fn requests(self, path: Seq<char>) -> Seq<ActionView> {
        let probe = seq![ActionView::Probe { path }];
        let create = if self.exists {
            Seq::empty()
        } else {
            seq![ActionView::Create { path }]
        };
        let stamp = if self.creation_fails() {
            Seq::empty()
        } else {
            seq![ActionView::SetTimes { path, accessed: self.now, modified: self.now }]
        };
        probe + create + stamp
    }
}

/// Every action of a run that touches `paths`, from the first probe to the
/// action that ends it, where `world[i]` is answered while `paths[i]` is
/// touched. The paths are touched in order; the first failure ends the run
/// with its report, and the paths behind it are never reached.
pub open spec fn script(paths: Seq<Seq<char>>, world: Seq<Answers>) -> Seq<ActionView>
    recommends
        paths.len() <= world.len(),
    decreases paths.len(),
{
    if paths.len() == 0 {
        seq![ActionView::Done]
    } else {
        let requests = world[0].requests(paths[0]);
        match world[0].outcome() {
            Err(cause) => requests.push(ActionView::Abort { message: error_text(paths[0], cause) }),
            Ok(()) => requests + script(paths.drop_first(), world.drop_first()),
        }
    }
}

/// The event with which `answers` meets the request that `session` has
/// outstanding.
pub open spec fn reply(session: SessionView, answers: Answers) -> EventView {
    match session.phase {
        Phase::Probing => EventView::Exists(answers.exists),
        Phase::Creating => EventView::Completed(answers.created),
        _ => EventView::Completed(answers.stamped),
    }
}

/// How far a phase is from the end of its path.
pub open spec fn rank(phase: Phase) -> nat {
    match phase {
        Phase::Probing => 3,
        Phase::Creating => 2,
        Phase::Stamping => 1,
        Phase::Finished => 0,
    }
}

/// The actions that `session` names from here on, step after step, when
/// `world[i]` is answered while `session.pending[i]` is touched.
pub open spec fn replay(session: SessionView, world: Seq<Answers>) -> Seq<ActionView>
    recommends
        session.wf(),
        session.pending.len() <= world.len(),
    decreases session.pending.len(), rank(session.phase),
{
    if session.phase == Phase::Finished || session.pending.len() == 0 {
        Seq::empty()
    } else {
        let stepped = session.step(reply(session, world[0]), world[0].now);
        let left = if stepped.0.pending.len() < session.pending.len() {
            world.drop_first()
        } else {
            world
        };
        seq![stepped.1] + replay(stepped.0, left)
    }
}

/// Every action of the run on `args`, the opening one included.
pub open spec fn run(args: Seq<Seq<char>>, build: Seq<char>, world: Seq<Answers>) -> Seq<
    ActionView,
> {
    let opened = opening(args, build);
    seq![opened.1] + replay(opened.0, world)
}

/// A session that is waiting for the answer to a probe plays, from that probe
/// on, the script of the paths it has pending.
pub proof fn lemma_replay_is_script(session: SessionView, world: Seq<Answers>)
    requires
        session.phase == Phase::Probing,
        0 < session.pending.len() <= world.len(),
    ensures
        seq![ActionView::Probe { path: session.pending[0] }] + replay(session, world) == script(
            session.pending,
            world,
        ),
    decreases session.pending.len(),
{
    let path = session.pending[0];
    let answers = world[0];
    let rest = session.pending.drop_first();
    let creating = SessionView { phase: Phase::Creating, ..session };
    let stamping = SessionView { phase: Phase::Stamping, ..session };
    let finished = SessionView { phase: Phase::Finished, ..session };

    // From the moment its times are being set, the path ends as the script
    // has it.
    assert(replay(stamping, world) == match answers.stamped {
        Err(cause) => seq![ActionView::Abort { message: error_text(path, cause) }],
        Ok(()) => script(rest, world.drop_first()),
    }) by {
        match answers.stamped {
            Err(_) => {
                assert(replay(finished, world) == Seq::<ActionView>::empty());
            },
            Ok(()) => {
                let next = stamping.advance().0;
                if rest.len() == 0 {
                    assert(replay(next, world.drop_first()) == Seq::<ActionView>::empty());
                } else {
                    lemma_replay_is_script(next, world.drop_first());
                }
            },
        }
    }

    // Where the path has to be created first, one more step leads there.
    if !answers.exists {
        let stepped = creating.step(reply(creating, answers), answers.now);
        assert(replay(creating, world) == seq![stepped.1] + replay(stepped.0, world));
    }
}

/// The whole run, for every argument list and whatever the world answers:
/// without arguments the banner is printed and nothing else happens; with a
/// help flag anywhere the usage text is printed and nothing else happens;
/// otherwise the arguments are touched as the script has it.
pub proof fn lemma_run(args: Seq<Seq<char>>, build: Seq<char>, world: Seq<Answers>)
    requires
        args.len() <= world.len(),
    ensures
        run(args, build, world) == match mode_of(args) {
            Mode::Banner => seq![ActionView::Print { text: banner_text(build) }],
            Mode::Usage => seq![ActionView::Print { text: help_text() }],
            Mode::Touch => script(args, world),
        },
{
    if mode_of(args) == Mode::Touch {
        lemma_replay_is_script(opening(args, build).0, world);
    }
}

/// Run without arguments, the tool prints its banner, which names it and
/// says in a sentence what it does, and ends in success. Nothing is asked of
/// the filesystem.
pub proof fn lemma_run_without_arguments(build: Seq<char>, world: Seq<Answers>)
    ensures
        run(Seq::empty(), build, world) == seq![ActionView::Print { text: banner_text(build) }],
        run(Seq::empty(), build, world).last().exit_code() == Some(0i32),
        mentions(banner_text(build), "mdtouch"@),
        mentions(
            banner_text(build),
            "A tool to update file timestamps or create empty files, mimicking the Unix touch command."@,
        ),
{
    lemma_banner_mentions(build);
}

/// Run with a help flag at any place among its arguments, the tool prints the
/// usage text, which says `Usage:` and documents both flags, and ends in
/// success. Nothing is asked of the filesystem, whatever the other arguments
/// name.
pub proof fn lemma_run_with_help_flag(args: Seq<Seq<char>>, build: Seq<char>, world: Seq<Answers>)
    requires
        asks_for_help(args),
    ensures
        run(args, build, world) == seq![ActionView::Print { text: help_text() }],
        run(args, build, world).last().exit_code() == Some(0i32),
        mentions(help_text(), "Usage:"@),
        mentions(help_text(), "-h"@),
        mentions(help_text(), "-?"@),
{
    lemma_help_text_mentions();
}

/// Only a request to set the times depends on what the clock reads.
pub proof fn lemma_clock_only_sets_times(
    session: SessionView,
    event: EventView,
    early: Timestamp,
    late: Timestamp,
)
    ensures
        session.step(event, early).0 == session.step(event, late).0,
        session.step(event, early).1 is SetTimes <==> session.step(event, late).1 is SetTimes,
        !(session.step(event, early).1 is SetTimes) ==> session.step(event, early).1
            == session.step(event, late).1,
{
}

/// A path at which nothing exists is created before its times are set.
pub proof fn lemma_missing_path_is_created(path: Seq<char>, answers: Answers)
    requires
        !answers.exists,
        answers.created is Ok,
    ensures
        answers.requests(path) == seq![
            ActionView::Probe { path },
            ActionView::Create { path },
            ActionView::SetTimes { path, accessed: answers.now, modified: answers.now },
        ],
{
}

/// Of a path at which something exists, nothing is asked but to set its
/// times: it is never created anew.
pub proof fn lemma_existing_path_is_only_stamped(path: Seq<char>, answers: Answers)
    requires
        answers.exists,
    ensures
        answers.requests(path) == seq![
            ActionView::Probe { path },
            ActionView::SetTimes { path, accessed: answers.now, modified: answers.now },
        ],
{
}

/// A script ends the run once, with its last action: every action before
/// that is a request about some path.
pub proof fn lemma_script_ends_once(paths: Seq<Seq<char>>, world: Seq<Answers>)
    requires
        paths.len() <= world.len(),
    ensures
        script(paths, world).len() > 0,
        script(paths, world).last().exit_code() is Some,
        forall|i: int|
            0 <= i < script(paths, world).len() - 1 ==> (#[trigger] script(
                paths,
                world,
            )[i]).target() is Some,
    decreases paths.len(),
{
    if paths.len() > 0 && world[0].outcome() is Ok {
        lemma_script_ends_once(paths.drop_first(), world.drop_first());
    }
}

/// Where every touch succeeds, the run ends in success, without a word.
pub proof fn lemma_success_ends_run(paths: Seq<Seq<char>>, world: Seq<Answers>)
    requires
        paths.len() <= world.len(),
        forall|i: int| 0 <= i < paths.len() ==> (#[trigger] world[i]).outcome() is Ok,
    ensures
        script(paths, world).last() == ActionView::Done,
        script(paths, world).last().exit_code() == Some(0i32),
    decreases paths.len(),
{
    if paths.len() > 0 {
        lemma_success_ends_run(paths.drop_first(), world.drop_first());
        lemma_script_ends_once(paths.drop_first(), world.drop_first());
    }
}

/// The first touch that fails ends the run in failure, with a report that
/// says `Error touching` and names the failing path and the cause; whatever
/// stands behind the failing path plays no part in the run.
pub proof fn lemma_first_failure_ends_run(paths: Seq<Seq<char>>, world: Seq<Answers>, k: int)
    requires
        paths.len() <= world.len(),
        0 <= k < paths.len(),
        forall|i: int| 0 <= i < k ==> (#[trigger] world[i]).outcome() is Ok,
        world[k].outcome() is Err,
    ensures
        world[k].outcome() matches Err(cause) && script(paths, world).last() == (ActionView::Abort {
            message: error_text(paths[k], cause),
        }),
        world[k].outcome() matches Err(cause) && mentions(
            error_text(paths[k], cause),
            "Error touching"@,
        ),
        script(paths, world).last().exit_code() == Some(1i32),
        script(paths, world) == script(paths.take(k + 1), world.take(k + 1)),
    decreases k,
{
    if k == 0 {
        lemma_error_text_shape(paths[0], world[0].outcome()->Err_0);
    } else {
        lemma_first_failure_ends_run(paths.drop_first(), world.drop_first(), k - 1);
        lemma_script_ends_once(paths.drop_first(), world.drop_first());
        assert(paths.take(k + 1).drop_first() =~= paths.drop_first().take(k));
        assert(world.take(k + 1).drop_first() =~= world.drop_first().take(k));
    }
}

} // verus!
