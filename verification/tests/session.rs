use filetime::FileTime;
use mdtouch::clock::Timestamp;
use mdtouch::session::{Action, Event, Phase, Session};
use mdtouch::text::help_message;

const BUILD: &str = "2025-02-03 10:00:00";

fn open(words: &[&str]) -> (Session, Action) {
    Session::start(words.iter().map(|word| word.to_string()).collect(), BUILD)
}

fn probe(path: &str) -> Action {
    Action::Probe { path: path.to_string() }
}

fn create(path: &str) -> Action {
    Action::Create { path: path.to_string() }
}

fn set_times(path: &str, at: Timestamp) -> Action {
    Action::SetTimes { path: path.to_string(), accessed: at, modified: at }
}

fn failed(cause: &str) -> Event {
    Event::Completed(Err(cause.to_string()))
}

const NOON: Timestamp = Timestamp { seconds: 1_738_576_800, nanos: 250_000_000 };
const LATER: Timestamp = Timestamp { seconds: 1_738_576_801, nanos: 5 };

#[test]
fn no_arguments_print_the_banner_and_succeed() {
    let (session, action) = open(&[]);
    match &action {
        Action::Print { text } => {
            assert!(text.contains("mdtouch"));
            assert!(text.contains(BUILD));
            assert!(text.contains(
                "A tool to update file timestamps or create empty files, mimicking the Unix touch command."
            ));
        }
        other => panic!("expected the banner, got {:?}", other),
    }
    assert_eq!(action.exit_code(), Some(0));
    assert_eq!(session.phase(), Phase::Finished);
}

#[test]
fn help_flag_prints_usage_and_succeeds() {
    for flag in ["-h", "-?"] {
        let (session, action) = open(&[flag]);
        assert_eq!(action, Action::Print { text: help_message() });
        assert_eq!(action.exit_code(), Some(0));
        assert_eq!(session.phase(), Phase::Finished);
    }
}

#[test]
fn help_flag_keeps_other_arguments_untouched() {
    let (mut session, action) = open(&["-h", "somefile.txt"]);
    match &action {
        Action::Print { text } => {
            assert!(text.contains("Usage:"));
            assert!(text.contains("-h"));
            assert!(text.contains("-?"));
        }
        other => panic!("expected the usage text, got {:?}", other),
    }
    assert_eq!(session.phase(), Phase::Finished);
    assert_eq!(session.step(Event::Exists(false)), None);
    assert_eq!(session.step(Event::Exists(true)), None);
    assert_eq!(session.step(Event::Completed(Ok(()))), None);
    assert_eq!(session.step(failed("late")), None);
    assert_eq!(session.phase(), Phase::Finished);
}

#[test]
fn missing_file_is_created_then_stamped() {
    let (mut session, action) = open(&["new.tmp"]);
    assert_eq!(action, probe("new.tmp"));
    assert_eq!(action.exit_code(), None);
    assert_eq!(session.phase(), Phase::Probing);

    let action = session.step_at(Event::Exists(false), NOON);
    assert_eq!(action, Some(create("new.tmp")));
    assert_eq!(session.phase(), Phase::Creating);

    let action = session.step_at(Event::Completed(Ok(())), LATER);
    assert_eq!(action, Some(set_times("new.tmp", LATER)));
    assert_eq!(session.phase(), Phase::Stamping);

    let action = session.step_at(Event::Completed(Ok(())), LATER);
    assert_eq!(action, Some(Action::Done));
    assert_eq!(Action::Done.exit_code(), Some(0));
    assert_eq!(session.phase(), Phase::Finished);
}

#[test]
fn existing_file_is_only_stamped() {
    let (mut session, action) = open(&["old.tmp"]);
    assert_eq!(action, probe("old.tmp"));

    let action = session.step_at(Event::Exists(true), NOON);
    assert_eq!(action, Some(set_times("old.tmp", NOON)));
    assert_eq!(session.phase(), Phase::Stamping);

    let action = session.step_at(Event::Completed(Ok(())), LATER);
    assert_eq!(action, Some(Action::Done));
}

#[test]
fn paths_are_touched_in_the_order_given() {
    let (mut session, action) = open(&["b", "a", "b"]);
    assert_eq!(action, probe("b"));
    assert_eq!(session.step_at(Event::Exists(true), NOON), Some(set_times("b", NOON)));
    assert_eq!(session.step_at(Event::Completed(Ok(())), NOON), Some(probe("a")));
    assert_eq!(session.step_at(Event::Exists(false), NOON), Some(create("a")));
    assert_eq!(session.step_at(Event::Completed(Ok(())), LATER), Some(set_times("a", LATER)));
    assert_eq!(session.step_at(Event::Completed(Ok(())), LATER), Some(probe("b")));
    assert_eq!(session.step_at(Event::Exists(true), LATER), Some(set_times("b", LATER)));
    assert_eq!(session.step_at(Event::Completed(Ok(())), LATER), Some(Action::Done));
    assert_eq!(session.phase(), Phase::Finished);
}

#[test]
fn failed_creation_aborts_with_report() {
    let path = "non_existent_dir_xyz_123/file.txt";
    let (mut session, action) = open(&[path]);
    assert_eq!(action, probe(path));
    assert_eq!(session.step(Event::Exists(false)), Some(create(path)));

    let action = session
        .step(failed("No such file or directory (os error 2)"))
        .expect("a failed creation ends the run");
    assert_eq!(
        action,
        Action::Abort {
            message: "Error touching non_existent_dir_xyz_123/file.txt: No such file or directory (os error 2)"
                .to_string()
        }
    );
    match &action {
        Action::Abort { message } => assert!(message.contains("Error touching")),
        other => panic!("expected a failure report, got {:?}", other),
    }
    assert_eq!(action.exit_code(), Some(1));
    assert_eq!(session.phase(), Phase::Finished);
}

#[test]
fn failed_stamping_aborts_with_report() {
    let (mut session, _) = open(&["locked.tmp"]);
    assert_eq!(session.step_at(Event::Exists(true), NOON), Some(set_times("locked.tmp", NOON)));
    let action = session.step_at(failed("Permission denied (os error 13)"), LATER);
    assert_eq!(
        action,
        Some(Action::Abort {
            message: "Error touching locked.tmp: Permission denied (os error 13)".to_string()
        })
    );
    assert_eq!(session.phase(), Phase::Finished);
}

#[test]
fn first_failure_leaves_later_paths_alone() {
    let (mut session, action) = open(&["one", "two", "three", "four", "five"]);
    assert_eq!(action, probe("one"));
    assert_eq!(session.step_at(Event::Exists(true), NOON), Some(set_times("one", NOON)));
    assert_eq!(session.step_at(Event::Completed(Ok(())), NOON), Some(probe("two")));
    assert_eq!(session.step_at(Event::Exists(true), NOON), Some(set_times("two", NOON)));
    assert_eq!(session.step_at(Event::Completed(Ok(())), NOON), Some(probe("three")));
    assert_eq!(session.step_at(Event::Exists(false), NOON), Some(create("three")));
    assert_eq!(
        session.step_at(failed("Is a directory (os error 21)"), NOON),
        Some(Action::Abort {
            message: "Error touching three: Is a directory (os error 21)".to_string()
        })
    );
    assert_eq!(session.phase(), Phase::Finished);
    assert_eq!(session.step_at(Event::Completed(Ok(())), NOON), None);
    assert_eq!(session.step_at(Event::Exists(true), NOON), None);
    assert_eq!(session.step_at(Event::Exists(false), NOON), None);
    assert_eq!(session.phase(), Phase::Finished);
}

#[test]
fn finished_run_takes_no_more_events() {
    let (mut session, _) = open(&["x"]);
    assert_eq!(session.step_at(Event::Exists(true), NOON), Some(set_times("x", NOON)));
    assert_eq!(session.step_at(Event::Completed(Ok(())), NOON), Some(Action::Done));
    assert_eq!(session.step(Event::Exists(true)), None);
    assert_eq!(session.step(Event::Completed(Ok(()))), None);
    assert_eq!(session.step(failed("too late")), None);
    assert_eq!(session.phase(), Phase::Finished);
}

#[test]
fn event_that_answers_nothing_is_ignored() {
    let (mut session, _) = open(&["x", "y"]);
    assert_eq!(session.step_at(Event::Completed(Ok(())), NOON), None);
    assert_eq!(session.step_at(failed("unasked"), NOON), None);
    assert_eq!(session.phase(), Phase::Probing);

    assert_eq!(session.step_at(Event::Exists(false), NOON), Some(create("x")));
    assert_eq!(session.step_at(Event::Exists(true), NOON), None);
    assert_eq!(session.step_at(Event::Exists(false), NOON), None);
    assert_eq!(session.phase(), Phase::Creating);

    assert_eq!(session.step_at(Event::Completed(Ok(())), NOON), Some(set_times("x", NOON)));
    assert_eq!(session.step_at(Event::Exists(true), NOON), None);
    assert_eq!(session.phase(), Phase::Stamping);

    assert_eq!(session.step_at(Event::Completed(Ok(())), NOON), Some(probe("y")));
    assert_eq!(session.phase(), Phase::Probing);
}

#[test]
fn requests_do_not_end_the_run() {
    assert_eq!(probe("p").exit_code(), None);
    assert_eq!(create("p").exit_code(), None);
    assert_eq!(set_times("p", NOON).exit_code(), None);
    assert_eq!(Action::Print { text: String::new() }.exit_code(), Some(0));
    assert_eq!(Action::Done.exit_code(), Some(0));
    assert_eq!(Action::Abort { message: String::new() }.exit_code(), Some(1));
}

#[test]
fn step_stamps_with_the_present_time() {
    let before = FileTime::now();
    let (mut session, _) = open(&["now.tmp"]);
    let action = session.step(Event::Exists(true));
    let after = FileTime::now();
    match action {
        Some(Action::SetTimes { path, accessed, modified }) => {
            assert_eq!(path, "now.tmp");
            assert_eq!(accessed, modified);
            assert!(modified.nanos < 1_000_000_000);
            assert!(modified.seconds > 1_000_000);
            let stamped = FileTime::from_unix_time(modified.seconds, modified.nanos);
            assert!(before <= stamped);
            assert!(stamped <= after);
        }
        other => panic!("expected a request to set the times, got {:?}", other),
    }
}

#[test]
fn step_stamps_created_file_with_the_present_time() {
    let (mut session, _) = open(&["fresh.tmp"]);
    assert_eq!(session.step(Event::Exists(false)), Some(create("fresh.tmp")));
    let before = FileTime::now();
    let action = session.step(Event::Completed(Ok(())));
    let after = FileTime::now();
    match action {
        Some(Action::SetTimes { path, accessed, modified }) => {
            assert_eq!(path, "fresh.tmp");
            assert_eq!(accessed, modified);
            let stamped = FileTime::from_unix_time(modified.seconds, modified.nanos);
            assert!(before <= stamped);
            assert!(stamped <= after);
        }
        other => panic!("expected a request to set the times, got {:?}", other),
    }
    assert_eq!(session.step(Event::Completed(Ok(()))), Some(Action::Done));
}
