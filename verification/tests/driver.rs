use rollup::error::{Error, IoError};
use rollup::merge::{
    command_failed, merge_pull_request, write_merge_message, MergeStep, Sequel, COMMAND_FAILED,
};
use rollup::model::{Commit, PullRequest, Repository, User};
use rollup::run::{write_question, Action, Event, Phase, Run};

fn pull(number: u64, with_repository: bool) -> PullRequest {
    PullRequest {
        number,
        title: format!("title {}", number),
        head: Commit {
            user: User { login: format!("user{}", number) },
            repo: if with_repository {
                Some(Repository { git_url: format!("git://host/user{}/repo.git", number) })
            } else {
                None
            },
            sha: format!("sha{}", number),
            ref_: format!("branch{}", number),
        },
        body: Some(format!("body {}", number)),
    }
}

fn answer(run: &mut Run, line: &str) {
    run.advance(Event::Answer(String::from(line))).unwrap();
}

fn exited(run: &mut Run, succeeded: bool) {
    run.advance(Event::Exited(succeeded)).unwrap();
}

fn git(run: &Run) -> Vec<String> {
    match run.action() {
        Action::Git(arguments) => arguments,
        other => panic!("not a git command: {:?}", other),
    }
}

fn asked(run: &Run) -> String {
    match run.action() {
        Action::Ask(text) => text,
        other => panic!("not a question: {:?}", other),
    }
}

fn finished(run: &Run) -> bool {
    matches!(run.action(), Action::Finish)
}

#[test]
fn question_names_number_and_title() {
    assert_eq!(write_question(&pull(17, true)), "merge #17 \"title 17\"?\n[y/N/q]: ");
    assert_eq!(write_question(&pull(0, true)), "merge #0 \"title 0\"?\n[y/N/q]: ");
}

#[test]
fn merge_message_format() {
    assert_eq!(
        write_merge_message(&pull(123, true)),
        "rollup merge of #123: user123/branch123\r\n\r\nbody 123"
    );
    let mut bare = pull(18446744073709551615, true);
    bare.body = None;
    assert_eq!(
        write_merge_message(&bare),
        "rollup merge of #18446744073709551615: user18446744073709551615/branch18446744073709551615\r\n\r\n"
    );
}

#[test]
fn merge_commands_of_each_step() {
    let p = pull(5, true);
    assert_eq!(merge_pull_request(&p, MergeStep::RemoveStale).unwrap(), vec!["remote", "rm", "user5"]);
    assert_eq!(
        merge_pull_request(&p, MergeStep::AddRemote).unwrap(),
        vec!["remote", "add", "user5", "git://host/user5/repo.git"]
    );
    assert_eq!(merge_pull_request(&p, MergeStep::Fetch).unwrap(), vec!["fetch", "user5", "branch5"]);
    assert_eq!(
        merge_pull_request(&p, MergeStep::Merge).unwrap(),
        vec!["merge", "--no-ff", "-m", "rollup merge of #5: user5/branch5\r\n\r\nbody 5", "sha5"]
    );
    assert_eq!(merge_pull_request(&p, MergeStep::Abort).unwrap(), vec!["merge", "--abort"]);
    assert_eq!(merge_pull_request(&p, MergeStep::Cleanup).unwrap(), vec!["remote", "rm", "user5"]);
}

#[test]
fn merge_without_repository_has_no_command() {
    let p = pull(5, false);
    for step in [
        MergeStep::RemoveStale,
        MergeStep::AddRemote,
        MergeStep::Fetch,
        MergeStep::Merge,
        MergeStep::Abort,
        MergeStep::Cleanup,
    ] {
        assert!(merge_pull_request(&p, step).is_none());
    }
}

#[test]
fn merge_steps_follow_each_other() {
    for succeeded in [true, false] {
        assert_eq!(MergeStep::RemoveStale.after(succeeded), Sequel::Step(MergeStep::AddRemote));
        assert_eq!(MergeStep::Abort.after(succeeded), Sequel::Step(MergeStep::Cleanup));
        assert_eq!(MergeStep::Cleanup.after(succeeded), Sequel::Over);
    }
    assert_eq!(MergeStep::AddRemote.after(true), Sequel::Step(MergeStep::Fetch));
    assert_eq!(MergeStep::AddRemote.after(false), Sequel::Failure);
    assert_eq!(MergeStep::Fetch.after(true), Sequel::Step(MergeStep::Merge));
    assert_eq!(MergeStep::Fetch.after(false), Sequel::Failure);
    assert_eq!(MergeStep::Merge.after(true), Sequel::Step(MergeStep::Cleanup));
    assert_eq!(MergeStep::Merge.after(false), Sequel::Step(MergeStep::Abort));
}

#[test]
fn run_fails_when_the_remote_cannot_be_added() {
    let mut run = Run::new(vec![pull(1, true), pull(2, true)]);
    answer(&mut run, "y");
    exited(&mut run, true);
    assert_eq!(run.get_phase(), Phase::Merging(MergeStep::AddRemote));
    match run.advance(Event::Exited(false)) {
        Err(Error::GitError(error)) => {
            assert_eq!(error.code, None);
            assert_eq!(error.detail, "git ended with a failure");
        }
        other => panic!("{:?}", other),
    }
    assert!(run.is_done());
    assert!(finished(&run));
    assert_eq!(run.get_position(), 0);
}

#[test]
fn run_fails_when_the_branch_cannot_be_fetched() {
    let mut run = Run::new(vec![pull(1, true), pull(2, true)]);
    answer(&mut run, "y");
    exited(&mut run, false);
    exited(&mut run, true);
    assert_eq!(run.get_phase(), Phase::Merging(MergeStep::Fetch));
    assert!(matches!(run.advance(Event::Exited(false)), Err(Error::GitError(_))));
    assert!(run.is_done());
    assert!(finished(&run));
    assert!(run.advance(Event::Exited(true)).is_ok());
    assert!(run.is_done());
}

#[test]
fn command_failure_words() {
    let failure = command_failed();
    assert_eq!(failure.code, None);
    assert_eq!(failure.detail, COMMAND_FAILED);
    assert_eq!(COMMAND_FAILED, "git ended with a failure");
}

#[test]
fn run_over_nothing_is_over() {
    let run = Run::new(Vec::new());
    assert!(run.is_done());
    assert!(finished(&run));
    assert_eq!(run.get_position(), 0);
}

#[test]
fn run_merges_a_pull_request_step_by_step() {
    let mut run = Run::new(vec![pull(1, true), pull(2, true)]);
    assert_eq!(run.get_phase(), Phase::Prompting);
    assert_eq!(asked(&run), "merge #1 \"title 1\"?\n[y/N/q]: ");
    answer(&mut run, "y\n");
    assert_eq!(run.get_phase(), Phase::Merging(MergeStep::RemoveStale));
    assert_eq!(git(&run), vec!["remote", "rm", "user1"]);
    exited(&mut run, false);
    assert_eq!(git(&run), vec!["remote", "add", "user1", "git://host/user1/repo.git"]);
    exited(&mut run, true);
    assert_eq!(git(&run), vec!["fetch", "user1", "branch1"]);
    exited(&mut run, true);
    assert_eq!(
        git(&run),
        vec!["merge", "--no-ff", "-m", "rollup merge of #1: user1/branch1\r\n\r\nbody 1", "sha1"]
    );
    exited(&mut run, true);
    assert_eq!(run.get_phase(), Phase::Merging(MergeStep::Cleanup));
    assert_eq!(git(&run), vec!["remote", "rm", "user1"]);
    exited(&mut run, true);
    assert_eq!(run.get_position(), 1);
    assert_eq!(asked(&run), "merge #2 \"title 2\"?\n[y/N/q]: ");
}

#[test]
fn run_skips_on_no_and_ends_after_the_last() {
    let mut run = Run::new(vec![pull(1, true), pull(2, true)]);
    answer(&mut run, "n");
    assert_eq!(run.get_position(), 1);
    assert_eq!(asked(&run), "merge #2 \"title 2\"?\n[y/N/q]: ");
    answer(&mut run, " N \r\n");
    assert!(run.is_done());
    assert_eq!(run.get_position(), 2);
    assert!(finished(&run));
}

#[test]
fn run_asks_again_after_another_answer() {
    let mut run = Run::new(vec![pull(1, true)]);
    for line in ["", "\n", "yes", "maybe", "y n", "1"] {
        answer(&mut run, line);
        assert_eq!(run.get_phase(), Phase::Prompting);
        assert_eq!(run.get_position(), 0);
        assert_eq!(asked(&run), "merge #1 \"title 1\"?\n[y/N/q]: ");
    }
}

#[test]
fn run_without_repository_starts_no_command() {
    let mut run = Run::new(vec![pull(1, false), pull(2, true)]);
    assert_eq!(asked(&run), "merge #1 \"title 1\"?\n[y/N/q]: ");
    assert!(run.advance(Event::Answer(String::from("y"))).is_ok());
    assert_eq!(run.get_phase(), Phase::Prompting);
    assert_eq!(run.get_position(), 1);
    assert_eq!(asked(&run), "merge #2 \"title 2\"?\n[y/N/q]: ");
}

#[test]
fn run_without_repository_at_the_end_is_over() {
    let mut run = Run::new(vec![pull(1, false)]);
    assert!(run.advance(Event::Answer(String::from("Y"))).is_ok());
    assert!(run.is_done());
    assert!(finished(&run));
}

#[test]
fn run_recovers_from_a_conflict() {
    let mut run = Run::new(vec![pull(1, true), pull(2, true)]);
    answer(&mut run, "y");
    exited(&mut run, true);
    exited(&mut run, true);
    exited(&mut run, true);
    assert_eq!(run.get_phase(), Phase::Merging(MergeStep::Merge));
    assert!(run.advance(Event::Exited(false)).is_ok());
    assert_eq!(run.get_phase(), Phase::Merging(MergeStep::Abort));
    match run.action() {
        Action::Abort(arguments) => assert_eq!(arguments, vec!["merge", "--abort"]),
        other => panic!("{:?}", other),
    }
    assert!(run.advance(Event::Exited(true)).is_ok());
    assert_eq!(git(&run), vec!["remote", "rm", "user1"]);
    assert!(run.advance(Event::Exited(true)).is_ok());
    assert!(!run.is_done());
    assert_eq!(asked(&run), "merge #2 \"title 2\"?\n[y/N/q]: ");
}

#[test]
fn run_goes_on_when_the_abort_ends_badly() {
    let mut run = Run::new(vec![pull(1, true), pull(2, true)]);
    answer(&mut run, "y");
    for _ in 0..3 {
        exited(&mut run, true);
    }
    exited(&mut run, false);
    exited(&mut run, false);
    assert_eq!(run.get_phase(), Phase::Merging(MergeStep::Cleanup));
    exited(&mut run, false);
    assert_eq!(run.get_position(), 1);
    assert_eq!(run.get_phase(), Phase::Prompting);
}

#[test]
fn run_quits_with_pull_requests_left() {
    let mut run = Run::new(vec![pull(1, true), pull(2, true), pull(3, true)]);
    answer(&mut run, "n");
    assert!(run.advance(Event::Answer(String::from("q\n"))).is_ok());
    assert!(run.is_done());
    assert_eq!(run.get_position(), 1);
    assert!(finished(&run));
    assert!(run.advance(Event::Answer(String::from("y"))).is_ok());
    assert!(run.advance(Event::Exited(true)).is_ok());
    assert!(run.is_done());
    assert_eq!(run.get_position(), 1);
}

#[test]
fn run_quits_at_the_first_question() {
    let mut run = Run::new(vec![pull(1, true)]);
    assert!(run.advance(Event::Answer(String::from("Q"))).is_ok());
    assert!(run.is_done());
    assert!(finished(&run));
}

#[test]
fn run_fails_when_a_command_cannot_be_started() {
    for steps in 0..4 {
        let mut run = Run::new(vec![pull(1, true), pull(2, true)]);
        answer(&mut run, "y");
        for _ in 0..steps {
            exited(&mut run, true);
        }
        let failure = IoError { code: Some(2), detail: String::from("No such file or directory") };
        match run.advance(Event::Failed(failure)) {
            Err(Error::GitError(error)) => {
                assert_eq!(error.code, Some(2));
                assert_eq!(error.detail, "No such file or directory");
            }
            other => panic!("{:?}", other),
        }
        assert!(run.is_done());
        assert!(finished(&run));
    }
}

#[test]
fn run_fails_when_the_abort_cannot_be_started() {
    let mut run = Run::new(vec![pull(1, true)]);
    answer(&mut run, "y");
    for _ in 0..3 {
        exited(&mut run, true);
    }
    exited(&mut run, false);
    let failure = IoError { code: None, detail: String::from("gone") };
    assert!(matches!(run.advance(Event::Failed(failure)), Err(Error::GitError(_))));
    assert!(run.is_done());
}

#[test]
fn run_ignores_what_it_does_not_wait_for() {
    let mut run = Run::new(vec![pull(1, true)]);
    assert!(run.advance(Event::Exited(true)).is_ok());
    let failure = IoError { code: None, detail: String::from("stray") };
    assert!(run.advance(Event::Failed(failure)).is_ok());
    assert_eq!(run.get_phase(), Phase::Prompting);
    answer(&mut run, "y");
    answer(&mut run, "q");
    assert_eq!(run.get_phase(), Phase::Merging(MergeStep::RemoveStale));
}
