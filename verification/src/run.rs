//! A run over the selected pull requests: asking the operator and merging.
//!
//! The run itself reads no line and starts no command. It says what is to be
//! done next, and is told what came of it.

use vstd::prelude::*;
use crate::error::{Error, IoError, IoFault};
use crate::merge::{
    command_failed, command_failure, merge_command, merge_pull_request, MergeStep, Sequel,
};
use crate::model::{PullRequest, PullRequestView};
use crate::prompt::{get_prompt, prompt_of, Prompt};
use crate::text::{decimal, push_decimal};

verus! {

/// Where a run stands.
#[derive(Clone, Copy, Debug, PartialEq, Eq, Structural)]
pub enum Phase {
    /// The operator is being asked about the current pull request.
    Prompting,
    /// The current pull request is being merged; this step's command runs.
    Merging(MergeStep),
    /// The run is over.
    Done,
}

/// What the caller is to do next.
#[derive(Debug)]
pub enum Action {
    /// Show this text, read one line and report it as `Event::Answer`.
    Ask(String),
    /// Run git with these arguments and report how it ended.
    Git(Vec<String>),
    /// Tell the operator that the merge failed, then run git with these
    /// arguments and report how it ended.
    Abort(Vec<String>),
    /// Nothing: the run is over.
    Finish,
}

/// An action as mathematics.
pub ghost enum ActionView {
    Ask(Seq<char>),
    Git(Seq<Seq<char>>),
    Abort(Seq<Seq<char>>),
    Finish,
}

impl View for Action {
    type V = ActionView;

    open spec fn view(&self) -> ActionView {
        match self {
            Action::Ask(text) => ActionView::Ask(text@),
            Action::Git(arguments) => ActionView::Git(arguments.deep_view()),
            Action::Abort(arguments) => ActionView::Abort(arguments.deep_view()),
            Action::Finish => ActionView::Finish,
        }
    }
}

/// What came of the last action.
#[derive(Debug)]
pub enum Event {
    /// The line that the operator typed.
    Answer(String),
    /// The command ran and ended; `true` where its exit status was zero.
    Exited(bool),
    /// The command could not be started.
    Failed(IoError),
}

/// The question about one pull request, as the operator sees it.
pub open spec fn question(pull: PullRequestView) -> Seq<char> {
    "merge #"@ + decimal(pull.number as nat) + " \""@ + pull.title + "\"?\n[y/N/q]: "@
}

/// Writes the question about `pull`.
pub fn write_question(pull: &PullRequest) -> (text: String)
    ensures
        text@ == question(pull@),
{
    let mut text = String::from_str("merge #");
    push_decimal(&mut text, pull.number);
    text.append(" \"");
    text.append(pull.title.as_str());
    text.append("\"?\n[y/N/q]: ");
    text
}

/// A run: the selected pull requests, the one that is current, and the phase.
pub struct Run {
    pulls: Vec<PullRequest>,
    position: usize,
    phase: Phase,
}

impl Run {
    /// The pull requests of the run, in the order in which they are taken.
    pub closed spec fn pulls(self) -> Seq<PullRequest> {
        self.pulls@
    }

    /// The place of the current pull request in `pulls`.
    pub closed spec fn position(self) -> int {
        self.position as int
    }

    /// The phase of the run.
    pub closed spec fn phase(self) -> Phase {
        self.phase
    }

    /// The current pull request; meaningful while the run is not over.
    pub open spec fn current(self) -> PullRequest {
        self.pulls()[self.position()]
    }

    /// What holds of every run: while it is not over there is a current pull
    /// request, and one that is being merged has a repository.
    pub open spec fn wf(self) -> bool {
        &&& 0 <= self.position() <= self.pulls().len()
        &&& self.phase() != Phase::Done ==> self.position() < self.pulls().len()
        &&& self.phase() is Merging ==> self.current().head.repo is Some
    }

    #[verifier::type_invariant]
    closed spec fn inv(self) -> bool {
        self.wf()
    }

    /// The phase in which the pull request at `position` is taken up: asking
    /// about it, or the end where there is none left.
    pub open spec fn phase_at(self, position: int) -> Phase {
        if position < self.pulls().len() {
            Phase::Prompting
        } else {
            Phase::Done
        }
    }

    /// The position after `event`. The run goes on to the next pull request
    /// when the operator declines the current one, when the current one has
    /// no repository, and when the last command of its merge has ended.
    pub open spec fn next_position(self, event: Event) -> int {
        match (self.phase(), event) {
            (Phase::Prompting, Event::Answer(line)) => match prompt_of(line@) {
                Some(Prompt::No) => self.position() + 1,
                Some(Prompt::Yes) => if self.current().head.repo is None {
                    self.position() + 1
                } else {
                    self.position()
                },
                _ => self.position(),
            },
            (Phase::Merging(step), Event::Exited(succeeded)) => if step.spec_after(succeeded)
                == Sequel::Over {
                self.position() + 1
            } else {
                self.position()
            },
            _ => self.position(),
        }
    }

    /// The phase after `event`.
    ///
    /// While asking: `y` starts the merge, or goes on to the next pull
    /// request where this one has no repository; `n` goes on to the next;
    /// `q` ends the run; another line changes nothing. While merging: a
    /// command that ended is followed by what `MergeStep::after` says: the
    /// next step, the next pull request after the last step, or the end of
    /// the run where adding the remote or fetching from it has failed; a
    /// command that could not be started ends the run. An event that the
    /// phase does not wait for changes nothing.
    pub open spec fn next_phase(self, event: Event) -> Phase {
        match (self.phase(), event) {
            (Phase::Prompting, Event::Answer(line)) => match prompt_of(line@) {
                Some(Prompt::No) => self.phase_at(self.position() + 1),
                Some(Prompt::Quit) => Phase::Done,
                Some(Prompt::Yes) => if self.current().head.repo is None {
                    self.phase_at(self.position() + 1)
                } else {
                    Phase::Merging(MergeStep::RemoveStale)
                },
                None => Phase::Prompting,
            },
            (Phase::Merging(step), Event::Exited(succeeded)) => match step.spec_after(succeeded) {
                Sequel::Step(next) => Phase::Merging(next),
                Sequel::Over => self.phase_at(self.position() + 1),
                Sequel::Failure => Phase::Done,
            },
            (Phase::Merging(_), Event::Failed(_)) => Phase::Done,
            _ => self.phase(),
        }
    }

    /// The failure that `event` ends the run with, if it does: a command of
    /// a merge that could not be started, or the adding of the remote or the
    /// fetching from it that ended with another exit status than zero.
    pub open spec fn failure(self, event: Event) -> Option<IoFault> {
        match (self.phase(), event) {
            (Phase::Merging(_), Event::Failed(error)) => Some(error@),
            (Phase::Merging(step), Event::Exited(succeeded)) => if step.spec_after(succeeded)
                == Sequel::Failure {
                Some(command_failure())
            } else {
                None
            },
            _ => None,
        }
    }

    /// Whether `after` is the run that `event` makes of this one.
    pub open spec fn steps_to(self, event: Event, after: Run) -> bool {
        &&& after.pulls() == self.pulls()
        &&& after.position() == self.next_position(event)
        &&& after.phase() == self.next_phase(event)
    }

    /// What the run asks for in its phase: the question about the current
    /// pull request, the command of the current step, or nothing.
    pub open spec fn spec_action(self) -> ActionView {
        match self.phase() {
            Phase::Prompting => ActionView::Ask(question(self.current()@)),
            Phase::Merging(step) => match merge_command(self.current()@, step) {
                Some(arguments) => if step == MergeStep::Abort {
                    ActionView::Abort(arguments)
                } else {
                    ActionView::Git(arguments)
                },
                None => ActionView::Finish,
            },
            Phase::Done => ActionView::Finish,
        }
    }

    /// A run over `pulls`, which starts by asking about the first of them.
    pub fn new(pulls: Vec<PullRequest>) -> (run: Run)
        ensures
            run.wf(),
            run.pulls() == pulls@,
            run.position() == 0,
            run.phase() == run.phase_at(0),
    {
        let phase = if pulls.len() > 0 {
            Phase::Prompting
        } else {
            Phase::Done
        };
        Run { pulls, position: 0, phase }
    }

    /// The phase of the run.
    pub fn get_phase(&self) -> (phase: Phase)
        ensures
            phase == self.phase(),
    {
        self.phase
    }

    /// How many pull requests the run has left behind it.
    pub fn get_position(&self) -> (position: usize)
        ensures
            position == self.position(),
    {
        self.position
    }

    /// Whether the run is over.
    pub fn is_done(&self) -> (done: bool)
        ensures
            done == (self.phase() == Phase::Done),
    {
        match self.phase {
            Phase::Done => true,
            _ => false,
        }
    }

    /// What is to be done next.
    pub fn action(&self) -> (action: Action)
        ensures
            self.wf(),
            action@ == self.spec_action(),
    {
        proof {
            use_type_invariant(self);
        }
        match self.phase {
            Phase::Prompting => Action::Ask(write_question(&self.pulls[self.position])),
            Phase::Merging(step) => {
                match merge_pull_request(&self.pulls[self.position], step) {
                    Some(arguments) => match step {
                        MergeStep::Abort => Action::Abort(arguments),
                        _ => Action::Git(arguments),
                    },
                    None => Action::Finish,
                }
            },
            Phase::Done => Action::Finish,
        }
    }

    fn move_on(&mut self)
        requires
            old(self).position < old(self).pulls.len(),
        ensures
            final(self).pulls == old(self).pulls,
            final(self).position == old(self).position + 1,
            final(self).phase == old(self).phase_at(old(self).position + 1),
            final(self).wf(),
    {
        let next = self.position + 1;
        let phase = if next < self.pulls.len() {
            Phase::Prompting
        } else {
            Phase::Done
        };
        self.phase = phase;
        self.position = next;
    }

    /// Takes in what came of the last action.
    ///
    /// The run afterwards is the one that `steps_to` describes. The result
    /// is an error exactly when `failure` names one: a command of a merge
    /// could not be started, or the remote could not be added or fetched
    /// from. The run is then over.
    pub fn advance(&mut self, event: Event) -> (result: Result<(), Error>)
        ensures
            old(self).wf(),
            final(self).wf(),
            old(self).steps_to(event, *final(self)),
            match result {
                Ok(_) => old(self).failure(event) is None,
                Err(error) => error matches Error::GitError(failure) && old(self).failure(event)
                    == Some(failure@),
            },
    {
        proof {
            use_type_invariant(&*self);
        }
        match self.phase {
            Phase::Prompting => match event {
                Event::Answer(line) => {
                    match get_prompt(line.as_str()) {
                        Some(Prompt::No) => {
                            self.move_on();
                        },
                        Some(Prompt::Quit) => {
                            self.phase = Phase::Done;
                        },
                        Some(Prompt::Yes) => {
                            if self.pulls[self.position].head.repo.is_none() {
                                self.move_on();
                            } else {
                                self.phase = Phase::Merging(MergeStep::RemoveStale);
                            }
                        },
                        None => {},
                    }
                    Ok(())
                },
                _ => Ok(()),
            },
            Phase::Merging(step) => match event {
                Event::Exited(succeeded) => {
                    match step.after(succeeded) {
                        Sequel::Step(next) => {
                            self.phase = Phase::Merging(next);
                            Ok(())
                        },
                        Sequel::Over => {
                            self.move_on();
                            Ok(())
                        },
                        Sequel::Failure => {
                            self.phase = Phase::Done;
                            Err(Error::GitError(command_failed()))
                        },
                    }
                },
                Event::Failed(error) => {
                    self.phase = Phase::Done;
                    Err(Error::GitError(error))
                },
                _ => Ok(()),
            },
            Phase::Done => Ok(()),
        }
    }
}

/// Git is never asked for on behalf of a pull request without a repository:
/// where a run asks for a command, its current pull request has one.
pub proof fn lemma_commands_need_repository(run: Run)
    requires
        run.wf(),
    ensures
        run.spec_action() is Git || run.spec_action() is Abort ==> run.phase() is Merging
            && run.current().head.repo is Some,
{
}

/// A pull request without a repository starts no command and is no failure.
/// Whatever comes in while the run is at it, the run afterwards asks a
/// question or is over, and no error is reported; once the operator says
/// yes, the run has gone on to the next pull request.
pub proof fn lemma_absent_repository_runs_nothing(run: Run, event: Event, after: Run)
    requires
        run.wf(),
        run.phase() != Phase::Done,
        run.current().head.repo is None,
        run.steps_to(event, after),
    ensures
        after.wf(),
        run.failure(event) is None,
        after.spec_action() is Ask || after.spec_action() is Finish,
        event matches Event::Answer(line) && prompt_of(line@) == Some(Prompt::Yes)
            ==> after.position() == run.position() + 1 && after.phase() == run.phase_at(
            run.position() + 1,
        ),
{
}

/// A merge that ends with a conflict is abandoned once and the run goes on.
/// After the failed merge the run asks for `merge --abort`, then for the
/// removal of the remote and for no second abort, and then takes up the next
/// pull request: it asks about it where there is one. None of these steps
/// reports an error, however the two commands end.
pub proof fn lemma_conflict_is_recovered(
    run: Run,
    aborting: Run,
    cleaning: Run,
    after: Run,
    aborted: bool,
    cleaned: bool,
)
    requires
        run.wf(),
        run.phase() == Phase::Merging(MergeStep::Merge),
        run.steps_to(Event::Exited(false), aborting),
        aborting.steps_to(Event::Exited(aborted), cleaning),
        cleaning.steps_to(Event::Exited(cleaned), after),
    ensures
        run.failure(Event::Exited(false)) is None,
        aborting.failure(Event::Exited(aborted)) is None,
        cleaning.failure(Event::Exited(cleaned)) is None,
        aborting.spec_action() == ActionView::Abort(seq!["merge"@, "--abort"@]),
        cleaning.spec_action() == ActionView::Git(
            seq!["remote"@, "rm"@, run.current().head.user.login@],
        ),
        after.wf(),
        after.position() == run.position() + 1,
        after.phase() == run.phase_at(run.position() + 1),
        run.position() + 1 < run.pulls().len() ==> after.spec_action() == ActionView::Ask(
            question(run.pulls()[run.position() + 1]@),
        ),
{
}

/// A remote that cannot be added, and a branch that cannot be fetched, end
/// the run with an error: nothing is merged and nothing more is asked for.
pub proof fn lemma_failed_step_ends_the_run(run: Run, after: Run)
    requires
        run.wf(),
        run.phase() == Phase::Merging(MergeStep::AddRemote) || run.phase() == Phase::Merging(
            MergeStep::Fetch,
        ),
        run.steps_to(Event::Exited(false), after),
    ensures
        run.failure(Event::Exited(false)) == Some(command_failure()),
        after.phase() == Phase::Done,
        after.position() == run.position(),
        after.spec_action() is Finish,
{
}

/// The first removal of a remote is a precaution: however it ends, the
/// remote is added next, and no error is reported.
pub proof fn lemma_stale_removal_may_fail(run: Run, succeeded: bool, after: Run)
    requires
        run.wf(),
        run.phase() == Phase::Merging(MergeStep::RemoveStale),
        run.steps_to(Event::Exited(succeeded), after),
    ensures
        run.failure(Event::Exited(succeeded)) is None,
        after.phase() == Phase::Merging(MergeStep::AddRemote),
        after.position() == run.position(),
{
}

/// The answer `q` ends the run without an error, whatever pull requests are
/// left.
pub proof fn lemma_quit_ends_the_run(run: Run, line: String, after: Run)
    requires
        run.wf(),
        run.phase() == Phase::Prompting,
        prompt_of(line@) == Some(Prompt::Quit),
        run.steps_to(Event::Answer(line), after),
    ensures
        after.wf(),
        after.phase() == Phase::Done,
        after.spec_action() is Finish,
        run.failure(Event::Answer(line)) is None,
{
}

/// A run that is over stays over: it asks for nothing more, no event moves
/// it and none makes it fail.
pub proof fn lemma_done_is_final(run: Run, event: Event, after: Run)
    requires
        run.wf(),
        run.phase() == Phase::Done,
        run.steps_to(event, after),
    ensures
        run.spec_action() is Finish,
        after.phase() == Phase::Done,
        after.position() == run.position(),
        run.failure(event) is None,
{
}

/// An answer that is none of `y`, `n` and `q` leaves the run where it is:
/// the same question is asked again.
pub proof fn lemma_other_answer_asks_again(run: Run, line: String, after: Run)
    requires
        run.wf(),
        run.phase() == Phase::Prompting,
        prompt_of(line@) is None,
        run.steps_to(Event::Answer(line), after),
    ensures
        after.position() == run.position(),
        after.phase() == Phase::Prompting,
        after.spec_action() == run.spec_action(),
{
}

} // verus!
