//! The git commands that merge one pull request.

use vstd::prelude::*;
use crate::error::{IoError, IoFault};
use crate::model::{PullRequest, PullRequestView};
use crate::text::{decimal, push_decimal};

verus! {

/// The commands of one merge, in the order in which they run. `Abort` runs
/// only after a merge that failed.
#[derive(Clone, Copy, Debug, PartialEq, Eq, Structural)]
pub enum MergeStep {
    /// Remove a remote that an earlier run may have left under the author's
    /// name.
    RemoveStale,
    /// Add the author's repository as a remote.
    AddRemote,
    /// Fetch the branch from that remote.
    Fetch,
    /// Merge the fetched commit.
    Merge,
    /// Abandon the merge that is under way.
    Abort,
    /// Remove the remote again.
    Cleanup,
}

/// What follows a step of a merge.
#[derive(Clone, Copy, Debug, PartialEq, Eq, Structural)]
pub enum Sequel {
    /// This step.
    Step(MergeStep),
    /// Nothing: the merge is over, and the next pull request is taken up.
    Over,
    /// Nothing: the step has failed, and the run ends with an error.
    Failure,
}

impl MergeStep {
    /// What follows this step. `succeeded` tells whether the command of the
    /// step ended with exit status zero.
    ///
    /// The first removal is a precaution: however it ends, the remote is
    /// added next. Adding the remote and fetching from it must succeed: a
    /// failure of either ends the run, and nothing is merged. A merge that
    /// fails is abandoned, and however that ends, the remote is removed. The
    /// last removal ends the merge, however it ends itself: a remote that it
    /// leaves behind is what the first removal of a later merge is for.
    pub open spec fn spec_after(self, succeeded: bool) -> Sequel {
        match self {
            MergeStep::RemoveStale => Sequel::Step(MergeStep::AddRemote),
            MergeStep::AddRemote => if succeeded {
                Sequel::Step(MergeStep::Fetch)
            } else {
                Sequel::Failure
            },
            MergeStep::Fetch => if succeeded {
                Sequel::Step(MergeStep::Merge)
            } else {
                Sequel::Failure
            },
            MergeStep::Merge => if succeeded {
                Sequel::Step(MergeStep::Cleanup)
            } else {
                Sequel::Step(MergeStep::Abort)
            },
            MergeStep::Abort => Sequel::Step(MergeStep::Cleanup),
            MergeStep::Cleanup => Sequel::Over,
        }
    }

    /// What follows this step, given how its command ended.
    #[verifier::when_used_as_spec(spec_after)]
    pub fn after(self, succeeded: bool) -> (sequel: Sequel)
        ensures
            sequel == self.spec_after(succeeded),
    {
        match self {
            MergeStep::RemoveStale => Sequel::Step(MergeStep::AddRemote),
            MergeStep::AddRemote => if succeeded {
                Sequel::Step(MergeStep::Fetch)
            } else {
                Sequel::Failure
            },
            MergeStep::Fetch => if succeeded {
                Sequel::Step(MergeStep::Merge)
            } else {
                Sequel::Failure
            },
            MergeStep::Merge => if succeeded {
                Sequel::Step(MergeStep::Cleanup)
            } else {
                Sequel::Step(MergeStep::Abort)
            },
            MergeStep::Abort => Sequel::Step(MergeStep::Cleanup),
            MergeStep::Cleanup => Sequel::Over,
        }
    }
}

/// What is said of a command that ran and failed.
pub const COMMAND_FAILED: &'static str = "git ended with a failure";

/// The failure of a command that ran and ended with another exit status than
/// zero.
pub open spec fn command_failure() -> IoFault {
    IoFault { code: None, detail: COMMAND_FAILED@ }
}

/// Makes the failure of a command that ran and ended with another exit
/// status than zero.
pub fn command_failed() -> (failure: IoError)
    ensures
        failure@ == command_failure(),
{
    IoError { code: None, detail: String::from_str(COMMAND_FAILED) }
}

/// The message of the merge commit.
pub open spec fn merge_message(pull: PullRequestView) -> Seq<char> {
    "rollup merge of #"@ + decimal(pull.number as nat) + ": "@ + pull.head.login + "/"@
        + pull.head.ref_ + "\r\n\r\n"@ + match pull.body {
        Some(b) => b,
        None => Seq::empty(),
    }
}

/// The arguments that git gets for one step of the merge of `pull`, whose
/// repository is at `git_url`.
pub open spec fn merge_arguments(pull: PullRequestView, git_url: Seq<char>, step: MergeStep) -> Seq<
    Seq<char>,
> {
    match step {
        MergeStep::RemoveStale | MergeStep::Cleanup => seq!["remote"@, "rm"@, pull.head.login],
        MergeStep::AddRemote => seq!["remote"@, "add"@, pull.head.login, git_url],
        MergeStep::Fetch => seq!["fetch"@, pull.head.login, pull.head.ref_],
        MergeStep::Merge => seq![
            "merge"@,
            "--no-ff"@,
            "-m"@,
            merge_message(pull),
            pull.head.sha,
        ],
        MergeStep::Abort => seq!["merge"@, "--abort"@],
    }
}

/// The git command of one step, or `None` where the pull request has no
/// repository to merge from.
pub open spec fn merge_command(pull: PullRequestView, step: MergeStep) -> Option<Seq<Seq<char>>> {
    match pull.head.git_url {
        Some(url) => Some(merge_arguments(pull, url, step)),
        None => None,
    }
}

/// Writes the message of the merge commit of `pull`.
pub fn write_merge_message(pull: &PullRequest) -> (message: String)
    ensures
        message@ == merge_message(pull@),
{
    let mut message = String::from_str("rollup merge of #");
    push_decimal(&mut message, pull.number);
    message.append(": ");
    message.append(pull.head.user.login.as_str());
    message.append("/");
    message.append(pull.head.ref_.as_str());
    message.append("\r\n\r\n");
    match &pull.body {
        Some(b) => {
            message.append(b.as_str());
        },
        None => {
            assert(message@ + Seq::<char>::empty() == message@);
        },
    }
    message
}

/// The arguments of the git command for one step of merging `pull`.
///
/// A pull request whose head has no repository cannot be merged: for it
/// there is no command, whatever the step.
pub fn merge_pull_request(pull: &PullRequest, step: MergeStep) -> (command: Option<Vec<String>>)
    ensures
        command is None <==> pull.head.repo is None,
        match command {
            Some(arguments) => Some(arguments.deep_view()) == merge_command(pull@, step),
            None => merge_command(pull@, step) is None,
        },
{
    let git_url = match &pull.head.repo {
        Some(repository) => repository.git_url.clone(),
        None => {
            return None;
        },
    };
    let login = pull.head.user.login.clone();
    let mut arguments: Vec<String> = Vec::new();
    match step {
        MergeStep::RemoveStale | MergeStep::Cleanup => {
            arguments.push(String::from_str("remote"));
            arguments.push(String::from_str("rm"));
            arguments.push(login);
        },
        MergeStep::AddRemote => {
            arguments.push(String::from_str("remote"));
            arguments.push(String::from_str("add"));
            arguments.push(login);
            arguments.push(git_url);
        },
        MergeStep::Fetch => {
            arguments.push(String::from_str("fetch"));
            arguments.push(login);
            arguments.push(pull.head.ref_.clone());
        },
        MergeStep::Merge => {
            arguments.push(String::from_str("merge"));
            arguments.push(String::from_str("--no-ff"));
            arguments.push(String::from_str("-m"));
            arguments.push(write_merge_message(pull));
            arguments.push(pull.head.sha.clone());
        },
        MergeStep::Abort => {
            arguments.push(String::from_str("merge"));
            arguments.push(String::from_str("--abort"));
        },
    }
    assert(arguments.deep_view() =~= merge_arguments(pull@, git_url@, step));
    Some(arguments)
}

} // verus!
