//! The records that a roll-up run works on.

use vstd::prelude::*;

verus! {

/// The account that opened a pull request.
#[derive(Clone, Debug)]
pub struct User {
    pub login: String,
}

/// The repository that a pull request's branch lives in.
#[derive(Clone, Debug)]
pub struct Repository {
    pub git_url: String,
}

/// The head of a pull request: the branch to merge and where it is found.
#[derive(Clone, Debug)]
pub struct Commit {
    pub user: User,
    /// Absent when the branch or its fork has been deleted.
    pub repo: Option<Repository>,
    pub sha: String,
    pub ref_: String,
}

/// An open pull request.
#[derive(Clone, Debug)]
pub struct PullRequest {
    pub number: u64,
    pub title: String,
    pub head: Commit,
    pub body: Option<String>,
}

/// What the build bot says of one pull request.
#[derive(Clone, Debug)]
pub struct PullRequestStatus {
    pub num: u64,
    pub state: String,
}

/// The command line of a run.
#[derive(Clone, Debug)]
pub struct Args {
    pub arg_repository: String,
    pub flag_min: Option<u64>,
}

/// A head as mathematics: every text is a sequence of characters.
pub ghost struct CommitView {
    pub login: Seq<char>,
    pub git_url: Option<Seq<char>>,
    pub sha: Seq<char>,
    pub ref_: Seq<char>,
}

/// A pull request as mathematics.
pub ghost struct PullRequestView {
    pub number: u64,
    pub title: Seq<char>,
    pub head: CommitView,
    pub body: Option<Seq<char>>,
}

impl View for Commit {
    type V = CommitView;

    open spec fn view(&self) -> CommitView {
        CommitView {
            login: self.user.login@,
            git_url: match self.repo {
                Some(r) => Some(r.git_url@),
                None => None,
            },
            sha: self.sha@,
            ref_: self.ref_@,
        }
    }
}

impl View for PullRequest {
    type V = PullRequestView;

    open spec fn view(&self) -> PullRequestView {
        PullRequestView {
            number: self.number,
            title: self.title@,
            head: self.head@,
            body: match self.body {
                Some(b) => Some(b@),
                None => None,
            },
        }
    }
}

impl DeepView for PullRequest {
    type V = PullRequestView;

    open spec fn deep_view(&self) -> PullRequestView {
        self@
    }
}

impl DeepView for PullRequestStatus {
    type V = (u64, Seq<char>);

    open spec fn deep_view(&self) -> (u64, Seq<char>) {
        self@
    }
}

impl View for PullRequestStatus {
    type V = (u64, Seq<char>);

    open spec fn view(&self) -> (u64, Seq<char>) {
        (self.num, self.state@)
    }
}

impl Args {
    /// The lowest pull request number that the run considers.
    pub open spec fn spec_threshold(&self) -> u64 {
        match self.flag_min {
            Some(m) => m,
            None => 0,
        }
    }

    /// The lowest pull request number that the run considers: the number
    /// given on the command line, or 0 where none was given.
    #[verifier::when_used_as_spec(spec_threshold)]
    pub fn threshold(&self) -> (m: u64)
        ensures
            m == self.spec_threshold(),
    {
        match self.flag_min {
            Some(m) => m,
            None => 0,
        }
    }
}

} // verus!
