//! Reading the records of a run out of JSON values.
//!
//! A record is an object; each of its fields is read by name. A field that
//! must be there and is not is a `MissingFieldError`; a value of another kind
//! than the one needed is an `ExpectedError`. The fields of a record are read
//! in the order in which the record declares them, and the first failure is
//! the one reported.

use vstd::prelude::*;
use crate::error::{DecoderError, Fault, Kind};
use crate::json::{fields_view, items_view, lemma_array_view, lemma_object_view, Tree, Value};
use crate::model::{
    Commit, CommitView, PullRequest, PullRequestStatus, PullRequestView, Repository, User,
};
use crate::text::{numeral, read_numeral};

verus! {

/// The value of the first of `entries` whose name is `name`.
pub open spec fn lookup(entries: Seq<(Seq<char>, Tree)>, name: Seq<char>) -> Option<Tree>
    decreases entries.len(),
{
    if entries.len() == 0 {
        None
    } else if entries[0].0 == name {
        Some(entries[0].1)
    } else {
        lookup(entries.skip(1), name)
    }
}

/// The field `name` of an object, which must be there.
pub open spec fn required(value: Tree, name: Seq<char>) -> Result<Tree, Fault> {
    match value {
        Tree::Object(entries) => match lookup(entries, name) {
            Some(found) => Ok(found),
            None => Err(Fault::MissingField(name)),
        },
        _ => Err(Fault::Expected(Kind::Object, value.kind())),
    }
}

/// The field `name` of an object, which may be left out or be `null`.
pub open spec fn optional(value: Tree, name: Seq<char>) -> Result<Option<Tree>, Fault> {
    match value {
        Tree::Object(entries) => match lookup(entries, name) {
            Some(Tree::Null) => Ok(None),
            Some(found) => Ok(Some(found)),
            None => Ok(None),
        },
        _ => Err(Fault::Expected(Kind::Object, value.kind())),
    }
}

/// A value read as a text.
pub open spec fn text_of(value: Tree) -> Result<Seq<char>, Fault> {
    match value {
        Tree::Text(text) => Ok(text),
        _ => Err(Fault::Expected(Kind::Text, value.kind())),
    }
}

/// A value read as a number that is not below zero. The number may be
/// written as a text, as the names of fields are: the text must then be a
/// numeral.
pub open spec fn number_of(value: Tree) -> Result<u64, Fault> {
    match value {
        Tree::U64(n) => Ok(n),
        Tree::I64(n) => if n >= 0 {
            Ok(n as u64)
        } else {
            Err(Fault::Expected(Kind::U64, Kind::I64))
        },
        Tree::Text(text) => match numeral(text) {
            Some(n) => Ok(n),
            None => Err(Fault::Expected(Kind::U64, Kind::Text)),
        },
        _ => Err(Fault::Expected(Kind::U64, value.kind())),
    }
}

/// The field `name` of an object, read as a text.
pub open spec fn text_field(value: Tree, name: Seq<char>) -> Result<Seq<char>, Fault> {
    match required(value, name) {
        Ok(found) => text_of(found),
        Err(fault) => Err(fault),
    }
}

/// The field `name` of an object, read as a number.
pub open spec fn number_field(value: Tree, name: Seq<char>) -> Result<u64, Fault> {
    match required(value, name) {
        Ok(found) => number_of(found),
        Err(fault) => Err(fault),
    }
}

/// A user: the text of the field `login`.
pub open spec fn user_of(value: Tree) -> Result<Seq<char>, Fault> {
    text_field(value, "login"@)
}

/// A repository: the text of the field `git_url`.
pub open spec fn repository_of(value: Tree) -> Result<Seq<char>, Fault> {
    text_field(value, "git_url"@)
}

/// The repository of a head, which may be absent.
pub open spec fn head_repository_of(value: Tree) -> Result<Option<Seq<char>>, Fault> {
    match optional(value, "repo"@) {
        Ok(Some(found)) => match repository_of(found) {
            Ok(url) => Ok(Some(url)),
            Err(fault) => Err(fault),
        },
        Ok(None) => Ok(None),
        Err(fault) => Err(fault),
    }
}

/// The user of a head.
pub open spec fn head_user_of(value: Tree) -> Result<Seq<char>, Fault> {
    match required(value, "user"@) {
        Ok(found) => user_of(found),
        Err(fault) => Err(fault),
    }
}

/// A head: the fields `user`, `repo`, `sha` and `ref`.
pub open spec fn commit_of(value: Tree) -> Result<CommitView, Fault> {
    match head_user_of(value) {
        Err(fault) => Err(fault),
        Ok(login) => match head_repository_of(value) {
            Err(fault) => Err(fault),
            Ok(git_url) => match text_field(value, "sha"@) {
                Err(fault) => Err(fault),
                Ok(sha) => match text_field(value, "ref"@) {
                    Err(fault) => Err(fault),
                    Ok(ref_) => Ok(CommitView { login, git_url, sha, ref_ }),
                },
            },
        },
    }
}

/// The head of a pull request.
pub open spec fn pull_head_of(value: Tree) -> Result<CommitView, Fault> {
    match required(value, "head"@) {
        Ok(found) => commit_of(found),
        Err(fault) => Err(fault),
    }
}

/// The description of a pull request, which may be absent.
pub open spec fn pull_body_of(value: Tree) -> Result<Option<Seq<char>>, Fault> {
    match optional(value, "body"@) {
        Ok(Some(found)) => match text_of(found) {
            Ok(words) => Ok(Some(words)),
            Err(fault) => Err(fault),
        },
        Ok(None) => Ok(None),
        Err(fault) => Err(fault),
    }
}

/// A pull request: the fields `number`, `title`, `head` and `body`.
pub open spec fn pull_of(value: Tree) -> Result<PullRequestView, Fault> {
    match number_field(value, "number"@) {
        Err(fault) => Err(fault),
        Ok(number) => match text_field(value, "title"@) {
            Err(fault) => Err(fault),
            Ok(title) => match pull_head_of(value) {
                Err(fault) => Err(fault),
                Ok(head) => match pull_body_of(value) {
                    Err(fault) => Err(fault),
                    Ok(body) => Ok(PullRequestView { number, title, head, body }),
                },
            },
        },
    }
}

/// A status: the fields `num` and `state`.
pub open spec fn status_of(value: Tree) -> Result<(u64, Seq<char>), Fault> {
    match number_field(value, "num"@) {
        Err(fault) => Err(fault),
        Ok(num) => match text_field(value, "state"@) {
            Err(fault) => Err(fault),
            Ok(state) => Ok((num, state)),
        },
    }
}

/// A record that stands in lists: it says how it is read from a value.
pub trait Record: Sized + DeepView {
    /// What reading the value gives.
    spec fn read(value: Tree) -> Result<<Self as DeepView>::V, Fault>;

    /// Reads the record from the value that describes it.
    fn decode_record(value: &Value) -> (record: Result<Self, DecoderError>)
        ensures
            match record {
                Ok(r) => Self::read(value@) == Ok::<<Self as DeepView>::V, Fault>(r.deep_view()),
                Err(error) => Self::read(value@) == Err::<<Self as DeepView>::V, Fault>(error@),
            },
    ;
}

/// How records of one type are read, as a function.
pub open spec fn reader<T: Record>() -> spec_fn(Tree) -> Result<<T as DeepView>::V, Fault> {
    |value: Tree| T::read(value)
}

/// Whether `items[i]` is the first of `items` that `read` fails on.
pub open spec fn is_first_failure<V>(
    items: Seq<Tree>,
    read: spec_fn(Tree) -> Result<V, Fault>,
    i: int,
) -> bool {
    &&& 0 <= i < items.len()
    &&& read(items[i]) is Err
    &&& forall|j: int| 0 <= j < i ==> (#[trigger] read(items[j])) is Ok
}

/// An array read item by item: the results in order, or the failure of the
/// first item that cannot be read.
pub open spec fn each<V>(value: Tree, read: spec_fn(Tree) -> Result<V, Fault>) -> Result<
    Seq<V>,
    Fault,
> {
    match value {
        Tree::Array(items) => if exists|i: int| is_first_failure(items, read, i) {
            Err(read(items[choose|i: int| is_first_failure(items, read, i)])->Err_0)
        } else {
            Ok(Seq::new(items.len(), |i: int| read(items[i])->Ok_0))
        },
        _ => Err(Fault::Expected(Kind::Array, value.kind())),
    }
}

/// A list of pull requests.
pub open spec fn pulls_of(value: Tree) -> Result<Seq<PullRequestView>, Fault> {
    each(value, reader::<PullRequest>())
}

/// A list of statuses.
pub open spec fn statuses_of(value: Tree) -> Result<Seq<(u64, Seq<char>)>, Fault> {
    each(value, reader::<PullRequestStatus>())
}

/// The first failure decides what reading an array gives.
pub proof fn lemma_first_failure<V>(
    items: Seq<Tree>,
    read: spec_fn(Tree) -> Result<V, Fault>,
    i: int,
)
    requires
        is_first_failure(items, read, i),
    ensures
        each(Tree::Array(items), read) == Err::<Seq<V>, Fault>(read(items[i])->Err_0),
{
    let c = choose|c: int| is_first_failure(items, read, c);
    assert(is_first_failure(items, read, c));
    if c < i {
        assert(read(items[c]) is Ok);
    }
    if i < c {
        assert(read(items[i]) is Ok);
    }
}

/// An array whose items can all be read gives their results in order.
pub proof fn lemma_no_failure<V>(
    items: Seq<Tree>,
    read: spec_fn(Tree) -> Result<V, Fault>,
    results: Seq<V>,
)
    requires
        results.len() == items.len(),
        forall|j: int| 0 <= j < items.len() ==> (#[trigger] read(items[j])) == Ok::<V, Fault>(
            results[j],
        ),
    ensures
        each(Tree::Array(items), read) == Ok::<Seq<V>, Fault>(results),
{
    assert forall|k: int| !is_first_failure(items, read, k) by {
        if 0 <= k < items.len() {
            assert(read(items[k]) is Ok);
        }
    }
    assert(results =~= Seq::new(items.len(), |k: int| read(items[k])->Ok_0));
}

/// Reads a list of records from the array that holds them: every item in
/// order, up to the first that cannot be read.
pub fn decode_each<T: Record>(value: &Value) -> (read: Result<Vec<T>, DecoderError>)
    ensures
        match read {
            Ok(records) => each(value@, reader::<T>()) == Ok::<Seq<<T as DeepView>::V>, Fault>(
                records.deep_view(),
            ),
            Err(error) => each(value@, reader::<T>()) == Err::<Seq<<T as DeepView>::V>, Fault>(
                error@,
            ),
        },
{
    let items = match value {
        Value::Array(items) => items,
        _ => {
            return Err(DecoderError::ExpectedError(Kind::Array, value.kind()));
        },
    };
    proof {
        lemma_array_view(*items);
    }
    let ghost trees = items_view(items@);
    let mut records: Vec<T> = Vec::new();
    let mut i: usize = 0;
    while i < items.len()
        invariant
            i <= items.len(),
            trees == items_view(items@),
            value@ == Tree::Array(trees),
            records.len() == i,
            forall|j: int|
                0 <= j < i ==> (#[trigger] reader::<T>()(trees[j])) == Ok::<
                    <T as DeepView>::V,
                    Fault,
                >(records@[j].deep_view()),
        decreases items.len() - i,
    {
        assert(trees[i as int] == items@[i as int]@);
        match T::decode_record(&items[i]) {
            Ok(record) => {
                records.push(record);
            },
            Err(error) => {
                proof {
                    assert(is_first_failure(trees, reader::<T>(), i as int));
                    lemma_first_failure(trees, reader::<T>(), i as int);
                }
                return Err(error);
            },
        }
        i += 1;
    }
    proof {
        lemma_no_failure(trees, reader::<T>(), records.deep_view());
    }
    Ok(records)
}

fn find_field<'a>(entries: &'a Vec<(String, Value)>, name: &str) -> (found: Option<&'a Value>)
    ensures
        match found {
            Some(value) => lookup(fields_view(entries@), name@) == Some(value@),
            None => lookup(fields_view(entries@), name@) is None,
        },
{
    let key = String::from_str(name);
    let ghost fields = fields_view(entries@);
    let mut i: usize = 0;
    assert(fields.skip(0) == fields);
    while i < entries.len()
        invariant
            i <= entries.len(),
            key@ == name@,
            fields == fields_view(entries@),
            lookup(fields, name@) == lookup(fields.skip(i as int), name@),
        decreases entries.len() - i,
    {
        assert(fields.skip(i as int)[0] == (entries@[i as int].0@, entries@[i as int].1@));
        assert(fields.skip(i as int).skip(1) == fields.skip(i + 1));
        if entries[i].0 == key {
            return Some(&entries[i].1);
        }
        i += 1;
    }
    None
}

fn get_required<'a>(value: &'a Value, name: &str) -> (found: Result<&'a Value, DecoderError>)
    ensures
        match found {
            Ok(field) => required(value@, name@) == Ok::<Tree, Fault>(field@),
            Err(error) => required(value@, name@) == Err::<Tree, Fault>(error@),
        },
{
    match value {
        Value::Object(entries) => {
            proof {
                lemma_object_view(*entries);
            }
            match find_field(entries, name) {
                Some(field) => Ok(field),
                None => Err(DecoderError::MissingFieldError(String::from_str(name))),
            }
        },
        _ => Err(DecoderError::ExpectedError(Kind::Object, value.kind())),
    }
}

fn get_optional<'a>(value: &'a Value, name: &str) -> (found: Result<
    Option<&'a Value>,
    DecoderError,
>)
    ensures
        match found {
            Ok(Some(field)) => optional(value@, name@) == Ok::<Option<Tree>, Fault>(
                Some(field@),
            ),
            Ok(None) => optional(value@, name@) == Ok::<Option<Tree>, Fault>(None),
            Err(error) => optional(value@, name@) == Err::<Option<Tree>, Fault>(error@),
        },
{
    match value {
        Value::Object(entries) => {
            proof {
                lemma_object_view(*entries);
            }
            match find_field(entries, name) {
                Some(Value::Null) => Ok(None),
                Some(field) => Ok(Some(field)),
                None => Ok(None),
            }
        },
        _ => Err(DecoderError::ExpectedError(Kind::Object, value.kind())),
    }
}

/// Reads a value as a text.
pub fn read_text(value: &Value) -> (read: Result<String, DecoderError>)
    ensures
        match read {
            Ok(text) => text_of(value@) == Ok::<Seq<char>, Fault>(text@),
            Err(error) => text_of(value@) == Err::<Seq<char>, Fault>(error@),
        },
{
    match value {
        Value::Text(text) => Ok(text.clone()),
        _ => Err(DecoderError::ExpectedError(Kind::Text, value.kind())),
    }
}

/// Reads a value as a number that is not below zero, written as a number or
/// as a numeral between quotes.
pub fn read_number(value: &Value) -> (read: Result<u64, DecoderError>)
    ensures
        match read {
            Ok(n) => number_of(value@) == Ok::<u64, Fault>(n),
            Err(error) => number_of(value@) == Err::<u64, Fault>(error@),
        },
{
    match value {
        Value::U64(n) => Ok(*n),
        Value::I64(n) => if *n >= 0 {
            Ok(*n as u64)
        } else {
            Err(DecoderError::ExpectedError(Kind::U64, Kind::I64))
        },
        Value::Text(text) => match read_numeral(text.as_str()) {
            Some(n) => Ok(n),
            None => Err(DecoderError::ExpectedError(Kind::U64, Kind::Text)),
        },
        _ => Err(DecoderError::ExpectedError(Kind::U64, value.kind())),
    }
}

fn read_text_field(value: &Value, name: &str) -> (read: Result<String, DecoderError>)
    ensures
        match read {
            Ok(text) => text_field(value@, name@) == Ok::<Seq<char>, Fault>(text@),
            Err(error) => text_field(value@, name@) == Err::<Seq<char>, Fault>(error@),
        },
{
    match get_required(value, name) {
        Ok(field) => read_text(field),
        Err(error) => Err(error),
    }
}

fn read_number_field(value: &Value, name: &str) -> (read: Result<u64, DecoderError>)
    ensures
        match read {
            Ok(n) => number_field(value@, name@) == Ok::<u64, Fault>(n),
            Err(error) => number_field(value@, name@) == Err::<u64, Fault>(error@),
        },
{
    match get_required(value, name) {
        Ok(field) => read_number(field),
        Err(error) => Err(error),
    }
}

impl User {
    /// Reads a user from the object that describes it.
    pub fn decode(value: &Value) -> (read: Result<User, DecoderError>)
        ensures
            match read {
                Ok(user) => user_of(value@) == Ok::<Seq<char>, Fault>(user.login@),
                Err(error) => user_of(value@) == Err::<Seq<char>, Fault>(error@),
            },
    {
        match read_text_field(value, "login") {
            Ok(login) => Ok(User { login }),
            Err(error) => Err(error),
        }
    }
}

impl Repository {
    /// Reads a repository from the object that describes it.
    pub fn decode(value: &Value) -> (read: Result<Repository, DecoderError>)
        ensures
            match read {
                Ok(repository) => repository_of(value@) == Ok::<Seq<char>, Fault>(
                    repository.git_url@,
                ),
                Err(error) => repository_of(value@) == Err::<Seq<char>, Fault>(error@),
            },
    {
        match read_text_field(value, "git_url") {
            Ok(git_url) => Ok(Repository { git_url }),
            Err(error) => Err(error),
        }
    }
}

impl Commit {
    /// Reads the head of a pull request from the object that describes it.
    ///
    /// The field `repo` may be left out or be `null`: the head then has no
    /// repository.
    pub fn decode(value: &Value) -> (read: Result<Commit, DecoderError>)
        ensures
            match read {
                Ok(commit) => commit_of(value@) == Ok::<CommitView, Fault>(commit@),
                Err(error) => commit_of(value@) == Err::<CommitView, Fault>(error@),
            },
    {
        let user = match get_required(value, "user") {
            Ok(field) => match User::decode(field) {
                Ok(user) => user,
                Err(error) => {
                    return Err(error);
                },
            },
            Err(error) => {
                return Err(error);
            },
        };
        let repo = match get_optional(value, "repo") {
            Ok(Some(field)) => match Repository::decode(field) {
                Ok(repository) => Some(repository),
                Err(error) => {
                    return Err(error);
                },
            },
            Ok(None) => None,
            Err(error) => {
                return Err(error);
            },
        };
        let sha = match read_text_field(value, "sha") {
            Ok(sha) => sha,
            Err(error) => {
                return Err(error);
            },
        };
        let ref_ = match read_text_field(value, "ref") {
            Ok(ref_) => ref_,
            Err(error) => {
                return Err(error);
            },
        };
        Ok(Commit { user, repo, sha, ref_ })
    }
}

impl PullRequest {
    /// Reads a pull request from the object that describes it.
    ///
    /// The field `body` may be left out or be `null`: the pull request then
    /// has no description.
    pub fn decode(value: &Value) -> (read: Result<PullRequest, DecoderError>)
        ensures
            match read {
                Ok(pull) => pull_of(value@) == Ok::<PullRequestView, Fault>(pull@),
                Err(error) => pull_of(value@) == Err::<PullRequestView, Fault>(error@),
            },
    {
        let number = match read_number_field(value, "number") {
            Ok(number) => number,
            Err(error) => {
                return Err(error);
            },
        };
        let title = match read_text_field(value, "title") {
            Ok(title) => title,
            Err(error) => {
                return Err(error);
            },
        };
        let head = match get_required(value, "head") {
            Ok(field) => match Commit::decode(field) {
                Ok(head) => head,
                Err(error) => {
                    return Err(error);
                },
            },
            Err(error) => {
                return Err(error);
            },
        };
        let body = match get_optional(value, "body") {
            Ok(Some(field)) => match read_text(field) {
                Ok(words) => Some(words),
                Err(error) => {
                    return Err(error);
                },
            },
            Ok(None) => None,
            Err(error) => {
                return Err(error);
            },
        };
        Ok(PullRequest { number, title, head, body })
    }
}

impl PullRequestStatus {
    /// Reads a status from the object that describes it.
    pub fn decode(value: &Value) -> (read: Result<PullRequestStatus, DecoderError>)
        ensures
            match read {
                Ok(status) => status_of(value@) == Ok::<(u64, Seq<char>), Fault>(status@),
                Err(error) => status_of(value@) == Err::<(u64, Seq<char>), Fault>(error@),
            },
    {
        let num = match read_number_field(value, "num") {
            Ok(num) => num,
            Err(error) => {
                return Err(error);
            },
        };
        let state = match read_text_field(value, "state") {
            Ok(state) => state,
            Err(error) => {
                return Err(error);
            },
        };
        Ok(PullRequestStatus { num, state })
    }
}

impl Record for PullRequest {
    open spec fn read(value: Tree) -> Result<PullRequestView, Fault> {
        pull_of(value)
    }

    fn decode_record(value: &Value) -> (record: Result<PullRequest, DecoderError>) {
        PullRequest::decode(value)
    }
}

impl Record for PullRequestStatus {
    open spec fn read(value: Tree) -> Result<(u64, Seq<char>), Fault> {
        status_of(value)
    }

    fn decode_record(value: &Value) -> (record: Result<PullRequestStatus, DecoderError>) {
        PullRequestStatus::decode(value)
    }
}

/// Reads a list of pull requests from the array that holds them.
pub fn decode_pulls(value: &Value) -> (read: Result<Vec<PullRequest>, DecoderError>)
    ensures
        match read {
            Ok(pulls) => pulls_of(value@) == Ok::<Seq<PullRequestView>, Fault>(
                pulls.deep_view(),
            ),
            Err(error) => pulls_of(value@) == Err::<Seq<PullRequestView>, Fault>(error@),
        },
{
    decode_each::<PullRequest>(value)
}

/// Reads a list of statuses from the array that holds them.
pub fn decode_statuses(value: &Value) -> (read: Result<Vec<PullRequestStatus>, DecoderError>)
    ensures
        match read {
            Ok(statuses) => statuses_of(value@) == Ok::<Seq<(u64, Seq<char>)>, Fault>(
                statuses.deep_view(),
            ),
            Err(error) => statuses_of(value@) == Err::<Seq<(u64, Seq<char>)>, Fault>(error@),
        },
{
    decode_each::<PullRequestStatus>(value)
}

} // verus!
