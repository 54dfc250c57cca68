//! Which pull requests the build bot has approved.

use vstd::prelude::*;
use vstd::utf8::{decode_utf8, valid_utf8};
use std::collections::HashSet;
use crate::decode::{decode_statuses, statuses_of};
use crate::error::{DecoderError, Error, Fault};
use crate::http::Response;
use crate::json::{parse, parsed};
use crate::model::PullRequestStatus;
use crate::text::{chars_of, find, first_occurrence, from_utf8, occurs_at, string_of};

verus! {

/// Where the build bot publishes its state.
pub const BORS_STATUS_URL: &'static str = "http://buildbot.rust-lang.org/bors/bors-status.js";

/// The words after which the list of statuses stands in the bot's page.
pub const MARKER: &'static str = "var bors =";

/// How many characters follow the list of statuses in the bot's page.
pub const SUFFIX: usize = 2;

/// The state of a pull request that the bot has approved.
pub const APPROVED: &'static str = "APPROVED";

/// The list of statuses inside the bot's page, still as text: what stands
/// between the first `MARKER` and the last `SUFFIX` characters. `None` where
/// the page holds no `MARKER`, or not `SUFFIX` characters after it.
pub open spec fn payload(page: Seq<char>) -> Option<Seq<char>> {
    match first_occurrence(page, MARKER@) {
        Some(at) => if at + MARKER@.len() + SUFFIX <= page.len() {
            Some(page.subrange(at + MARKER@.len(), page.len() - SUFFIX))
        } else {
            None
        },
        None => None,
    }
}

/// Cuts the list of statuses out of the bot's page.
pub fn extract_payload(page: &str) -> (list: Option<String>)
    ensures
        match list {
            Some(text) => payload(page@) == Some(text@),
            None => payload(page@) is None,
        },
{
    let cs = chars_of(page);
    let marker = chars_of(MARKER);
    match find(&cs, &marker) {
        Some(at) => {
            assert(occurs_at(cs@, marker@, at as int));
            assert(at + marker.len() <= cs.len());
            let from = at + marker.len();
            if cs.len() - from >= SUFFIX {
                Some(string_of(&cs, from, cs.len() - SUFFIX))
            } else {
                None
            }
        },
        None => None,
    }
}

/// The numbers of the statuses whose state is `APPROVED`, to the letter.
pub open spec fn approved_numbers(statuses: Seq<(u64, Seq<char>)>) -> Set<u64> {
    Set::new(
        |n: u64|
            exists|i: int|
                0 <= i < statuses.len() && #[trigger] statuses[i] == (n, APPROVED@),
    )
}

/// One status more adds its number where its state is `APPROVED`, and
/// nothing else.
pub proof fn lemma_approved_grows(statuses: Seq<(u64, Seq<char>)>, i: int)
    requires
        0 <= i < statuses.len(),
    ensures
        approved_numbers(statuses.take(i + 1)) == if statuses[i].1 == APPROVED@ {
            approved_numbers(statuses.take(i)).insert(statuses[i].0)
        } else {
            approved_numbers(statuses.take(i))
        },
{
    let before = statuses.take(i);
    let upto = statuses.take(i + 1);
    let grown = if statuses[i].1 == APPROVED@ {
        approved_numbers(before).insert(statuses[i].0)
    } else {
        approved_numbers(before)
    };
    assert forall|n: u64| grown.contains(n) == approved_numbers(upto).contains(n) by {
        if approved_numbers(upto).contains(n) {
            let k = choose|k: int| 0 <= k < upto.len() && #[trigger] upto[k] == (n, APPROVED@);
            if k < i {
                assert(before[k] == (n, APPROVED@));
            }
        }
        if approved_numbers(before).contains(n) {
            let k = choose|k: int| 0 <= k < before.len() && #[trigger] before[k] == (n, APPROVED@);
            assert(upto[k] == (n, APPROVED@));
        }
        if statuses[i] == (n, APPROVED@) {
            assert(upto[i] == (n, APPROVED@));
        }
    }
    assert(grown =~= approved_numbers(upto));
}

/// Collects the numbers of the approved pull requests.
pub fn approved(statuses: &Vec<PullRequestStatus>) -> (numbers: HashSet<u64>)
    ensures
        numbers@ == approved_numbers(statuses.deep_view()),
{
    let wanted = String::from_str(APPROVED);
    let mut numbers: HashSet<u64> = HashSet::new();
    let mut i: usize = 0;
    assert(numbers@ =~= approved_numbers(statuses.deep_view().take(0)));
    while i < statuses.len()
        invariant
            i <= statuses.len(),
            wanted@ == APPROVED@,
            numbers@ == approved_numbers(statuses.deep_view().take(i as int)),
        decreases statuses.len() - i,
    {
        let status = &statuses[i];
        proof {
            assert(statuses.deep_view()[i as int] == (status.num, status.state@));
            lemma_approved_grows(statuses.deep_view(), i as int);
        }
        if status.state == wanted {
            numbers.insert(status.num);
        }
        i += 1;
    }
    assert(statuses.deep_view().take(statuses.len() as int) == statuses.deep_view());
    numbers
}

/// The approved numbers that the text of the bot's page gives, or why it
/// gives none: the page must hold the list of statuses where `payload` looks
/// for it; the list must be JSON within the limits of the parser, and an
/// array of statuses.
pub open spec fn approved_on(page: Seq<char>) -> Result<Set<u64>, Fault> {
    match payload(page) {
        None => Err(Fault::Application("Unexpected status JSON shape"@)),
        Some(list) => match parsed(list) {
            Err(fault) => Err(fault),
            Ok(value) => match statuses_of(value) {
                Err(fault) => Err(fault),
                Ok(statuses) => Ok(approved_numbers(statuses)),
            },
        },
    }
}

/// The approved numbers that the bot's answer gives, or why it gives none:
/// the body must be UTF-8, and its text a page as `approved_on` wants it.
pub open spec fn approved_in(body: Seq<u8>) -> Result<Set<u64>, Fault> {
    if !valid_utf8(body) {
        Err(Fault::Application("Non UTF-8 response"@))
    } else {
        approved_on(decode_utf8(body))
    }
}

/// Reads the set of approved pull requests out of the text of the bot's page.
pub fn read_approved(page: &str) -> (numbers: Result<HashSet<u64>, Error>)
    ensures
        match numbers {
            Ok(set) => approved_on(page@) == Ok::<Set<u64>, Fault>(set@),
            Err(error) => error matches Error::JSONDecoderError(reason) && approved_on(page@)
                == Err::<Set<u64>, Fault>(reason@),
        },
{
    let list = match extract_payload(page) {
        Some(list) => list,
        None => {
            return Err(
                Error::JSONDecoderError(
                    DecoderError::ApplicationError(
                        String::from_str("Unexpected status JSON shape"),
                    ),
                ),
            );
        },
    };
    let value = match parse(list.as_str()) {
        Ok(value) => value,
        Err(error) => {
            return Err(Error::JSONDecoderError(error));
        },
    };
    match decode_statuses(&value) {
        Ok(statuses) => Ok(approved(&statuses)),
        Err(error) => Err(Error::JSONDecoderError(error)),
    }
}

/// Reads the set of approved pull requests out of the bot's answer to a
/// request for `BORS_STATUS_URL`.
pub fn get_approved_prs(response: &Response) -> (numbers: Result<HashSet<u64>, Error>)
    ensures
        match numbers {
            Ok(set) => approved_in(response.body@) == Ok::<Set<u64>, Fault>(set@),
            Err(error) => error matches Error::JSONDecoderError(reason) && approved_in(
                response.body@,
            ) == Err::<Set<u64>, Fault>(reason@),
        },
{
    match from_utf8(response.body.as_slice()) {
        Some(page) => read_approved(page),
        None => Err(
            Error::JSONDecoderError(
                DecoderError::ApplicationError(String::from_str("Non UTF-8 response")),
            ),
        ),
    }
}

} // verus!
