//! The link from one page of a listing to the next.

use vstd::prelude::*;
use crate::http::{header_values, Response};
use crate::text::{chars_of, split, split_at, text_view};

verus! {

/// The form of the entry of a `link` header that leads to the next page.
pub const NEXT_LINK: &'static str = "<([^>]*)>; rel=\"next\"";

/// The group of `NEXT_LINK` that holds the address.
pub const ADDRESS: usize = 1;

/// How long a pattern may be.
pub const MAX_PATTERN: usize = 64;

/// Whether a pattern is plain: it has at most `MAX_PATTERN` characters and
/// neither a brace, which would repeat a part a given number of times, nor
/// a backslash, which would call for a class of characters by name. What
/// the regular expression library makes of a plain pattern stays far below
/// the size at which it refuses a pattern, on every machine.
pub open spec fn is_plain(pattern: Seq<char>) -> bool {
    pattern.len() <= MAX_PATTERN && forall|i: int|
        0 <= i < pattern.len() ==> pattern[i] != '{' && pattern[i] != '\\'
}

/// `NEXT_LINK` is a plain pattern.
pub proof fn lemma_next_link_is_plain()
    ensures
        is_plain(NEXT_LINK@),
{
    reveal_strlit("<([^>]*)>; rel=\"next\"");
}

/// What the group with the number `group` holds in the leftmost match of
/// `pattern` in `text`. `None` where `pattern` is no regular expression,
/// where it matches nowhere in `text`, and where it has no such group or the
/// group took no part in the match.
pub uninterp spec fn captured(pattern: Seq<char>, group: usize, text: Seq<char>) -> Option<
    Seq<char>,
>;

/// `regex::Regex::new` compiles the pattern, `regex::Regex::captures`
/// searches the text for its leftmost match, and `regex::Captures::get`
/// hands out what a group holds. The contract says that for a plain pattern
/// the outcome depends on the pattern, the group and the text alone: it is
/// `captured` of the three.
#[verifier::external_body]
fn captures(pattern: &str, group: usize, text: &str) -> (held: Option<String>)
    requires
        is_plain(pattern@),
    ensures
        text_view(held) == captured(pattern@, group, text@),
{
    let regex = match regex::Regex::new(pattern) {
        Ok(regex) => regex,
        Err(_) => return None,
    };
    match regex.captures(text) {
        Some(found) => found.get(group).map(|held| held.as_str().to_string()),
        None => None,
    }
}

/// The entries of the values of a `link` header: each value is a list of
/// entries between commas, and the entries of all values stand in the order
/// of the values.
pub open spec fn entries(values: Seq<Seq<char>>) -> Seq<Seq<char>>
    decreases values.len(),
{
    if values.len() == 0 {
        seq![]
    } else {
        entries(values.drop_last()) + split(values.last(), ',')
    }
}

/// The address that each entry gives, where it has the form `NEXT_LINK`.
pub open spec fn addresses(entries: Seq<Seq<char>>) -> Seq<Option<Seq<char>>> {
    Seq::new(entries.len(), |i: int| captured(NEXT_LINK@, ADDRESS, entries[i]))
}

/// The first of `found` that is there.
pub open spec fn first_some(found: Seq<Option<Seq<char>>>) -> Option<Seq<char>>
    decreases found.len(),
{
    if found.len() == 0 {
        None
    } else {
        match found[0] {
            Some(address) => Some(address),
            None => first_some(found.skip(1)),
        }
    }
}

/// The address of the next page that the values of the `link` header give:
/// that of the first entry of the form `NEXT_LINK`.
pub open spec fn next_page(values: Seq<Seq<char>>) -> Option<Seq<char>> {
    first_some(addresses(entries(values)))
}

/// What was found for each entry, as mathematics.
pub open spec fn found_view(found: Seq<Option<String>>) -> Seq<Option<Seq<char>>> {
    Seq::new(found.len(), |i: int| text_view(found[i]))
}

/// Cuts the values of a `link` header into their entries.
pub fn link_entries(values: &Vec<String>) -> (all: Vec<String>)
    ensures
        all.deep_view() == entries(values.deep_view()),
{
    let mut all: Vec<String> = Vec::new();
    let mut i: usize = 0;
    assert(values.deep_view().take(0) == Seq::<Seq<char>>::empty());
    while i < values.len()
        invariant
            i <= values.len(),
            all.deep_view() == entries(values.deep_view().take(i as int)),
        decreases values.len() - i,
    {
        let mut parts = split_at(&chars_of(values[i].as_str()), ',');
        let ghost before = all.deep_view();
        let ghost added = parts.deep_view();
        proof {
            let lines = values.deep_view();
            assert(lines.take(i + 1).drop_last() == lines.take(i as int));
            assert(lines.take(i + 1).last() == values[i as int]@);
        }
        all.append(&mut parts);
        assert(all.deep_view() =~= before + added);
        i += 1;
    }
    assert(values.deep_view().take(values.len() as int) == values.deep_view());
    all
}

/// Picks the first address that was found: `found` holds, for each entry in
/// order, the address that the entry gave or `None`.
pub fn first_match(found: &Vec<Option<String>>) -> (address: Option<String>)
    ensures
        text_view(address) == first_some(found_view(found@)),
{
    let ghost all = found_view(found@);
    let mut i: usize = 0;
    assert(all.skip(0) == all);
    while i < found.len()
        invariant
            i <= found.len(),
            all == found_view(found@),
            first_some(all) == first_some(all.skip(i as int)),
        decreases found.len() - i,
    {
        assert(all.skip(i as int)[0] == text_view(found@[i as int]));
        assert(all.skip(i as int).skip(1) == all.skip(i + 1));
        match &found[i] {
            Some(address) => {
                return Some(address.clone());
            },
            None => {},
        }
        i += 1;
    }
    None
}

/// The address of the page that follows the one that `response` brought, if
/// the response names one.
///
/// `None` means that the listing ends with this page.
pub fn get_next_page_url(response: &Response) -> (url: Option<String>)
    ensures
        text_view(url) == next_page(header_values(response.headers.deep_view(), "link"@)),
{
    proof {
        lemma_next_link_is_plain();
    }
    let values = response.get_header("link");
    let all = link_entries(&values);
    let mut found: Vec<Option<String>> = Vec::new();
    let mut i: usize = 0;
    while i < all.len()
        invariant
            i <= all.len(),
            is_plain(NEXT_LINK@),
            found.len() == i,
            forall|j: int|
                0 <= j < i ==> text_view(#[trigger] found@[j]) == captured(
                    NEXT_LINK@,
                    ADDRESS,
                    all@[j]@,
                ),
        decreases all.len() - i,
    {
        found.push(captures(NEXT_LINK, ADDRESS, all[i].as_str()));
        i += 1;
    }
    assert(found_view(found@) =~= addresses(all.deep_view()));
    first_match(&found)
}

} // verus!
