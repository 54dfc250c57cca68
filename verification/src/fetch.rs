//! Gathering the open pull requests of a repository, page by page.
//!
//! The listing comes in pages, each of which may name the next. A `Fetch`
//! holds what has come so far and the address to ask next; the caller sends
//! the request and hands in the response.

use vstd::prelude::*;
use vstd::utf8::{decode_utf8, valid_utf8};
use crate::decode::{decode_pulls, pulls_of};
use crate::error::{DecoderError, Error, Fault};
use crate::http::{header_values, Response};
use crate::json::{parse, parsed};
use crate::links::{get_next_page_url, next_page};
use crate::model::{PullRequest, PullRequestView};
use crate::text::{from_utf8, text_view};

verus! {

/// The address of the first page of the open pull requests of `repository`,
/// oldest first.
pub open spec fn first_page(repository: Seq<char>) -> Seq<char> {
    "https://api.github.com/repos/"@ + repository + "/pulls?direction=asc"@
}

/// A listing under way.
#[derive(Debug)]
pub struct Fetch {
    /// The pull requests of the pages that have come, in their order.
    pub pulls: Vec<PullRequest>,
    /// The address of the page to ask for next; `None` when the listing is
    /// complete.
    pub next: Option<String>,
}

/// The pull requests that the text of a page holds, or why it holds none:
/// the page must be JSON within the limits of the parser, and an array of
/// pull requests.
pub open spec fn page_on(text: Seq<char>) -> Result<Seq<PullRequestView>, Fault> {
    match parsed(text) {
        Err(fault) => Err(fault),
        Ok(value) => pulls_of(value),
    }
}

/// The pull requests that the body of a page holds, or why it holds none:
/// the body must be UTF-8, and its text a page as `page_on` wants it.
pub open spec fn page_in(body: Seq<u8>) -> Result<Seq<PullRequestView>, Fault> {
    if !valid_utf8(body) {
        Err(Fault::Application("Non UTF-8 response"@))
    } else {
        page_on(decode_utf8(body))
    }
}

/// Reads the pull requests out of the text of a page.
pub fn read_page(text: &str) -> (page: Result<Vec<PullRequest>, Error>)
    ensures
        match page {
            Ok(pulls) => page_on(text@) == Ok::<Seq<PullRequestView>, Fault>(pulls.deep_view()),
            Err(error) => error matches Error::JSONDecoderError(reason) && page_on(text@)
                == Err::<Seq<PullRequestView>, Fault>(reason@),
        },
{
    let value = match parse(text) {
        Ok(value) => value,
        Err(error) => {
            return Err(Error::JSONDecoderError(error));
        },
    };
    match decode_pulls(&value) {
        Ok(pulls) => Ok(pulls),
        Err(error) => Err(Error::JSONDecoderError(error)),
    }
}

/// Reads the pull requests out of the body of a page.
pub fn read_body(body: &[u8]) -> (page: Result<Vec<PullRequest>, Error>)
    ensures
        match page {
            Ok(pulls) => page_in(body@) == Ok::<Seq<PullRequestView>, Fault>(pulls.deep_view()),
            Err(error) => error matches Error::JSONDecoderError(reason) && page_in(body@)
                == Err::<Seq<PullRequestView>, Fault>(reason@),
        },
{
    match from_utf8(body) {
        Some(text) => read_page(text),
        None => Err(
            Error::JSONDecoderError(
                DecoderError::ApplicationError(String::from_str("Non UTF-8 response")),
            ),
        ),
    }
}

/// Starts the listing of the open pull requests of `repository`: nothing has
/// come yet, and the first page is the one to ask for.
pub fn fetch(repository: &str) -> (listing: Fetch)
    ensures
        listing.pulls@.len() == 0,
        text_view(listing.next) == Some(first_page(repository@)),
{
    let mut url = String::from_str("https://api.github.com/repos/");
    url.append(repository);
    url.append("/pulls?direction=asc");
    Fetch { pulls: Vec::new(), next: Some(url) }
}

impl Fetch {
    /// Why the response to the request for `next` ends the listing, if it
    /// does: its page cannot be read. A listing that is complete asked for
    /// nothing, and no response makes it fail.
    pub open spec fn failure(self, response: Response) -> Option<Fault> {
        match page_in(response.body@) {
            Err(fault) => if self.next is Some {
                Some(fault)
            } else {
                None
            },
            Ok(_) => None,
        }
    }

    /// Whether `after` is the listing that the response to the request for
    /// `next` makes of this one. The pull requests of the page stand after
    /// those that have come before, in the order of the page, and the
    /// page's `link` header says what to ask for next. A listing that is
    /// complete stays as it is.
    pub open spec fn takes(self, response: Response, after: Fetch) -> bool {
        if self.next is None {
            after == self
        } else {
            &&& page_in(response.body@) matches Ok(page)
            &&& after.pulls.deep_view() == self.pulls.deep_view() + page
            &&& text_view(after.next) == next_page(
                header_values(response.headers.deep_view(), "link"@),
            )
        }
    }

    /// Whether the listing is complete.
    pub fn is_complete(&self) -> (complete: bool)
        ensures
            complete == (self.next is None),
    {
        self.next.is_none()
    }

    /// Takes in the response to the request for `next`.
    ///
    /// The listing afterwards is the one that `takes` describes: the page is
    /// joined to what has come, and where its `link` header names no next
    /// page the listing is complete. A page that cannot be read ends the
    /// listing with its error, and what has come is given up.
    pub fn fetch_page(self, response: &Response) -> (listing: Result<Fetch, Error>)
        ensures
            match listing {
                Ok(after) => self.failure(*response) is None && self.takes(*response, after),
                Err(error) => error matches Error::JSONDecoderError(reason) && self.failure(
                    *response,
                ) == Some(reason@),
            },
    {
        if self.next.is_none() {
            return Ok(self);
        }
        let mut page = match read_body(response.body.as_slice()) {
            Ok(page) => page,
            Err(error) => {
                return Err(error);
            },
        };
        let next = get_next_page_url(response);
        let mut pulls = self.pulls;
        let ghost before = pulls.deep_view();
        let ghost added = page.deep_view();
        pulls.append(&mut page);
        assert(pulls.deep_view() =~= before + added);
        Ok(Fetch { pulls, next })
    }

    /// The pull requests that have come.
    pub fn into_pulls(self) -> (pulls: Vec<PullRequest>)
        ensures
            pulls == self.pulls,
    {
        self.pulls
    }
}

/// Pages are joined in the order in which they come. After two pages, the
/// listing holds what it held before, then the first page, then the second.
pub proof fn lemma_pages_in_order(
    start: Fetch,
    first: Response,
    middle: Fetch,
    second: Response,
    end: Fetch,
)
    requires
        start.next is Some,
        start.takes(first, middle),
        middle.next is Some,
        middle.takes(second, end),
    ensures
        page_in(first.body@) is Ok,
        page_in(second.body@) is Ok,
        end.pulls.deep_view() == start.pulls.deep_view() + page_in(first.body@)->Ok_0 + page_in(
            second.body@,
        )->Ok_0,
{
}

/// Whether `end` is the listing that the responses, taken in one after the
/// other while the listing was not complete, make of `start`.
pub open spec fn follows(start: Fetch, responses: Seq<Response>, end: Fetch) -> bool
    decreases responses.len(),
{
    if responses.len() == 0 {
        end == start
    } else {
        exists|middle: Fetch|
            {
                &&& follows(start, responses.drop_last(), middle)
                &&& middle.next is Some
                &&& #[trigger] middle.takes(responses.last(), end)
            }
    }
}

/// The pages of the responses, one after the other.
pub open spec fn joined(responses: Seq<Response>) -> Seq<PullRequestView>
    decreases responses.len(),
{
    if responses.len() == 0 {
        Seq::empty()
    } else {
        joined(responses.drop_last()) + page_in(responses.last().body@)->Ok_0
    }
}

/// However many pages come, the listing holds what it held before and then
/// the pages, each after those that came before it.
pub proof fn lemma_all_pages_in_order(start: Fetch, responses: Seq<Response>, end: Fetch)
    requires
        follows(start, responses, end),
    ensures
        end.pulls.deep_view() == start.pulls.deep_view() + joined(responses),
    decreases responses.len(),
{
    if responses.len() == 0 {
        assert(start.pulls.deep_view() + Seq::<PullRequestView>::empty()
            == start.pulls.deep_view());
    } else {
        let middle = choose|middle: Fetch|
            {
                &&& follows(start, responses.drop_last(), middle)
                &&& middle.next is Some
                &&& #[trigger] middle.takes(responses.last(), end)
            };
        lemma_all_pages_in_order(start, responses.drop_last(), middle);
        let before = start.pulls.deep_view();
        let earlier = joined(responses.drop_last());
        let page = page_in(responses.last().body@)->Ok_0;
        assert((before + earlier) + page == before + (earlier + page));
    }
}

/// The listing ends with the first page that names no next one: it is then
/// complete, and every later response leaves it as it is.
pub proof fn lemma_listing_ends(start: Fetch, last: Response, end: Fetch, later: Response, after: Fetch)
    requires
        start.next is Some,
        start.takes(last, end),
        next_page(header_values(last.headers.deep_view(), "link"@)) is None,
        end.takes(later, after),
    ensures
        end.next is None,
        end.failure(later) is None,
        after == end,
{
}

/// While pages name a next one, the listing is not complete and asks for
/// the page that was named.
pub proof fn lemma_listing_goes_on(start: Fetch, response: Response, after: Fetch)
    requires
        start.next is Some,
        start.takes(response, after),
        next_page(header_values(response.headers.deep_view(), "link"@)) is Some,
    ensures
        text_view(after.next) == next_page(header_values(response.headers.deep_view(), "link"@)),
        after.next is Some,
{
}

} // verus!
