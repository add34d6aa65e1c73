//! The rendering dispatch: from a failure reason and the request's query
//! string to a finished page model.
//!
//! Every failure reason except `NoResults` renders the generic error page
//! with a fixed title and message. `NoResults` renders the search-results
//! page, personalized with the first `query` parameter of the request when
//! one is present.

use crate::error::{spec_status_of, Nope};
use crate::page::{ErrorPage, ErrorPageView, Page, PageView, Search, SearchView};
use crate::query::{decoded_query_pairs, find_query, first_query_value, pairs_view,
    parse_query_pairs};
use vstd::prelude::*;

verus! {

/// The title of the "no results" search page when the user searched for
/// `q`: the query value substituted verbatim, not re-escaped by this layer
/// (escaping is the template layer's responsibility).
pub open spec fn no_results_title(q: Seq<char>) -> Seq<char> {
    "No crates found matching '"@ + q + "'"@
}

/// What rendering a failure reason yields, given the decoded (key, value)
/// query pairs of the request. Total over the closed taxonomy: no default
/// arm may silently collapse a new variant into a generic page.
pub open spec fn spec_render(kind: Nope, pairs: Seq<(Seq<char>, Seq<char>)>) -> PageView {
    match kind {
        Nope::ResourceNotFound => PageView::Error(
            ErrorPageView {
                title: "The requested resource does not exist"@,
                message: Some("no such resource"@),
                status: 404,
            },
        ),
        Nope::BuildNotFound => PageView::Error(
            ErrorPageView {
                title: "The requested build does not exist"@,
                message: Some("no such build"@),
                status: 404,
            },
        ),
        Nope::CrateNotFound => PageView::Error(
            ErrorPageView {
                title: "The requested crate does not exist"@,
                message: Some("no such crate"@),
                status: 404,
            },
        ),
        Nope::OwnerNotFound => PageView::Error(
            ErrorPageView {
                title: "The requested owner does not exist"@,
                message: Some("no such owner"@),
                status: 404,
            },
        ),
        Nope::VersionNotFound => PageView::Error(
            ErrorPageView {
                title: "The requested version does not exist"@,
                message: Some("no such version for this crate"@),
                status: 404,
            },
        ),
        Nope::NoResults => match first_query_value(pairs) {
            Some(q) => PageView::Search(
                SearchView { title: no_results_title(q), search_query: Some(q), status: 404 },
            ),
            None => PageView::Search(
                SearchView {
                    title: "No results given for empty search query"@,
                    search_query: None,
                    status: 404,
                },
            ),
        },
        Nope::InternalServerError => PageView::Error(
            ErrorPageView {
                title: "Internal server error"@,
                message: Some("internal server error"@),
                status: 500,
            },
        ),
    }
}

/// Renders the page for a failure reason, given the already-decoded
/// (key, value) query pairs of the request.
pub fn render_with_pairs(kind: Nope, pairs: &Vec<(String, String)>) -> (page: Page)
    ensures
        page@ == spec_render(kind, pairs_view(pairs@)),
{
    match kind {
        Nope::ResourceNotFound => Page::Error(
            ErrorPage {
                title: String::from_str("The requested resource does not exist"),
                message: Some(String::from_str("no such resource")),
                status: 404,
            },
        ),
        Nope::BuildNotFound => Page::Error(
            ErrorPage {
                title: String::from_str("The requested build does not exist"),
                message: Some(String::from_str("no such build")),
                status: 404,
            },
        ),
        Nope::CrateNotFound => Page::Error(
            ErrorPage {
                title: String::from_str("The requested crate does not exist"),
                message: Some(String::from_str("no such crate")),
                status: 404,
            },
        ),
        Nope::OwnerNotFound => Page::Error(
            ErrorPage {
                title: String::from_str("The requested owner does not exist"),
                message: Some(String::from_str("no such owner")),
                status: 404,
            },
        ),
        Nope::VersionNotFound => Page::Error(
            ErrorPage {
                title: String::from_str("The requested version does not exist"),
                message: Some(String::from_str("no such version for this crate")),
                status: 404,
            },
        ),
        Nope::NoResults => match find_query(pairs) {
            Some(q) => {
                let mut title = String::from_str("No crates found matching '");
                title.append(q.as_str());
                title.append("'");
                proof {
                    assert(title@ =~= no_results_title(q@));
                }
                Page::Search(Search { title, search_query: Some(q), status: 404 })
            },
            None => Page::Search(
                Search {
                    title: String::from_str("No results given for empty search query"),
                    search_query: None,
                    status: 404,
                },
            ),
        },
        Nope::InternalServerError => Page::Error(
            ErrorPage {
                title: String::from_str("Internal server error"),
                message: Some(String::from_str("internal server error")),
                status: 500,
            },
        ),
    }
}

/// Renders the page for a failure reason, given the request URL's query
/// component (`None` when the URL carries none, else its text without the
/// leading `?`). Decodes the query pairs, then dispatches.
pub fn render(kind: Nope, query: Option<&str>) -> (page: Page)
    ensures
        match query {
            Some(q) => page@ == spec_render(kind, decoded_query_pairs(q@)),
            None => page@ == spec_render(kind, Seq::empty()),
        },
{
    match kind {
        Nope::NoResults => {
            let pairs = match query {
                Some(q) => parse_query_pairs(q),
                None => Vec::new(),
            };
            proof {
                if query is None {
                    assert(pairs_view(pairs@) =~= Seq::<(Seq<char>, Seq<char>)>::empty());
                }
            }
            render_with_pairs(Nope::NoResults, &pairs)
        },
        Nope::ResourceNotFound
        | Nope::BuildNotFound
        | Nope::CrateNotFound
        | Nope::OwnerNotFound
        | Nope::VersionNotFound
        | Nope::InternalServerError => {
            let pairs: Vec<(String, String)> = Vec::new();
            render_with_pairs(kind, &pairs)
        },
    }
}

/// Law: the rendered page always carries exactly the HTTP status that
/// `status_of` assigns to the failure reason, whatever the request's
/// query pairs were.
pub proof fn lemma_render_status(kind: Nope, pairs: Seq<(Seq<char>, Seq<char>)>)
    ensures
        spec_render(kind, pairs).status() == spec_status_of(kind),
{
}

/// Law: rendering is deterministic and stateless — the same failure
/// reason, on requests whose query strings decode to the same (key, value)
/// pairs, renders identical pages (same title, message, search query and
/// status).
pub proof fn lemma_render_deterministic(
    kind: Nope,
    pairs1: Seq<(Seq<char>, Seq<char>)>,
    pairs2: Seq<(Seq<char>, Seq<char>)>,
)
    requires
        pairs1 =~= pairs2,
    ensures
        spec_render(kind, pairs1) == spec_render(kind, pairs2),
{
}

} // verus!
