//! Page models: the values handed to the two page templates.
//!
//! Each model is built fresh for one request, consumed by rendering, and
//! discarded; no state survives a request. The mathematical view of a
//! model (and of a whole rendered page) is a ghost mirror over `Seq<char>`,
//! which the rendering contracts speak of.

use vstd::prelude::*;

verus! {

/// The model of the generic error page template.
pub struct ErrorPage {
    /// Heading shown to the user.
    pub title: String,
    /// Short lowercase explanation, when one exists.
    pub message: Option<String>,
    /// HTTP status code of the response.
    pub status: u16,
}

/// The model of the search-results page template, reused here in its
/// "no results" configuration; the other search-display fields keep their
/// default (empty) values and are not modelled.
pub struct Search {
    /// Heading shown to the user.
    pub title: String,
    /// The search term the user supplied, when one was present on the
    /// request. Substituted verbatim: escaping is the template layer's
    /// responsibility.
    pub search_query: Option<String>,
    /// HTTP status code of the response.
    pub status: u16,
}

/// A rendered page: exactly one of the two templates.
pub enum Page {
    Error(ErrorPage),
    Search(Search),
}

/// Mathematical view of an `ErrorPage`.
pub ghost struct ErrorPageView {
    pub title: Seq<char>,
    pub message: Option<Seq<char>>,
    pub status: u16,
}

/// Mathematical view of a `Search`.
pub ghost struct SearchView {
    pub title: Seq<char>,
    pub search_query: Option<Seq<char>>,
    pub status: u16,
}

/// Mathematical view of a rendered page.
pub ghost enum PageView {
    Error(ErrorPageView),
    Search(SearchView),
}

impl View for ErrorPage {
    type V = ErrorPageView;

    open spec fn view(&self) -> ErrorPageView {
        ErrorPageView {
            title: self.title@,
            message: match self.message {
                Some(m) => Some(m@),
                None => None,
            },
            status: self.status,
        }
    }
}

impl View for Search {
    type V = SearchView;

    open spec fn view(&self) -> SearchView {
        SearchView {
            title: self.title@,
            search_query: match self.search_query {
                Some(q) => Some(q@),
                None => None,
            },
            status: self.status,
        }
    }
}

impl View for Page {
    type V = PageView;

    open spec fn view(&self) -> PageView {
        match self {
            Page::Error(e) => PageView::Error(e@),
            Page::Search(s) => PageView::Search(s@),
        }
    }
}

impl PageView {
    /// The HTTP status carried by the page, whichever template it uses.
    pub open spec fn status(&self) -> u16 {
        match self {
            PageView::Error(e) => e.status,
            PageView::Search(s) => s.status,
        }
    }

}

impl Page {
    /// The HTTP status carried by the page, whichever template it uses.
    pub open spec fn spec_status(&self) -> u16 {
        self@.status()
    }

    /// Reads the HTTP status off the page.
    pub fn status(&self) -> (status: u16)
        ensures
            status == self.spec_status(),
    {
        match self {
            Page::Error(e) => e.status,
            Page::Search(s) => s.status,
        }
    }
}

} // verus!
