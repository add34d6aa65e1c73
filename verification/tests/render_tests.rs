use error_pages::error::{pool_failure_status, status_of, Nope};
use error_pages::page::Page;
use error_pages::render::render;

fn error_page_parts(page: Page) -> (String, Option<String>, u16) {
    match page {
        Page::Error(e) => (e.title, e.message, e.status),
        Page::Search(_) => panic!("expected the generic error page"),
    }
}

fn search_page_parts(page: Page) -> (String, Option<String>, u16) {
    match page {
        Page::Search(s) => (s.title, s.search_query, s.status),
        Page::Error(_) => panic!("expected the search-results page"),
    }
}

#[test]
fn status_table_is_exhaustive() {
    assert_eq!(status_of(Nope::ResourceNotFound), 404);
    assert_eq!(status_of(Nope::BuildNotFound), 404);
    assert_eq!(status_of(Nope::CrateNotFound), 404);
    assert_eq!(status_of(Nope::OwnerNotFound), 404);
    assert_eq!(status_of(Nope::VersionNotFound), 404);
    assert_eq!(status_of(Nope::NoResults), 404);
    assert_eq!(status_of(Nope::InternalServerError), 500);
}

#[test]
fn pool_failures_normalize_to_500() {
    assert_eq!(pool_failure_status(), 500);
}

#[test]
fn page_status_matches_status_of() {
    let kinds = [
        Nope::ResourceNotFound,
        Nope::BuildNotFound,
        Nope::CrateNotFound,
        Nope::OwnerNotFound,
        Nope::VersionNotFound,
        Nope::NoResults,
        Nope::InternalServerError,
    ];
    for kind in kinds {
        assert_eq!(render(kind, Some("query=foobar")).status(), status_of(kind));
        assert_eq!(render(kind, None).status(), status_of(kind));
    }
}

#[test]
fn check_404_page_content_crate() {
    let (title, message, status) = error_page_parts(render(Nope::CrateNotFound, None));
    assert_eq!(title, "The requested crate does not exist");
    assert_eq!(message.as_deref(), Some("no such crate"));
    assert_eq!(status, 404);
}

#[test]
fn check_404_page_content_resource() {
    let (title, message, status) = error_page_parts(render(Nope::ResourceNotFound, None));
    assert_eq!(title, "The requested resource does not exist");
    assert_eq!(message.as_deref(), Some("no such resource"));
    assert_eq!(status, 404);
}

#[test]
fn check_404_page_content_not_semver_version() {
    // A syntactically invalid version string is classified upstream as
    // VersionNotFound; the rendered title must not depend on which cause led
    // to the classification.
    let (title, message, status) = error_page_parts(render(Nope::VersionNotFound, None));
    assert_eq!(title, "The requested version does not exist");
    assert_eq!(message.as_deref(), Some("no such version for this crate"));
    assert_eq!(status, 404);
}

#[test]
fn check_404_page_content_nonexistent_version() {
    // A well-formed but unknown version is the other path into
    // VersionNotFound.
    let (title, _, status) = error_page_parts(render(Nope::VersionNotFound, None));
    assert_eq!(title, "The requested version does not exist");
    assert_eq!(status, 404);
}

#[test]
fn check_404_page_content_any_version_all_yanked() {
    // A wildcard version request where every release is yanked also ends in
    // VersionNotFound.
    let (title, _, status) = error_page_parts(render(Nope::VersionNotFound, None));
    assert_eq!(title, "The requested version does not exist");
    assert_eq!(status, 404);
}

#[test]
fn check_404_page_content_build() {
    let (title, message, status) = error_page_parts(render(Nope::BuildNotFound, None));
    assert_eq!(title, "The requested build does not exist");
    assert_eq!(message.as_deref(), Some("no such build"));
    assert_eq!(status, 404);
}

#[test]
fn check_404_page_content_owner() {
    let (title, message, status) = error_page_parts(render(Nope::OwnerNotFound, None));
    assert_eq!(title, "The requested owner does not exist");
    assert_eq!(message.as_deref(), Some("no such owner"));
    assert_eq!(status, 404);
}

#[test]
fn check_500_page_content() {
    let (title, message, status) = error_page_parts(render(Nope::InternalServerError, None));
    assert_eq!(title, "Internal server error");
    assert_eq!(message.as_deref(), Some("internal server error"));
    assert_eq!(status, 500);
}

#[test]
fn no_results_with_query() {
    let (title, search_query, status) =
        search_page_parts(render(Nope::NoResults, Some("query=foobar")));
    assert_eq!(title, "No crates found matching 'foobar'");
    assert_eq!(search_query.as_deref(), Some("foobar"));
    assert_eq!(status, 404);
}

#[test]
fn no_results_without_query() {
    let (title, search_query, status) = search_page_parts(render(Nope::NoResults, None));
    assert_eq!(title, "No results given for empty search query");
    assert_eq!(search_query, None);
    assert_eq!(status, 404);
}

#[test]
fn no_results_with_empty_query_string() {
    let (title, search_query, status) = search_page_parts(render(Nope::NoResults, Some("")));
    assert_eq!(title, "No results given for empty search query");
    assert_eq!(search_query, None);
    assert_eq!(status, 404);
}

#[test]
fn no_results_query_key_is_case_sensitive() {
    let (title, search_query, _) =
        search_page_parts(render(Nope::NoResults, Some("Query=foobar")));
    assert_eq!(title, "No results given for empty search query");
    assert_eq!(search_query, None);
}

#[test]
fn no_results_query_is_percent_decoded() {
    // The query string parser must decode its input, not hand it back
    // verbatim: %20 and + both become a space.
    let (title, search_query, _) =
        search_page_parts(render(Nope::NoResults, Some("query=a%20b+c")));
    assert_eq!(title, "No crates found matching 'a b c'");
    assert_eq!(search_query.as_deref(), Some("a b c"));
}

#[test]
fn render_is_idempotent() {
    let first = search_page_parts(render(Nope::NoResults, Some("query=foobar&page=2")));
    let second = search_page_parts(render(Nope::NoResults, Some("query=foobar&page=2")));
    assert_eq!(first, second);

    let e1 = error_page_parts(render(Nope::CrateNotFound, Some("query=foobar")));
    let e2 = error_page_parts(render(Nope::CrateNotFound, Some("query=foobar")));
    assert_eq!(e1, e2);
}
