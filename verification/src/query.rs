//! Extraction of the `query` parameter from a request URL's query string.
//!
//! The query component is parsed into an ordered sequence of
//! percent-decoded (key, value) pairs by the `url` crate; the extraction
//! itself — first pair whose key is exactly `"query"` wins — is verified.

use vstd::prelude::*;

verus! {

/// The ordered (key, value) pairs that the
/// `application/x-www-form-urlencoded` parser yields for a query string,
/// percent-decoded. A function of the input characters alone.
pub uninterp spec fn decoded_query_pairs(q: Seq<char>) -> Seq<(Seq<char>, Seq<char>)>;

/// The view of a vector of owned (key, value) pairs.
pub open spec fn pairs_view(pairs: Seq<(String, String)>) -> Seq<(Seq<char>, Seq<char>)> {
    pairs.map_values(|p: (String, String)| (p.0@, p.1@))
}

/// Relies on url::form_urlencoded::parse: splits a query string at `&`,
/// each piece at its first `=`, and percent-decodes both sides (`+` as a
/// space), in order; empty input yields no pairs; the result depends on
/// the input alone.
#[verifier::external_body]
pub(crate) fn parse_query_pairs(q: &str) -> (pairs: Vec<(String, String)>)
    ensures
        pairs_view(pairs@) == decoded_query_pairs(q@),
        q@.len() == 0 ==> pairs@.len() == 0,
{
    url::form_urlencoded::parse(q.as_bytes()).into_owned().collect()
}

/// The value of the first pair whose key is exactly `"query"`, if any.
pub open spec fn first_query_value(pairs: Seq<(Seq<char>, Seq<char>)>) -> Option<Seq<char>>
    decreases pairs.len(),
{
    if pairs.len() == 0 {
        None
    } else if pairs[0].0 == "query"@ {
        Some(pairs[0].1)
    } else {
        first_query_value(pairs.drop_first())
    }
}

/// Returns the value of the first (key, value) pair whose key exactly
/// equals `"query"`, or `None` if no such pair exists. Matching is
/// case-sensitive and exact on the key name.
pub fn find_query(pairs: &Vec<(String, String)>) -> (found: Option<String>)
    ensures
        match found {
            Some(v) => first_query_value(pairs_view(pairs@)) == Some(v@),
            None => first_query_value(pairs_view(pairs@)) is None,
        },
{
    let needle = String::from_str("query");
    let ghost all = pairs_view(pairs@);
    proof {
        assert(all.skip(0) =~= all);
    }
    let mut i: usize = 0;
    while i < pairs.len()
        invariant
            i <= pairs@.len(),
            all == pairs_view(pairs@),
            needle@ == "query"@,
            first_query_value(all) == first_query_value(all.skip(i as int)),
        decreases pairs@.len() - i,
    {
        let pair = &pairs[i];
        if pair.0 == needle {
            proof {
                assert(all.skip(i as int)[0] == (pair.0@, pair.1@));
            }
            return Some(pair.1.clone());
        }
        proof {
            assert(all.skip(i as int)[0] == (pair.0@, pair.1@));
            assert(all.skip(i as int).drop_first() =~= all.skip(i + 1));
        }
        i = i + 1;
    }
    proof {
        assert(all.skip(i as int).len() == 0);
    }
    None
}

/// Parses a URL's query component (absent, or its text without the leading
/// `?`) and returns the value of the first `query` parameter, if any.
pub fn find_query_in(query: Option<&str>) -> (found: Option<String>)
    ensures
        match found {
            Some(v) => (query matches Some(q) && first_query_value(decoded_query_pairs(q@))
                == Some(v@)),
            None => match query {
                Some(q) => first_query_value(decoded_query_pairs(q@)) is None,
                None => true,
            },
        },
{
    match query {
        Some(q) => {
            let pairs = parse_query_pairs(q);
            find_query(&pairs)
        },
        None => None,
    }
}

} // verus!
