//! The TMDB catalogue client: its requests, the selection of watch providers,
//! and its error type.
use vstd::prelude::*;

use crate::adapters::tmdb::models::{CountryProviders, WatchProvidersResponse};
use crate::text::{decimal, push_decimal};

verus! {

/// Failures of the TMDB client.
#[derive(Debug)]
pub enum TmdbError {
    /// The HTTP exchange failed; holds the HTTP client's description.
    Http(String),
    /// The API answered with an error; holds its description.
    Api(String),
}

/// The text a TMDB failure is shown as.
pub open spec fn tmdb_error_text(e: TmdbError) -> Seq<char> {
    match e {
        TmdbError::Http(s) => "HTTP request failed: "@ + s@,
        TmdbError::Api(s) => "API returned an error: "@ + s@,
    }
}

impl TmdbError {
    /// The text this failure is shown as.
    pub fn to_string(&self) -> (t: String)
        ensures
            t@ == tmdb_error_text(*self),
    {
        match self {
            TmdbError::Http(s) => {
                let mut t = String::from_str("HTTP request failed: ");
                t.append(s.as_str());
                t
            },
            TmdbError::Api(s) => {
                let mut t = String::from_str("API returned an error: ");
                t.append(s.as_str());
                t
            },
        }
    }
}

/// The root of the TMDB API.
pub const BASE_URL: &'static str = "https://api.themoviedb.org/3";

/// A GET request to the TMDB API: the URL and the query parameters, in order.
#[derive(Debug)]
pub struct TmdbRequest {
    pub url: String,
    pub query: Vec<(String, String)>,
}

/// The query parameters as pairs of texts.
pub open spec fn query_view(q: Seq<(String, String)>) -> Seq<(Seq<char>, Seq<char>)> {
    q.map_values(|p: (String, String)| (p.0@, p.1@))
}

fn param(name: &str, value: &str) -> (p: (String, String))
    ensures
        p.0@ == name@,
        p.1@ == value@,
{
    (String::from_str(name), String::from_str(value))
}

/// The request that searches series by name, in English.
pub fn search_request(query: &str) -> (req: TmdbRequest)
    ensures
        req.url@ == BASE_URL@ + "/search/tv"@,
        query_view(req.query@) == seq![("query"@, query@), ("language"@, "en-US"@)],
{
    let mut url = String::from_str(BASE_URL);
    url.append("/search/tv");
    let mut q: Vec<(String, String)> = Vec::new();
    q.push(param("query", query));
    q.push(param("language", "en-US"));
    proof {
        assert(query_view(q@) =~= seq![("query"@, query@), ("language"@, "en-US"@)]);
    }
    TmdbRequest { url, query: q }
}

/// The request for the details of a series, in English.
pub fn details_request(series_id: u64) -> (req: TmdbRequest)
    ensures
        req.url@ == BASE_URL@ + "/tv/"@ + decimal(series_id as nat),
        query_view(req.query@) == seq![("language"@, "en-US"@)],
{
    let mut url = String::from_str(BASE_URL);
    url.append("/tv/");
    push_decimal(&mut url, series_id);
    let mut q: Vec<(String, String)> = Vec::new();
    q.push(param("language", "en-US"));
    proof {
        assert(query_view(q@) =~= seq![("language"@, "en-US"@)]);
    }
    TmdbRequest { url, query: q }
}

/// The request for a page of the currently popular series, in English.
pub fn popular_request(page: u8) -> (req: TmdbRequest)
    ensures
        req.url@ == BASE_URL@ + "/tv/popular"@,
        query_view(req.query@) == seq![("language"@, "en-US"@), ("page"@, decimal(page as nat))],
{
    let mut url = String::from_str(BASE_URL);
    url.append("/tv/popular");
    let page_str = crate::text::decimal_string(page as u64);
    let mut q: Vec<(String, String)> = Vec::new();
    q.push(param("language", "en-US"));
    q.push(param("page", page_str.as_str()));
    proof {
        assert(query_view(q@) =~= seq![("language"@, "en-US"@), ("page"@, decimal(page as nat))]);
    }
    TmdbRequest { url, query: q }
}

/// The request for the watch providers of a series, in every country.
pub fn watch_providers_request(series_id: u64) -> (req: TmdbRequest)
    ensures
        req.url@ == BASE_URL@ + "/tv/"@ + decimal(series_id as nat) + "/watch/providers"@,
        req.query@.len() == 0,
{
    let mut url = String::from_str(BASE_URL);
    url.append("/tv/");
    push_decimal(&mut url, series_id);
    url.append("/watch/providers");
    TmdbRequest { url, query: Vec::new() }
}

/// Whether entry `i` is the first whose country code is `code`.
pub open spec fn first_entry_for(results: Seq<(String, CountryProviders)>, code: Seq<char>, i: int) -> bool {
    &&& 0 <= i < results.len()
    &&& results[i].0@ == code
    &&& forall|j: int| 0 <= j < i ==> #[trigger] results[j].0@ != code
}

/// The availability in the country `country_code`, taken out of the response;
/// `None` when the response lists no such country.
pub fn providers_for_country(data: WatchProvidersResponse, country_code: &str) -> (r: Option<CountryProviders>)
    ensures
        match r {
            Some(p) => exists|i: int| #[trigger] first_entry_for(data.results@, country_code@, i) && p == data.results@[i].1,
            None => forall|i: int| 0 <= i < data.results@.len() ==> #[trigger] data.results@[i].0@ != country_code@,
        },
{
    let code = String::from_str(country_code);
    let mut results = data.results;
    let ghost all = results@;
    assert(all == data.results@);
    let mut i: usize = 0;
    while i < results.len()
        invariant
            results@ == all,
            all == data.results@,
            i <= all.len(),
            code@ == country_code@,
            forall|j: int| 0 <= j < i ==> #[trigger] all[j].0@ != country_code@,
        decreases all.len() - i,
    {
        if results[i].0 == code {
            let entry = results.remove(i);
            proof {
                assert(entry == all[i as int]);
                assert(first_entry_for(all, country_code@, i as int) && entry.1 == all[i as int].1);
            }
            return Some(entry.1);
        }
        i = i + 1;
    }
    None
}

/// In a response where no country code occurs twice, the entry with a given
/// code is the one `providers_for_country` takes out.
pub proof fn lemma_unique_country_entry(results: Seq<(String, CountryProviders)>, code: Seq<char>, i: int)
    requires
        crate::adapters::tmdb::models::country_codes_distinct(results),
        0 <= i < results.len(),
        results[i].0@ == code,
    ensures
        first_entry_for(results, code, i),
        forall|k: int| #[trigger] first_entry_for(results, code, k) ==> k == i,
{
    assert forall|j: int| 0 <= j < i implies #[trigger] results[j].0@ != code by {
        assert(results[j].0@ != results[i].0@);
    }
    assert forall|k: int| #[trigger] first_entry_for(results, code, k) implies k == i by {
        if k != i {
            assert(results[k].0@ != results[i].0@);
        }
    }
}

} // verus!
