use backend::adapters::tmdb::adapter::{
    details_request, popular_request, providers_for_country, search_request, watch_providers_request,
    TmdbRequest,
};
use backend::adapters::tmdb::models::{CountryProviders, Provider, WatchProvidersResponse};

fn query(req: &TmdbRequest) -> Vec<(&str, &str)> {
    req.query.iter().map(|(k, v)| (k.as_str(), v.as_str())).collect()
}

#[test]
fn search_request_names_the_query() {
    let req = search_request("Breaking Bad");
    assert_eq!(req.url, "https://api.themoviedb.org/3/search/tv");
    assert_eq!(query(&req), vec![("query", "Breaking Bad"), ("language", "en-US")]);
}

#[test]
fn details_request_names_the_series() {
    let req = details_request(1396);
    assert_eq!(req.url, "https://api.themoviedb.org/3/tv/1396");
    assert_eq!(query(&req), vec![("language", "en-US")]);
    assert_eq!(details_request(0).url, "https://api.themoviedb.org/3/tv/0");
    assert_eq!(details_request(u64::MAX).url, format!("https://api.themoviedb.org/3/tv/{}", u64::MAX));
}

#[test]
fn popular_request_names_the_page() {
    let req = popular_request(3);
    assert_eq!(req.url, "https://api.themoviedb.org/3/tv/popular");
    assert_eq!(query(&req), vec![("language", "en-US"), ("page", "3")]);
    assert_eq!(query(&popular_request(255))[1], ("page", "255"));
}

#[test]
fn watch_providers_request_has_no_query() {
    let req = watch_providers_request(69740);
    assert_eq!(req.url, "https://api.themoviedb.org/3/tv/69740/watch/providers");
    assert!(req.query.is_empty());
}

fn providers(link: &str) -> CountryProviders {
    CountryProviders {
        link: Some(link.to_string()),
        streaming: Some(vec![Provider { provider_id: 8, provider_name: "Netflix".to_string(), logo_path: None }]),
        rent: None,
        buy: None,
        free: None,
    }
}

#[test]
fn providers_of_the_country_are_taken() {
    let data = WatchProvidersResponse {
        id: 1396,
        results: vec![("US".to_string(), providers("us")), ("NO".to_string(), providers("no"))],
    };
    let p = providers_for_country(data, "NO").unwrap();
    assert_eq!(p.link.as_deref(), Some("no"));
    assert_eq!(p.streaming.unwrap()[0].provider_name, "Netflix");
}

#[test]
fn unknown_country_has_no_providers() {
    let data = WatchProvidersResponse { id: 1, results: vec![("US".to_string(), providers("us"))] };
    assert!(providers_for_country(data, "NO").is_none());
    let empty = WatchProvidersResponse { id: 1, results: vec![] };
    assert!(providers_for_country(empty, "US").is_none());
}
