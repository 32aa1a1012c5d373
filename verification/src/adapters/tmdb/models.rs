//! Records of the TMDB API that the backend reads.
use vstd::prelude::*;

verus! {

/// A genre of a series.
#[derive(Debug)]
pub struct Genre {
    pub id: u32,
    pub name: String,
}

/// A network that airs a series.
#[derive(Debug)]
pub struct Network {
    pub id: u32,
    pub name: String,
    pub origin_country: String,
}

/// Where a series can be watched, per country code.
#[derive(Debug)]
pub struct WatchProvidersResponse {
    pub id: u64,
    /// The availability per country, each country code at most once.
    pub results: Vec<(String, CountryProviders)>,
}

/// Whether no country code occurs twice among the entries.
pub open spec fn country_codes_distinct(results: Seq<(String, CountryProviders)>) -> bool {
    forall|i: int, j: int|
        0 <= i < results.len() && 0 <= j < results.len() && i != j ==> #[trigger] results[i].0@
            != #[trigger] results[j].0@
}

impl WatchProvidersResponse {
    /// No country code occurs twice.
    pub open spec fn wf(&self) -> bool {
        country_codes_distinct(self.results@)
    }
}

/// The ways a series can be watched in one country.
#[derive(Debug)]
pub struct CountryProviders {
    pub link: Option<String>,
    pub streaming: Option<Vec<Provider>>,
    pub rent: Option<Vec<Provider>>,
    pub buy: Option<Vec<Provider>>,
    pub free: Option<Vec<Provider>>,
}

/// A streaming, rental or sales service.
#[derive(Debug)]
pub struct Provider {
    pub provider_id: u32,
    pub provider_name: String,
    pub logo_path: Option<String>,
}

} // verus!
