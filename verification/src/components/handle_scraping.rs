//! Choosing the scraper for a series.
use vstd::prelude::*;
use crate::scraped_data::{site_of, site_spec, ScrapedData, Site};

verus! {

/// The scraper to run for the website of `data`; none for a website that no
/// scraper handles.
pub fn which_scraper(data: &ScrapedData) -> (r: Option<Site>)
    ensures
        r == site_spec(data.website@),
{
    site_of(data.website.as_str())
}

} // verus!
