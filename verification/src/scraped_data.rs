//! What the scraper knows about the series it is working on, and the sites
//! it can scrape.
use vstd::prelude::*;
use crate::text::str_eq;

verus! {

/// The state of one scrape: where the series comes from and where it goes.
pub struct ScrapedData {
    /// The host of the input URL, such as `mangadex.org`.
    pub website: String,
    pub title: String,
    pub series_id: String,
    pub input_url: String,
    /// The library directory that series directories are made in.
    pub user_path: String,
    pub _current_chap: u32,
    pub given_chap: u32,
    /// The directory of this series inside the library.
    pub manga_path: String,
}

/// The contents of a `ScrapedData`, as character sequences.
pub struct ScrapedDataView {
    pub website: Seq<char>,
    pub title: Seq<char>,
    pub series_id: Seq<char>,
    pub input_url: Seq<char>,
    pub user_path: Seq<char>,
    pub current_chap: u32,
    pub given_chap: u32,
    pub manga_path: Seq<char>,
}

impl View for ScrapedData {
    type V = ScrapedDataView;

    open spec fn view(&self) -> ScrapedDataView {
        ScrapedDataView {
            website: self.website@,
            title: self.title@,
            series_id: self.series_id@,
            input_url: self.input_url@,
            user_path: self.user_path@,
            current_chap: self._current_chap,
            given_chap: self.given_chap,
            manga_path: self.manga_path@,
        }
    }
}

impl Default for ScrapedData {
    /// Empty strings and zero chapters.
    fn default() -> (r: ScrapedData)
        ensures
            r@ == (ScrapedDataView {
                website: Seq::empty(),
                title: Seq::empty(),
                series_id: Seq::empty(),
                input_url: Seq::empty(),
                user_path: Seq::empty(),
                current_chap: 0,
                given_chap: 0,
                manga_path: Seq::empty(),
            }),
    {
        ScrapedData {
            website: String::new(),
            title: String::new(),
            series_id: String::new(),
            input_url: String::new(),
            user_path: String::new(),
            _current_chap: 0,
            given_chap: 0,
            manga_path: String::new(),
        }
    }
}

/// The sites that series can be scraped from.
#[derive(Debug, Clone, Copy, PartialEq, Eq, Structural)]
pub enum Site {
    WeebCentral,
    MangaDex,
    MangaPill,
}

/// The site whose host name is `website`, if it is one of those supported.
pub open spec fn site_spec(website: Seq<char>) -> Option<Site> {
    if website == "weebcentral.com"@ {
        Some(Site::WeebCentral)
    } else if website == "mangadex.org"@ {
        Some(Site::MangaDex)
    } else if website == "mangapill.com"@ {
        Some(Site::MangaPill)
    } else {
        None
    }
}

/// The site whose host name is `website`, if it is one of those supported.
pub fn site_of(website: &str) -> (r: Option<Site>)
    ensures
        r == site_spec(website@),
{
    if str_eq(website, "weebcentral.com") {
        Some(Site::WeebCentral)
    } else if str_eq(website, "mangadex.org") {
        Some(Site::MangaDex)
    } else if str_eq(website, "mangapill.com") {
        Some(Site::MangaPill)
    } else {
        None
    }
}

} // verus!
