//! The errors that the scraper reports.
use vstd::prelude::*;

verus! {

/// Everything that can stop a scrape.
///
/// The errors of the HTTP client and of the file system are kept as the
/// text that they display, so that the library stays free of their types.
#[derive(Debug, Clone, PartialEq, Eq)]
pub enum ErrorVals {
    NoURL,
    InvalidWebsite,
    InvalidURL,
    SeriesNotFound,
    SurpriseError,
    ChaptersNotFound,
    PagesNotFound,
    CoverNotFound,
    InvalidPath,
    HttpError(String),
    IoError(String),
}

impl ErrorVals {
    /// The text shown to the user for this error.
    pub open spec fn message_spec(&self) -> Seq<char> {
        match self {
            ErrorVals::HttpError(e) => "HTTP Error: "@ + e@,
            ErrorVals::IoError(e) => "IO Error: "@ + e@,
            ErrorVals::InvalidWebsite => "Invalid website, not a Weebcentral link"@,
            ErrorVals::SeriesNotFound => "Series unavailable"@,
            ErrorVals::NoURL => "Please add a URL from mangadex or weebcentral"@,
            ErrorVals::InvalidURL => "Invalid URL"@,
            ErrorVals::SurpriseError => "Unexpected Error"@,
            ErrorVals::ChaptersNotFound => "No chapters found"@,
            ErrorVals::PagesNotFound => "No pages found"@,
            ErrorVals::CoverNotFound => "Cover not found"@,
            ErrorVals::InvalidPath => "Invalid path"@,
        }
    }

    /// The text shown to the user for this error.
    pub fn message(&self) -> (r: String)
        ensures
            r@ == self.message_spec(),
    {
        match self {
            ErrorVals::HttpError(e) => {
                let mut s = "HTTP Error: ".to_owned();
                s.append(e.as_str());
                s
            },
            ErrorVals::IoError(e) => {
                let mut s = "IO Error: ".to_owned();
                s.append(e.as_str());
                s
            },
            ErrorVals::InvalidWebsite => "Invalid website, not a Weebcentral link".to_owned(),
            ErrorVals::SeriesNotFound => "Series unavailable".to_owned(),
            ErrorVals::NoURL => "Please add a URL from mangadex or weebcentral".to_owned(),
            ErrorVals::InvalidURL => "Invalid URL".to_owned(),
            ErrorVals::SurpriseError => "Unexpected Error".to_owned(),
            ErrorVals::ChaptersNotFound => "No chapters found".to_owned(),
            ErrorVals::PagesNotFound => "No pages found".to_owned(),
            ErrorVals::CoverNotFound => "Cover not found".to_owned(),
            ErrorVals::InvalidPath => "Invalid path".to_owned(),
        }
    }
}

} // verus!
