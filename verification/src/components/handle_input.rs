//! Reading the input URL: which site it names, which series, and how to
//! check that the series exists there.
use vstd::prelude::*;
use crate::errors::ErrorVals;
use crate::html::strings_view;
use crate::scraped_data::{site_of, site_spec, ScrapedData, ScrapedDataView, Site};
use crate::text::str_eq;

verus! {

/// The pieces of a parsed URL that the scraper reads: its host when that is
/// a domain name, and its path split at `/` (absent for URLs that cannot be
/// a base, such as `data:` URLs).
pub struct UrlParts {
    pub domain: Option<String>,
    pub segments: Option<Vec<String>>,
}

/// The characters of an optional string.
pub open spec fn opt_string_view(o: Option<String>) -> Option<Seq<char>> {
    match o {
        Some(s) => Some(s@),
        None => None,
    }
}

/// A `UrlParts` as character sequences.
pub open spec fn url_parts_view(p: UrlParts) -> (Option<Seq<char>>, Option<Seq<Seq<char>>>) {
    (
        opt_string_view(p.domain),
        match p.segments {
            Some(v) => Some(strings_view(v@)),
            None => None,
        },
    )
}

/// What `url::Url::parse` makes of `input`, read as its domain and its path
/// segments; `None` when the crate refuses the input.
pub uninterp spec fn parsed_url(input: Seq<char>) -> Option<(Option<Seq<char>>, Option<Seq<Seq<char>>>)>;

/// Calls `url::Url::parse` on `input` and reads `Url::domain` and
/// `Url::path_segments` of the result.
///
/// Trusted: the result is `parsed_url(input)`, and, as the crate documents,
/// path segments, when present, are at least one string. Which inputs parse,
/// and to what, is left to the crate and not stated.
#[verifier::external_body]
fn parse_url(input: &str) -> (r: Option<UrlParts>)
    ensures
        match r {
            None => parsed_url(input@) is None,
            Some(p) => parsed_url(input@) == Some(url_parts_view(p)),
        },
        r matches Some(p) ==> (p.segments matches Some(s) ==> s.len() >= 1),
{
    url::Url::parse(input).ok().map(|u| UrlParts {
        domain: u.domain().map(|d| d.to_string()),
        segments: u.path_segments().map(|segs| segs.map(|s| s.to_string()).collect()),
    })
}

/// The first path segment that introduces a series on `site`.
pub open spec fn series_prefix(site: Site) -> Seq<char> {
    match site {
        Site::WeebCentral => "series"@,
        Site::MangaDex => "title"@,
        Site::MangaPill => "manga"@,
    }
}

/// The outcome of `which_domain`: an unsupported website is refused; on a
/// supported one, a path `<prefix>/<id>/<title>` gives the series id and
/// title, and any other path leaves them as they were.
pub open spec fn which_domain_spec(d: ScrapedDataView, splits: Seq<Seq<char>>) -> (
    Result<(), ErrorVals>,
    ScrapedDataView,
) {
    match site_spec(d.website) {
        None => (Err(ErrorVals::InvalidWebsite), d),
        Some(site) => if splits.len() == 3 && splits[0] == series_prefix(site) {
            (Ok(()), ScrapedDataView { series_id: splits[1], title: splits[2], ..d })
        } else {
            (Ok(()), d)
        },
    }
}

/// The outcome of `pre_scrape_setup` once the input URL is parsed: an
/// unparsable URL is `NoURL`, one without a domain is `InvalidURL`;
/// otherwise the domain becomes the website and the path is read as in
/// `which_domain` (no path at all reads as no segment).
pub open spec fn pre_scrape_spec(
    d: ScrapedDataView,
    parsed: Option<(Option<Seq<char>>, Option<Seq<Seq<char>>>)>,
) -> (Result<(), ErrorVals>, ScrapedDataView) {
    match parsed {
        None => (Err(ErrorVals::NoURL), d),
        Some((None, _)) => (Err(ErrorVals::InvalidURL), d),
        Some((Some(host), segs)) => which_domain_spec(
            ScrapedDataView { website: host, ..d },
            match segs {
                Some(s) => s,
                None => Seq::empty(),
            },
        ),
    }
}

/// Reads the series id and title out of the path segments of the input URL,
/// for the site that `data.website` names.
pub fn which_domain(data: &mut ScrapedData, url_splits: &Vec<String>) -> (r: Result<(), ErrorVals>)
    ensures
        (r, final(data)@) == which_domain_spec(old(data)@, strings_view(url_splits@)),
{
    let ghost splits = strings_view(url_splits@);
    let site = match site_of(data.website.as_str()) {
        Some(site) => site,
        None => {
            return Err(ErrorVals::InvalidWebsite);
        },
    };
    let prefix = match site {
        Site::WeebCentral => "series",
        Site::MangaDex => "title",
        Site::MangaPill => "manga",
    };
    if url_splits.len() == 3 && str_eq(url_splits[0].as_str(), prefix) {
        assert(splits[0] == url_splits@[0]@);
        data.series_id = url_splits[1].clone();
        data.title = url_splits[2].clone();
        assert(data.series_id@ == splits[1]);
        assert(data.title@ == splits[2]);
    } else {
        assert(url_splits.len() == 3 ==> splits[0] == url_splits@[0]@);
    }
    Ok(())
}

/// Takes in a parsed input URL: records its domain as the website, then
/// reads the series out of its path (see `pre_scrape_spec`).
pub fn apply_parsed_url(data: &mut ScrapedData, parsed: Option<UrlParts>) -> (r: Result<(), ErrorVals>)
    ensures
        (r, final(data)@) == pre_scrape_spec(
            old(data)@,
            match parsed {
                Some(p) => Some(url_parts_view(p)),
                None => None,
            },
        ),
{
    let parts = match parsed {
        Some(p) => p,
        None => {
            return Err(ErrorVals::NoURL);
        },
    };
    let website = match parts.domain {
        Some(w) => w,
        None => {
            return Err(ErrorVals::InvalidURL);
        },
    };
    data.website = website;
    let segments = match parts.segments {
        Some(s) => s,
        None => Vec::new(),
    };
    proof {
        assert(strings_view(Seq::<String>::empty()) =~= Seq::<Seq<char>>::empty());
    }
    which_domain(data, &segments)
}

/// Parses the input URL of `data` and reads the site and the series out of
/// it; what comes next (checking the series page, making its directory,
/// scraping) is up to the caller.
pub fn pre_scrape_setup(data: &mut ScrapedData) -> (r: Result<(), ErrorVals>)
    ensures
        (r, final(data)@) == pre_scrape_spec(old(data)@, parsed_url(old(data).input_url@)),
{
    let parsed = parse_url(data.input_url.as_str());
    apply_parsed_url(data, parsed)
}

/// When reading the input URL succeeds, the website is the URL's domain and
/// a supported site, and nothing but the website, the series id and the
/// title has changed.
pub proof fn lemma_pre_scrape_ok(
    d: ScrapedDataView,
    parsed: Option<(Option<Seq<char>>, Option<Seq<Seq<char>>>)>,
)
    requires
        pre_scrape_spec(d, parsed).0 is Ok,
    ensures
        parsed matches Some((Some(host), _)) && pre_scrape_spec(d, parsed).1.website == host,
        site_spec(pre_scrape_spec(d, parsed).1.website) is Some,
        pre_scrape_spec(d, parsed).1 == (ScrapedDataView {
            website: pre_scrape_spec(d, parsed).1.website,
            series_id: pre_scrape_spec(d, parsed).1.series_id,
            title: pre_scrape_spec(d, parsed).1.title,
            ..d
        }),
{
}

/// The page fetched to check that the series exists: the MangaDex API entry
/// of the series, or else the input URL itself.
pub open spec fn prob_url_spec(d: ScrapedDataView) -> Seq<char> {
    if d.website == "mangadex.org"@ {
        "https://api.mangadex.org/manga/"@ + d.series_id
    } else {
        d.input_url
    }
}

/// The page probed for a series is the input URL itself for every website
/// but MangaDex, and the MangaDex API entry of the series id there.
pub proof fn lemma_prob_url(d: ScrapedDataView)
    ensures
        d.website != "mangadex.org"@ ==> prob_url_spec(d) == d.input_url,
        d.website == "mangadex.org"@ ==> prob_url_spec(d) == "https://api.mangadex.org/manga/"@
            + d.series_id,
{
}

/// The page fetched to check that the series exists.
pub fn prob_link_url(data: &ScrapedData) -> (r: String)
    ensures
        r@ == prob_url_spec(data@),
        data.website@ == "mangadex.org"@ ==> r@ == "https://api.mangadex.org/manga/"@
            + data.series_id@,
        data.website@ != "mangadex.org"@ ==> r@ == data.input_url@,
{
    if str_eq(data.website.as_str(), "mangadex.org") {
        let mut s = "https://api.mangadex.org/manga/".to_owned();
        s.append(data.series_id.as_str());
        s
    } else {
        data.input_url.clone()
    }
}

/// What the HTTP status of that page means: 200 is found, 404 is
/// `SeriesNotFound`, anything else is `SurpriseError`.
pub fn prob_link_status(status: u16) -> (r: Result<(), ErrorVals>)
    ensures
        r == (if status == 200 {
            Ok(())
        } else if status == 404 {
            Err(ErrorVals::SeriesNotFound)
        } else {
            Err(ErrorVals::SurpriseError)
        }),
{
    if status == 200 {
        Ok(())
    } else if status == 404 {
        Err(ErrorVals::SeriesNotFound)
    } else {
        Err(ErrorVals::SurpriseError)
    }
}

} // verus!
