//! Where covers and pages are downloaded from and stored to.
use vstd::prelude::*;
use crate::path::{join_path, join_spec};
use crate::scraped_data::{site_of, site_spec, ScrapedData, ScrapedDataView, Site};
use crate::text::{
    all_digits, decimal, decimal3, decimal3_string, digits_value, lemma_decimal, lemma_zeros_value,
    parse_u32_spec, zeros,
};
use crate::path::lemma_join_injective;

verus! {

/// A file to fetch and where to store it.
pub struct CoverDownload {
    pub url: String,
    /// The file name, as shown to the user.
    pub name: String,
    pub path: String,
}

/// How a page image is requested.
#[derive(Debug, Clone, Copy, PartialEq, Eq, Structural)]
pub enum FetchStyle {
    /// A plain request.
    Plain,
    /// A request that names the client in its `User-Agent` header.
    WithUserAgent,
}

/// A page image to fetch: from `url` to `path`, requested as `fetch`
/// says; with no `fetch`, the page is not downloaded at all.
pub struct PageDownload {
    pub url: String,
    pub path: String,
    pub fetch: Option<FetchStyle>,
}

/// The WeebCentral cover of the series: its fallback image, stored as
/// `<title>_cover` in the series directory.
pub open spec fn cover_url_spec(d: ScrapedDataView) -> Seq<char> {
    "https://temp.compsci88.com/cover/fallback/"@ + d.series_id + ".jpg"@
}

pub open spec fn cover_name_spec(d: ScrapedDataView) -> Seq<char> {
    d.title + "_cover"@
}

/// Where the WeebCentral cover of the series comes from and goes to.
pub fn download_cover(data: &ScrapedData) -> (r: CoverDownload)
    ensures
        r.url@ == cover_url_spec(data@),
        r.name@ == cover_name_spec(data@),
        r.path@ == join_spec(data.manga_path@, cover_name_spec(data@)),
        r.url@ == "https://temp.compsci88.com/cover/fallback/"@ + data.series_id@ + ".jpg"@,
        r.name@ == data.title@ + "_cover"@,
        r.path@ == join_spec(data.manga_path@, data.title@ + "_cover"@),
{
    let mut url = "https://temp.compsci88.com/cover/fallback/".to_owned();
    url.append(data.series_id.as_str());
    url.append(".jpg");
    let mut name = data.title.clone();
    name.append("_cover");
    let path = join_path(data.manga_path.as_str(), name.as_str());
    CoverDownload { url, name, path }
}

/// The file name of the page numbered `n`: `page_` and `n` in at least
/// three digits.
pub open spec fn page_file_name(n: nat) -> Seq<char> {
    "page_"@ + decimal3(n)
}

/// How pages of a website are requested: plainly from WeebCentral, with a
/// `User-Agent` from MangaDex, and not at all from anywhere else.
pub open spec fn fetch_style_spec(website: Seq<char>) -> Option<FetchStyle> {
    match site_spec(website) {
        Some(Site::WeebCentral) => Some(FetchStyle::Plain),
        Some(Site::MangaDex) => Some(FetchStyle::WithUserAgent),
        _ => None,
    }
}

/// The download of the page at (zero-based) position `idx` of a chapter:
/// stored as page `idx + 1` in `chap_dir`; the caller skips it when that
/// file exists already.
pub fn image_downloader(page_link: &str, idx: usize, chap_dir: &str, data: &ScrapedData) -> (r:
    PageDownload)
    requires
        idx < usize::MAX,
    ensures
        r.url@ == page_link@,
        r.path@ == join_spec(chap_dir@, page_file_name(idx as nat + 1)),
        r.path@ == join_spec(chap_dir@, "page_"@ + decimal3(idx as nat + 1)),
        r.fetch == fetch_style_spec(data.website@),
        data.website@ == "weebcentral.com"@ ==> r.fetch == Some(FetchStyle::Plain),
        data.website@ == "mangadex.org"@ ==> r.fetch == Some(FetchStyle::WithUserAgent),
        data.website@ != "weebcentral.com"@ && data.website@ != "mangadex.org"@ ==> r.fetch is None,
{
    proof {
        reveal_strlit("weebcentral.com");
        reveal_strlit("mangadex.org");
        reveal_strlit("mangapill.com");
        assert("weebcentral.com"@.len() != "mangadex.org"@.len());
    }
    let mut name = "page_".to_owned();
    let number = decimal3_string(idx as u64 + 1);
    name.append(number.as_str());
    let path = join_path(chap_dir, name.as_str());
    let fetch = match site_of(data.website.as_str()) {
        Some(Site::WeebCentral) => Some(FetchStyle::Plain),
        Some(Site::MangaDex) => Some(FetchStyle::WithUserAgent),
        _ => None,
    };
    PageDownload { url: page_link.to_owned(), path, fetch }
}

/// The three-digit rendering of `n` is a run of at least three digits
/// that denotes `n`, so it reads back as `n`.
pub proof fn lemma_decimal3(n: nat)
    ensures
        decimal3(n).len() >= 3,
        all_digits(decimal3(n)),
        digits_value(decimal3(n)) == n,
        n <= u32::MAX ==> parse_u32_spec(decimal3(n)) == Some(n as u32),
{
    lemma_decimal(n);
    let d = decimal(n);
    if d.len() < 3 {
        lemma_zeros_value((3 - d.len()) as nat, d);
        assert(decimal3(n) == zeros((3 - d.len()) as nat) + d);
    }
    if n <= u32::MAX {
        assert(digits_value(decimal3(n)) == n);
        assert(decimal3(n)[0] != '+') by {
            assert(48 <= (decimal3(n)[0] as int) <= 57);
        }
    }
}

/// Two pages with different numbers are stored under different names, so
/// in different files of a chapter directory.
pub proof fn lemma_page_files_distinct(chap_dir: Seq<char>, m: nat, n: nat)
    requires
        m != n,
    ensures
        page_file_name(m) != page_file_name(n),
        join_spec(chap_dir, page_file_name(m)) != join_spec(chap_dir, page_file_name(n)),
{
    reveal_strlit("page_");
    lemma_decimal3(m);
    lemma_decimal3(n);
    let a = page_file_name(m);
    let b = page_file_name(n);
    if a == b {
        assert(a.subrange(5, a.len() as int) =~= decimal3(m));
        assert(b.subrange(5, b.len() as int) =~= decimal3(n));
    }
    assert(a[0] == 'p');
    assert(b[0] == 'p');
    lemma_join_injective(chap_dir, a, b);
}

} // verus!
