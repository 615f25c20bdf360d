//! Scraping helpers of the `components` tree: the same tasks as in
//! `crate::utils`, with the differences noted on each.
use vstd::prelude::*;
use crate::errors::ErrorVals;
use crate::path::{join_path, join_spec};
use crate::scraped_data::ScrapedData;
use crate::text::{after_last, decimal3_string};
use crate::utils::api_helper::{chapter_api_spec, domaine_api_spec};
use crate::utils::chapter_dir_helpers::chapter_dir_spec;
use crate::utils::image_helpers::{page_file_name, FetchStyle, PageDownload};

verus! {

/// The address that lists the chapters of the series (see
/// `crate::utils::api_helper::setup_domaine_api`).
pub fn setup_domaine_api(data: &ScrapedData) -> (r: String)
    ensures
        r@ == domaine_api_spec(data@),
        data.website@ == "weebcentral.com"@ ==> r@ == "https://weebcentral.com/series/"@
            + data.series_id@ + "/full-chapter-list"@,
        data.website@ == "mangadex.org"@ ==> r@ == "https://api.mangadex.org/chapter?manga="@
            + data.series_id@ + "&translatedLanguage[]=en&order[chapter]=asc&limit=100"@,
        data.website@ != "weebcentral.com"@ && data.website@ != "mangadex.org"@ ==> r@.len() == 0,
{
    crate::utils::api_helper::setup_domaine_api(data)
}

/// The WeebCentral address of the page images of the chapter that
/// `chapter_link` points at, whatever the website of `data`; always
/// succeeds.
pub fn create_api_call(chapter_link: &str, data: &ScrapedData) -> (r: Result<String, ErrorVals>)
    ensures
        r matches Ok(s) && s@ == chapter_api_spec(chapter_link@),
        r matches Ok(s) && s@ == "https://weebcentral.com/chapters/"@ + after_last(
            chapter_link@,
            '/',
        ) + "/images?is_prev=False&current_page=1&reading_style=long_strip"@,
{
    crate::utils::api_helper::create_api_call(chapter_link)
}

/// The download of the page at position `idx` of a chapter: requested
/// plainly and stored in `chap_dir` under the number `idx` itself.
pub fn image_downloader(page_link: &str, idx: usize, chap_dir: &str) -> (r: PageDownload)
    ensures
        r.url@ == page_link@,
        r.path@ == join_spec(chap_dir@, page_file_name(idx as nat)),
        r.fetch == Some(FetchStyle::Plain),
{
    let mut name = "page_".to_owned();
    let number = decimal3_string(idx as u64);
    name.append(number.as_str());
    let path = join_path(chap_dir, name.as_str());
    PageDownload { url: page_link.to_owned(), path, fetch: Some(FetchStyle::Plain) }
}

/// The directory to make for the chapter at position `chap_num` (see
/// `crate::utils::chapter_dir_helpers::write_chap_dir`).
pub fn write_chap_dir(data: &ScrapedData, chap_num: usize, dir_exists: bool) -> (r: Option<String>)
    requires
        chap_num < usize::MAX,
    ensures
        match r {
            Some(dir) => !dir_exists && dir@ == chapter_dir_spec(data.manga_path@, chap_num as nat),
            None => dir_exists,
        },
{
    crate::utils::chapter_dir_helpers::write_chap_dir(data, chap_num, dir_exists)
}

/// How many milliseconds to wait before the next chapter (see
/// `crate::utils::misc::random_delay`).
pub fn random_delay() -> (ms: u64)
    ensures
        2000 <= ms < 5000,
{
    crate::utils::misc::random_delay()
}

} // verus!
