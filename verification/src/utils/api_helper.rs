//! The API addresses of the sites.
use vstd::prelude::*;
use crate::errors::ErrorVals;
use crate::scraped_data::{ScrapedData, ScrapedDataView};
use crate::text::{after_last, after_last_char, lemma_after_last, lemma_after_last_unique, str_eq};

verus! {

/// The address that lists the chapters of the series: WeebCentral's full
/// chapter list, MangaDex's English chapters in ascending order (at most
/// one hundred), and an empty string for any other website.
pub open spec fn domaine_api_spec(d: ScrapedDataView) -> Seq<char> {
    if d.website == "weebcentral.com"@ {
        "https://weebcentral.com/series/"@ + d.series_id + "/full-chapter-list"@
    } else if d.website == "mangadex.org"@ {
        "https://api.mangadex.org/chapter?manga="@ + d.series_id
            + "&translatedLanguage[]=en&order[chapter]=asc&limit=100"@
    } else {
        Seq::empty()
    }
}

/// The chapter list of a WeebCentral series is its full chapter list page,
/// that of a MangaDex series is the English chapter feed of its whole id,
/// and any other website has none.
pub proof fn lemma_domaine_api(d: ScrapedDataView)
    ensures
        d.website == "weebcentral.com"@ ==> domaine_api_spec(d) == "https://weebcentral.com/series/"@
            + d.series_id + "/full-chapter-list"@,
        d.website == "mangadex.org"@ ==> domaine_api_spec(d)
            == "https://api.mangadex.org/chapter?manga="@ + d.series_id
            + "&translatedLanguage[]=en&order[chapter]=asc&limit=100"@,
        d.website != "weebcentral.com"@ && d.website != "mangadex.org"@ ==> domaine_api_spec(
            d,
        ).len() == 0,
{
    reveal_strlit("weebcentral.com");
    reveal_strlit("mangadex.org");
    assert("weebcentral.com"@.len() != "mangadex.org"@.len());
}

/// The address that lists the chapters of the series (see
/// `domaine_api_spec`).
pub fn setup_domaine_api(data: &ScrapedData) -> (r: String)
    ensures
        r@ == domaine_api_spec(data@),
        data.website@ == "weebcentral.com"@ ==> r@ == "https://weebcentral.com/series/"@
            + data.series_id@ + "/full-chapter-list"@,
        data.website@ == "mangadex.org"@ ==> r@ == "https://api.mangadex.org/chapter?manga="@
            + data.series_id@ + "&translatedLanguage[]=en&order[chapter]=asc&limit=100"@,
        data.website@ != "weebcentral.com"@ && data.website@ != "mangadex.org"@ ==> r@.len() == 0,
{
    proof {
        lemma_domaine_api(data@);
    }
    if str_eq(data.website.as_str(), "weebcentral.com") {
        let mut s = "https://weebcentral.com/series/".to_owned();
        s.append(data.series_id.as_str());
        s.append("/full-chapter-list");
        s
    } else if str_eq(data.website.as_str(), "mangadex.org") {
        let mut s = "https://api.mangadex.org/chapter?manga=".to_owned();
        s.append(data.series_id.as_str());
        s.append("&translatedLanguage[]=en&order[chapter]=asc&limit=100");
        s
    } else {
        String::new()
    }
}

/// The chapter id in a chapter link: what follows its last `/`.
pub open spec fn chapter_id(chapter_link: Seq<char>) -> Seq<char> {
    after_last(chapter_link, '/')
}

/// The WeebCentral address of the page images of a chapter.
pub open spec fn chapter_api_spec(chapter_link: Seq<char>) -> Seq<char> {
    "https://weebcentral.com/chapters/"@ + chapter_id(chapter_link)
        + "/images?is_prev=False&current_page=1&reading_style=long_strip"@
}

/// The WeebCentral address of the page images of the chapter that
/// `chapter_link` points at. Every link has a chapter id, so this always
/// succeeds.
pub fn create_api_call(chapter_link: &str) -> (r: Result<String, ErrorVals>)
    ensures
        r matches Ok(s) && s@ == chapter_api_spec(chapter_link@),
        r matches Ok(s) && s@ == "https://weebcentral.com/chapters/"@ + after_last(
            chapter_link@,
            '/',
        ) + "/images?is_prev=False&current_page=1&reading_style=long_strip"@,
        r matches Ok(s) && exists|id: Seq<char>|
            {
                &&& s@ == "https://weebcentral.com/chapters/"@ + id
                    + "/images?is_prev=False&current_page=1&reading_style=long_strip"@
                &&& !id.contains('/')
                &&& id.len() <= chapter_link@.len()
                &&& chapter_link@.subrange(
                    chapter_link@.len() - id.len(),
                    chapter_link@.len() as int,
                ) == id
                &&& (id.len() == chapter_link@.len() || chapter_link@[chapter_link@.len()
                    - id.len() - 1] == '/')
            },
{
    proof {
        lemma_after_last(chapter_link@, '/');
    }
    let chap_id = after_last_char(chapter_link, '/');
    let mut s = "https://weebcentral.com/chapters/".to_owned();
    s.append(chap_id.as_str());
    s.append("/images?is_prev=False&current_page=1&reading_style=long_strip");
    Ok(s)
}

/// The chapter id of a link is the whole text after its last `/`: it holds
/// no `/`, the link ends with it, and it is all of the link or follows a
/// `/`.
pub proof fn lemma_chapter_id(chapter_link: Seq<char>)
    ensures
        !chapter_id(chapter_link).contains('/'),
        chapter_link.subrange(
            chapter_link.len() - chapter_id(chapter_link).len(),
            chapter_link.len() as int,
        ) == chapter_id(chapter_link),
        chapter_id(chapter_link).len() == chapter_link.len() || chapter_link[chapter_link.len()
            - chapter_id(chapter_link).len() - 1] == '/',
{
    lemma_after_last(chapter_link, '/');
}

/// The address of a chapter's page images is the fixed prefix, then
/// exactly the text after the link's last `/` (a tail of the link that
/// holds no `/` and is all of it or follows a `/`), then the fixed suffix.
pub proof fn lemma_chapter_api(chapter_link: Seq<char>, id: Seq<char>)
    requires
        !id.contains('/'),
        id.len() <= chapter_link.len(),
        chapter_link.subrange(chapter_link.len() - id.len(), chapter_link.len() as int) == id,
        id.len() == chapter_link.len() || chapter_link[chapter_link.len() - id.len() - 1] == '/',
    ensures
        chapter_api_spec(chapter_link) == "https://weebcentral.com/chapters/"@ + id
            + "/images?is_prev=False&current_page=1&reading_style=long_strip"@,
{
    lemma_after_last_unique(chapter_link, '/', id);
}

} // verus!
