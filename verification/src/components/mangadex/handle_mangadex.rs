//! The addresses and files of a MangaDex scrape.
use vstd::prelude::*;
use crate::components::mangadex::json_structs::{
    ChapterListResp, CoverResp, HomeResp, MangadexResp, Relationship,
};
use crate::errors::ErrorVals;
use crate::path::{join_path, join_spec};
use crate::scraped_data::{ScrapedData, ScrapedDataView};
use crate::text::{after_last, after_last_char, lemma_after_last_unique, str_eq};
use crate::utils::image_helpers::CoverDownload;

verus! {

/// The API entry of the series, with its cover art included.
pub open spec fn manga_url_spec(d: ScrapedDataView) -> Seq<char> {
    "https://api.mangadex.org/manga/"@ + d.series_id + "?includes[]=cover_art"@
}

/// The API entry of the series, with its cover art included.
pub fn mangadex_manga_url(data: &ScrapedData) -> (r: String)
    ensures
        r@ == manga_url_spec(data@),
        r@ == "https://api.mangadex.org/manga/"@ + data.series_id@ + "?includes[]=cover_art"@,
{
    let mut s = "https://api.mangadex.org/manga/".to_owned();
    s.append(data.series_id.as_str());
    s.append("?includes[]=cover_art");
    s
}

/// Whether a relationship is the cover art of the series.
pub open spec fn is_cover_art(r: Relationship) -> bool {
    r.rel_type@ == "cover_art"@
}

/// The id of the first cover art among the relationships of the series;
/// `CoverNotFound` when there is none.
pub fn find_cover_id(resp: &MangadexResp) -> (r: Result<String, ErrorVals>)
    ensures
        match r {
            Ok(id) => exists|i: int|
                0 <= i < resp.data.relationships@.len() && is_cover_art(
                    #[trigger] resp.data.relationships@[i],
                ) && id@ == resp.data.relationships@[i].id@ && forall|j: int|
                    0 <= j < i ==> !is_cover_art(#[trigger] resp.data.relationships@[j]),
            Err(e) => e == ErrorVals::CoverNotFound && forall|i: int|
                0 <= i < resp.data.relationships@.len() ==> !is_cover_art(
                    #[trigger] resp.data.relationships@[i],
                ),
        },
{
    let rels = &resp.data.relationships;
    let n = rels.len();
    for i in 0..n
        invariant
            n == rels.len(),
            rels == &resp.data.relationships,
            forall|j: int| 0 <= j < i ==> !is_cover_art(#[trigger] rels@[j]),
    {
        if str_eq(rels[i].rel_type.as_str(), "cover_art") {
            assert(is_cover_art(rels@[i as int]));
            return Ok(rels[i].id.clone());
        }
    }
    Err(ErrorVals::CoverNotFound)
}

/// The API entry of a cover.
pub fn cover_api_url(cover_id: &str) -> (r: String)
    ensures
        r@ == "https://api.mangadex.org/cover/"@ + cover_id@,
{
    let mut s = "https://api.mangadex.org/cover/".to_owned();
    s.append(cover_id);
    s
}

/// The image file of a cover.
pub open spec fn cover_link_spec(d: ScrapedDataView, filename: Seq<char>) -> Seq<char> {
    "https://uploads.mangadex.org/covers/"@ + d.series_id + "/"@ + filename
}

/// The name the cover is stored under: `<title>_cover.<extension>`, the
/// extension being what follows the last `.` of the cover's file name (all
/// of it when it has no `.`).
pub open spec fn cover_name_spec(d: ScrapedDataView, filename: Seq<char>) -> Seq<char> {
    d.title + "_cover."@ + after_last(filename, '.')
}

/// The cover is named `<title>_cover.` followed by exactly the text after
/// the last `.` of its file name: a tail of the file name that holds no
/// `.` and is all of it or follows a `.`.
pub proof fn lemma_cover_extension(d: ScrapedDataView, filename: Seq<char>, ext: Seq<char>)
    requires
        !ext.contains('.'),
        ext.len() <= filename.len(),
        filename.subrange(filename.len() - ext.len(), filename.len() as int) == ext,
        ext.len() == filename.len() || filename[filename.len() - ext.len() - 1] == '.',
    ensures
        cover_name_spec(d, filename) == d.title + "_cover."@ + ext,
{
    lemma_after_last_unique(filename, '.', ext);
}

/// Where the MangaDex cover of the series comes from and goes to.
pub fn mangadex_cover(data: &ScrapedData, cover: &CoverResp) -> (r: CoverDownload)
    ensures
        r.url@ == cover_link_spec(data@, cover.data.attributes.filename@),
        r.name@ == cover_name_spec(data@, cover.data.attributes.filename@),
        r.path@ == join_spec(
            data.manga_path@,
            cover_name_spec(data@, cover.data.attributes.filename@),
        ),
        r.url@ == "https://uploads.mangadex.org/covers/"@ + data.series_id@ + "/"@
            + cover.data.attributes.filename@,
        r.name@ == data.title@ + "_cover."@ + after_last(cover.data.attributes.filename@, '.'),
{
    let filename = cover.data.attributes.filename.as_str();
    let mut url = "https://uploads.mangadex.org/covers/".to_owned();
    url.append(data.series_id.as_str());
    url.append("/");
    url.append(filename);
    let ext = after_last_char(filename, '.');
    let mut name = data.title.clone();
    name.append("_cover.");
    name.append(ext.as_str());
    let path = join_path(data.manga_path.as_str(), name.as_str());
    CoverDownload { url, name, path }
}

/// The API entry that says where the pages of a chapter are served.
pub fn home_server_url(chap_id: &str) -> (r: String)
    ensures
        r@ == "https://api.mangadex.org/at-home/server/"@ + chap_id@,
{
    let mut s = "https://api.mangadex.org/at-home/server/".to_owned();
    s.append(chap_id);
    s
}

/// For each chapter of the list, in the list's order, the API entry that
/// says where its pages are served: chapter `i` of the list is scraped as
/// the chapter at position `i`.
pub fn chapter_home_urls(list: &ChapterListResp) -> (r: Vec<String>)
    ensures
        r@.len() == list.data@.len(),
        forall|i: int|
            0 <= i < r@.len() ==> (#[trigger] r@[i])@ == "https://api.mangadex.org/at-home/server/"@
                + list.data@[i].id@,
{
    let chapters = &list.data;
    let n = chapters.len();
    let mut r: Vec<String> = Vec::new();
    for i in 0..n
        invariant
            n == chapters.len(),
            chapters == &list.data,
            r@.len() == i,
            forall|k: int|
                0 <= k < i ==> (#[trigger] r@[k])@ == "https://api.mangadex.org/at-home/server/"@
                    + chapters@[k].id@,
    {
        r.push(home_server_url(chapters[i].id.as_str()));
    }
    r
}

/// The address of one page image of a chapter.
pub open spec fn page_url_spec(home: HomeResp, page: Seq<char>) -> Seq<char> {
    home.base_url@ + "/data/"@ + home.chapter.hash@ + "/"@ + page
}

/// A page image is served at the base URL, then `/data/`, the whole
/// chapter hash, `/` and the page's file name.
pub proof fn lemma_page_url(home: HomeResp, page: Seq<char>)
    ensures
        page_url_spec(home, page) == home.base_url@ + "/data/"@ + home.chapter.hash@ + "/"@ + page,
        page_url_spec(home, page).subrange(
            (home.base_url@.len() + "/data/"@.len()) as int,
            (home.base_url@.len() + "/data/"@.len() + home.chapter.hash@.len()) as int,
        ) == home.chapter.hash@,
{
    let u = page_url_spec(home, page);
    let a = (home.base_url@.len() + "/data/"@.len()) as int;
    assert(u.subrange(a, a + home.chapter.hash@.len()) =~= home.chapter.hash@);
}

/// The addresses of the page images of a chapter, in order.
pub fn chapter_page_urls(home: &HomeResp) -> (r: Vec<String>)
    ensures
        r@.len() == home.chapter.data@.len(),
        forall|i: int|
            0 <= i < r@.len() ==> (#[trigger] r@[i])@ == page_url_spec(
                *home,
                home.chapter.data@[i]@,
            ),
        forall|i: int|
            0 <= i < r@.len() ==> (#[trigger] r@[i])@ == home.base_url@ + "/data/"@
                + home.chapter.hash@ + "/"@ + home.chapter.data@[i]@,
{
    let pages = &home.chapter.data;
    let n = pages.len();
    let mut r: Vec<String> = Vec::new();
    for i in 0..n
        invariant
            n == pages.len(),
            pages == &home.chapter.data,
            r@.len() == i,
            forall|k: int|
                0 <= k < i ==> (#[trigger] r@[k])@ == page_url_spec(*home, pages@[k]@),
    {
        let mut s = home.base_url.clone();
        s.append("/data/");
        s.append(home.chapter.hash.as_str());
        s.append("/");
        s.append(pages[i].as_str());
        r.push(s);
    }
    r
}

} // verus!
