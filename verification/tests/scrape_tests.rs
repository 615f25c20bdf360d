use kaiman::components::mangadex::handle_mangadex::{
    chapter_home_urls, chapter_page_urls, cover_api_url, find_cover_id, home_server_url, mangadex_cover,
    mangadex_manga_url,
};
use kaiman::components::mangadex::json_structs::{
    ChapterAttributes, ChapterListResp, ChapterRes, CoverAttributes, CoverData, CoverResp, HomeChapter,
    HomeResp, MangaData, MangadexResp, Relationship,
};
use kaiman::components::mangapill::handle_mangapill::{mangapill_chapter_url, page_links as pill_page_links};
use kaiman::components::utils as old_utils;
use kaiman::components::weebcentral::handle_weebcentral::{page_links, page_links_from};
use kaiman::html::{attr_values, chapter_links, chapter_links_from};
use kaiman::utils::api_helper::{create_api_call, setup_domaine_api};
use kaiman::utils::chapter_dir_helpers::{
    chapter_dir, check_completed_marker, complete_chapter, plan_chapter, write_chap_dir, ChapterStep,
    COMPLETED_CHAPTER,
};
use kaiman::utils::image_helpers::{download_cover, image_downloader, FetchStyle};
use kaiman::utils::chapter_download::{ChapterAction, ChapterDownload, ChapterEvent};
use kaiman::utils::misc::random_delay;
use kaiman::{ErrorVals, ScrapedData};

fn series(website: &str) -> ScrapedData {
    let mut d = ScrapedData::default();
    d.website = website.to_string();
    d.series_id = "SID".to_string();
    d.title = "Title".to_string();
    d.manga_path = "lib/Title".to_string();
    d
}

#[test]
fn chapter_list_addresses() {
    assert_eq!(
        setup_domaine_api(&series("weebcentral.com")),
        "https://weebcentral.com/series/SID/full-chapter-list"
    );
    assert_eq!(
        setup_domaine_api(&series("mangadex.org")),
        "https://api.mangadex.org/chapter?manga=SID&translatedLanguage[]=en&order[chapter]=asc&limit=100"
    );
    assert_eq!(setup_domaine_api(&series("mangapill.com")), "");
    assert_eq!(old_utils::setup_domaine_api(&series("weebcentral.com")), setup_domaine_api(&series("weebcentral.com")));
}

#[test]
fn create_api_call_uses_last_segment() {
    assert_eq!(
        create_api_call("https://weebcentral.com/chapters/01J76ABC"),
        Ok("https://weebcentral.com/chapters/01J76ABC/images?is_prev=False&current_page=1&reading_style=long_strip".to_string())
    );
    assert_eq!(
        create_api_call("nochapter"),
        Ok("https://weebcentral.com/chapters/nochapter/images?is_prev=False&current_page=1&reading_style=long_strip".to_string())
    );
    assert_eq!(
        old_utils::create_api_call("a/b", &series("mangadex.org")),
        create_api_call("a/b")
    );
}

#[test]
fn chapter_directories() {
    let d = series("mangadex.org");
    assert_eq!(chapter_dir(&d, 0), "lib/Title/chapter_1");
    assert_eq!(chapter_dir(&d, 41), "lib/Title/chapter_42");
    assert_eq!(write_chap_dir(&d, 2, false), Some("lib/Title/chapter_3".to_string()));
    assert_eq!(write_chap_dir(&d, 2, true), None);
    assert_eq!(old_utils::write_chap_dir(&d, 9, false), Some("lib/Title/chapter_10".to_string()));
}

#[test]
fn completion_markers() {
    let d = series("mangadex.org");
    assert_eq!(COMPLETED_CHAPTER, ".completed");
    assert_eq!(check_completed_marker("lib/Title/chapter_1"), "lib/Title/chapter_1/.completed");
    assert_eq!(
        complete_chapter("lib/Title/chapter_1", &d, 0),
        "lib/Title/lib/Title/chapter_1/.completed"
    );
    assert_eq!(complete_chapter("/abs/chapter_1", &d, 0), "/abs/chapter_1/.completed");
}

#[test]
fn page_downloads() {
    let p = image_downloader("https://img/1.png", 0, "lib/T/chapter_1", &series("weebcentral.com"));
    assert_eq!(p.url, "https://img/1.png");
    assert_eq!(p.path, "lib/T/chapter_1/page_001");
    assert_eq!(p.fetch, Some(FetchStyle::Plain));
    let p = image_downloader("u", 122, "c", &series("mangadex.org"));
    assert_eq!(p.path, "c/page_123");
    assert_eq!(p.fetch, Some(FetchStyle::WithUserAgent));
    let p = image_downloader("u", 999, "c", &series("mangapill.com"));
    assert_eq!(p.path, "c/page_1000");
    assert_eq!(p.fetch, None);
    let p = old_utils::image_downloader("u", 7, "c");
    assert_eq!(p.path, "c/page_007");
    assert_eq!(p.fetch, Some(FetchStyle::Plain));
}

#[test]
fn weebcentral_cover() {
    let c = download_cover(&series("weebcentral.com"));
    assert_eq!(c.url, "https://temp.compsci88.com/cover/fallback/SID.jpg");
    assert_eq!(c.name, "Title_cover");
    assert_eq!(c.path, "lib/Title/Title_cover");
}

#[test]
fn random_delay_in_range() {
    for _ in 0..200 {
        let ms = random_delay();
        assert!((2000..5000).contains(&ms));
        let ms = old_utils::random_delay();
        assert!((2000..5000).contains(&ms));
    }
}

const SERIES_PAGE: &str = r#"<html><body>
<a href="/home">Home</a>
<a href="https://weebcentral.com/chapters/C3">Chapter 3</a>
<a>no link</a>
<a href="https://weebcentral.com/chapters/C2">Chapter 2</a>
<a href="https://weebcentral.com/series/S">Series</a>
<a href="https://weebcentral.com/chapters/C1">Chapter 1</a>
</body></html>"#;

#[test]
fn chapter_links_last_first() {
    let links = chapter_links(SERIES_PAGE).unwrap().unwrap();
    assert_eq!(
        links,
        vec![
            "https://weebcentral.com/chapters/C1".to_string(),
            "https://weebcentral.com/chapters/C2".to_string(),
            "https://weebcentral.com/chapters/C3".to_string(),
        ]
    );
    assert_eq!(chapter_links("<html><a href='/x'>x</a></html>"), Some(Err(ErrorVals::ChaptersNotFound)));
}

#[test]
fn chapter_links_from_values() {
    let values = vec![
        Some("/chapters/1".to_string()),
        None,
        Some("/other".to_string()),
        Some("/chapters/2".to_string()),
    ];
    assert_eq!(
        chapter_links_from(&values),
        Ok(vec!["/chapters/2".to_string(), "/chapters/1".to_string()])
    );
    assert_eq!(chapter_links_from(&vec![None]), Err(ErrorVals::ChaptersNotFound));
}

#[test]
fn attr_values_and_refused_selector() {
    let html = r#"<img src="a.png"><img><img src="b.png">"#;
    assert_eq!(attr_values(html, "img", "src"), Some(vec!["a.png".to_string(), "b.png".to_string()]));
    assert_eq!(attr_values(html, "img[", "src"), None);
}

#[test]
fn weebcentral_pages() {
    let html = r#"<section><img src="https://i/1.png"><img alt="x"><img src="https://i/2.png"></section>"#;
    assert_eq!(
        page_links(html),
        Some(Ok(vec!["https://i/1.png".to_string(), "https://i/2.png".to_string()]))
    );
    assert_eq!(page_links("<p>no images</p>"), Some(Err(ErrorVals::PagesNotFound)));
    assert_eq!(page_links_from(&vec![None, None]), Err(ErrorVals::PagesNotFound));
    assert_eq!(page_links_from(&vec![Some("x".to_string())]), Ok(vec!["x".to_string()]));
}

#[test]
fn mangapill_pages_and_chapter_urls() {
    let html = r#"<img class="js-page" data-src="https://cdn/1.jpg"><img data-src="https://cdn/ad.jpg"><img class="js-page other" data-src="https://cdn/2.jpg">"#;
    assert_eq!(
        pill_page_links(html),
        Some(vec!["https://cdn/1.jpg".to_string(), "https://cdn/2.jpg".to_string()])
    );
    assert_eq!(
        mangapill_chapter_url("/chapters/2-10001000/one-piece-chapter-1"),
        Some("https://mangapill.com/chapters/2-10001000/one-piece-chapter-1".to_string())
    );
    assert_eq!(
        mangapill_chapter_url("https://other.org/x"),
        Some("https://other.org/x".to_string())
    );
}

#[test]
fn mangadex_addresses() {
    let d = series("mangadex.org");
    assert_eq!(mangadex_manga_url(&d), "https://api.mangadex.org/manga/SID?includes[]=cover_art");
    assert_eq!(cover_api_url("CID"), "https://api.mangadex.org/cover/CID");
    assert_eq!(home_server_url("CH"), "https://api.mangadex.org/at-home/server/CH");
}

fn rel(t: &str, id: &str) -> Relationship {
    Relationship { rel_type: t.to_string(), id: id.to_string() }
}

#[test]
fn mangadex_cover_lookup() {
    let resp = MangadexResp {
        data: MangaData {
            _id: "m".to_string(),
            relationships: vec![rel("author", "A"), rel("cover_art", "C1"), rel("cover_art", "C2")],
        },
    };
    assert_eq!(find_cover_id(&resp), Ok("C1".to_string()));
    let resp = MangadexResp { data: MangaData { _id: "m".to_string(), relationships: vec![rel("author", "A")] } };
    assert_eq!(find_cover_id(&resp), Err(ErrorVals::CoverNotFound));

    let cover = CoverResp {
        data: CoverData { attributes: CoverAttributes { filename: "abc.def.png".to_string() } },
    };
    let c = mangadex_cover(&series("mangadex.org"), &cover);
    assert_eq!(c.url, "https://uploads.mangadex.org/covers/SID/abc.def.png");
    assert_eq!(c.name, "Title_cover.png");
    assert_eq!(c.path, "lib/Title/Title_cover.png");
    let cover = CoverResp { data: CoverData { attributes: CoverAttributes { filename: "noext".to_string() } } };
    assert_eq!(mangadex_cover(&series("mangadex.org"), &cover).name, "Title_cover.noext");
}

#[test]
fn mangadex_page_urls() {
    let home = HomeResp {
        base_url: "https://up.org".to_string(),
        chapter: HomeChapter { hash: "H".to_string(), data: vec!["1.png".to_string(), "2.png".to_string()] },
    };
    assert_eq!(
        chapter_page_urls(&home),
        vec!["https://up.org/data/H/1.png".to_string(), "https://up.org/data/H/2.png".to_string()]
    );
}

#[test]
fn chapter_plans() {
    let d = series("mangadex.org");
    match plan_chapter(&d, 0, false, false) {
        ChapterStep::Create { dir } => assert_eq!(dir, "lib/Title/chapter_1"),
        _ => panic!("expected a new directory"),
    }
    assert!(matches!(plan_chapter(&d, 4, true, true), ChapterStep::Skip));
    match plan_chapter(&d, 4, true, false) {
        ChapterStep::Resume { dir } => assert_eq!(dir, "lib/Title/chapter_5"),
        _ => panic!("expected a resumed chapter"),
    }
}

#[test]
fn completion_marker_matches_check_for_absolute_library() {
    let mut d = series("mangadex.org");
    d.manga_path = "/srv/lib/Title".to_string();
    for k in [0usize, 3, 99] {
        let dir = chapter_dir(&d, k);
        assert_eq!(complete_chapter(&dir, &d, k), check_completed_marker(&dir));
    }
    let relative = series("mangadex.org");
    let dir = chapter_dir(&relative, 0);
    assert_ne!(complete_chapter(&dir, &relative, 0), check_completed_marker(&dir));
}

#[test]
fn mangadex_chapters_in_list_order() {
    let chapter = |id: &str| ChapterRes {
        id: id.to_string(),
        _attributes: ChapterAttributes { _chapter: None, _title: None },
    };
    let list = ChapterListResp { data: vec![chapter("A"), chapter("B")] };
    assert_eq!(
        chapter_home_urls(&list),
        vec![
            "https://api.mangadex.org/at-home/server/A".to_string(),
            "https://api.mangadex.org/at-home/server/B".to_string(),
        ]
    );
}

fn pages(v: &[&str]) -> Vec<String> {
    v.iter().map(|s| s.to_string()).collect()
}

#[test]
fn chapter_download_fetches_missing_pages_then_marks() {
    let d = series("mangadex.org");
    let mut dl = ChapterDownload::new(0, "/lib/T/chapter_1".to_string(), pages(&["u1", "u2"]));
    match dl.step(&d, ChapterEvent::Start) {
        ChapterAction::CheckPage { path } => assert_eq!(path, "/lib/T/chapter_1/page_001"),
        _ => panic!("expected a check of page 1"),
    }
    match dl.step(&d, ChapterEvent::PageExists(true)) {
        ChapterAction::CheckPage { path } => assert_eq!(path, "/lib/T/chapter_1/page_002"),
        _ => panic!("expected a check of page 2"),
    }
    match dl.step(&d, ChapterEvent::PageExists(false)) {
        ChapterAction::FetchPage { url, path, fetch } => {
            assert_eq!(url, "u2");
            assert_eq!(path, "/lib/T/chapter_1/page_002");
            assert_eq!(fetch, FetchStyle::WithUserAgent);
        }
        _ => panic!("expected a fetch of page 2"),
    }
    match dl.step(&d, ChapterEvent::PageStored) {
        ChapterAction::WriteMarker { path } => assert_eq!(path, "/lib/T/chapter_1/.completed"),
        _ => panic!("expected the marker"),
    }
    assert!(matches!(dl.step(&d, ChapterEvent::MarkerWritten), ChapterAction::Finished));
}

#[test]
fn chapter_download_stops_on_failure_and_skips_unrequested_pages() {
    let d = series("mangadex.org");
    let mut dl = ChapterDownload::new(0, "c".to_string(), pages(&["u1"]));
    dl.step(&d, ChapterEvent::Start);
    dl.step(&d, ChapterEvent::PageExists(false));
    match dl.step(&d, ChapterEvent::Failed(ErrorVals::HttpError("down".to_string()))) {
        ChapterAction::Abort(e) => assert_eq!(e, ErrorVals::HttpError("down".to_string())),
        _ => panic!("expected the chapter to stop"),
    }

    let pill = series("mangapill.com");
    let mut dl = ChapterDownload::new(2, "c".to_string(), pages(&["u1"]));
    dl.step(&pill, ChapterEvent::Start);
    match dl.step(&pill, ChapterEvent::PageExists(false)) {
        ChapterAction::WriteMarker { path } => assert_eq!(path, "lib/Title/c/.completed"),
        _ => panic!("expected the marker"),
    }

    let mut empty = ChapterDownload::new(0, "c".to_string(), Vec::new());
    assert!(matches!(empty.step(&d, ChapterEvent::Start), ChapterAction::WriteMarker { .. }));
}
