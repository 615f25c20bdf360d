use kaiman::cli::{interpret_args, parse_chapter, Invocation};
use kaiman::components::handle_input::{
    apply_parsed_url, pre_scrape_setup, prob_link_status, prob_link_url, which_domain, UrlParts,
};
use kaiman::components::handle_library::{library_dir, setup_library};
use kaiman::components::handle_scraping::which_scraper;
use kaiman::components::write_user_path::{check_input_path, SAVE_FILE};
use kaiman::scraped_data::site_of;
use kaiman::{ErrorVals, ScrapedData, Site};

fn data_with_url(url: &str) -> ScrapedData {
    let mut d = ScrapedData::default();
    d.input_url = url.to_string();
    d
}

fn strings(v: &[&str]) -> Vec<String> {
    v.iter().map(|s| s.to_string()).collect()
}

#[test]
fn default_data_is_empty() {
    let d = ScrapedData::default();
    assert_eq!(d.website, "");
    assert_eq!(d.title, "");
    assert_eq!(d.series_id, "");
    assert_eq!(d.input_url, "");
    assert_eq!(d.user_path, "");
    assert_eq!(d.manga_path, "");
    assert_eq!(d._current_chap, 0);
    assert_eq!(d.given_chap, 0);
}

#[test]
fn site_of_knows_three_sites() {
    assert_eq!(site_of("weebcentral.com"), Some(Site::WeebCentral));
    assert_eq!(site_of("mangadex.org"), Some(Site::MangaDex));
    assert_eq!(site_of("mangapill.com"), Some(Site::MangaPill));
    assert_eq!(site_of("www.mangadex.org"), None);
    assert_eq!(site_of(""), None);
}

#[test]
fn pre_scrape_setup_reads_mangadex_url() {
    let mut d = data_with_url("https://mangadex.org/title/a1b2-c3/one-piece");
    assert_eq!(pre_scrape_setup(&mut d), Ok(()));
    assert_eq!(d.website, "mangadex.org");
    assert_eq!(d.series_id, "a1b2-c3");
    assert_eq!(d.title, "one-piece");
}

#[test]
fn pre_scrape_setup_reads_weebcentral_and_mangapill_urls() {
    let mut d = data_with_url("https://weebcentral.com/series/01J76XY/Solo-Leveling");
    assert_eq!(pre_scrape_setup(&mut d), Ok(()));
    assert_eq!(d.website, "weebcentral.com");
    assert_eq!(d.series_id, "01J76XY");
    assert_eq!(d.title, "Solo-Leveling");

    let mut d = data_with_url("https://mangapill.com/manga/2/one-piece");
    assert_eq!(pre_scrape_setup(&mut d), Ok(()));
    assert_eq!(d.website, "mangapill.com");
    assert_eq!(d.series_id, "2");
    assert_eq!(d.title, "one-piece");
}

#[test]
fn pre_scrape_setup_keeps_series_when_path_does_not_match() {
    let mut d = data_with_url("https://mangadex.org/series/a/b");
    assert_eq!(pre_scrape_setup(&mut d), Ok(()));
    assert_eq!(d.website, "mangadex.org");
    assert_eq!(d.series_id, "");
    assert_eq!(d.title, "");

    let mut d = data_with_url("https://mangadex.org/title/a/b/");
    assert_eq!(pre_scrape_setup(&mut d), Ok(()));
    assert_eq!(d.series_id, "");
}

#[test]
fn pre_scrape_setup_errors() {
    let mut d = data_with_url("not a url");
    assert_eq!(pre_scrape_setup(&mut d), Err(ErrorVals::NoURL));
    assert_eq!(d.website, "");

    let mut d = data_with_url("https://127.0.0.1/title/a/b");
    assert_eq!(pre_scrape_setup(&mut d), Err(ErrorVals::InvalidURL));

    let mut d = data_with_url("https://example.com/title/a/b");
    assert_eq!(pre_scrape_setup(&mut d), Err(ErrorVals::InvalidWebsite));
    assert_eq!(d.website, "example.com");
}

#[test]
fn apply_parsed_url_without_path_reads_no_segment() {
    let mut d = ScrapedData::default();
    let parts = UrlParts { domain: Some("mangadex.org".to_string()), segments: None };
    assert_eq!(apply_parsed_url(&mut d, Some(parts)), Ok(()));
    assert_eq!(d.website, "mangadex.org");
    assert_eq!(d.series_id, "");

    let mut d = ScrapedData::default();
    assert_eq!(apply_parsed_url(&mut d, None), Err(ErrorVals::NoURL));
    let parts = UrlParts { domain: None, segments: Some(strings(&["title", "a", "b"])) };
    assert_eq!(apply_parsed_url(&mut d, Some(parts)), Err(ErrorVals::InvalidURL));
}

#[test]
fn which_domain_sets_series_per_site() {
    let mut d = ScrapedData::default();
    d.website = "weebcentral.com".to_string();
    assert_eq!(which_domain(&mut d, &strings(&["series", "ID", "Title"])), Ok(()));
    assert_eq!((d.series_id.as_str(), d.title.as_str()), ("ID", "Title"));

    let mut d = ScrapedData::default();
    d.website = "weebcentral.com".to_string();
    assert_eq!(which_domain(&mut d, &strings(&["title", "ID", "Title"])), Ok(()));
    assert_eq!(d.series_id, "");

    let mut d = ScrapedData::default();
    d.website = "mangapill.com".to_string();
    assert_eq!(which_domain(&mut d, &strings(&["manga", "ID"])), Ok(()));
    assert_eq!(d.series_id, "");

    let mut d = ScrapedData::default();
    d.website = "other.org".to_string();
    assert_eq!(which_domain(&mut d, &strings(&["manga", "ID", "T"])), Err(ErrorVals::InvalidWebsite));
    assert_eq!(d.series_id, "");
}

#[test]
fn prob_link_url_per_site() {
    let mut d = data_with_url("https://weebcentral.com/series/X/T");
    d.website = "weebcentral.com".to_string();
    d.series_id = "X".to_string();
    assert_eq!(prob_link_url(&d), "https://weebcentral.com/series/X/T");
    d.website = "mangadex.org".to_string();
    assert_eq!(prob_link_url(&d), "https://api.mangadex.org/manga/X");
}

#[test]
fn prob_link_status_classifies() {
    assert_eq!(prob_link_status(200), Ok(()));
    assert_eq!(prob_link_status(404), Err(ErrorVals::SeriesNotFound));
    assert_eq!(prob_link_status(500), Err(ErrorVals::SurpriseError));
    assert_eq!(prob_link_status(201), Err(ErrorVals::SurpriseError));
}

#[test]
fn setup_library_sets_series_directory() {
    let mut d = ScrapedData::default();
    d.user_path = "/home/me/manga".to_string();
    d.title = "one-piece".to_string();
    assert_eq!(library_dir(&d), "/home/me/manga/one-piece");
    assert_eq!(d.manga_path, "");
    let dir = setup_library(&mut d);
    assert_eq!(dir, "/home/me/manga/one-piece");
    assert_eq!(d.manga_path, "/home/me/manga/one-piece");
    assert_eq!(d.title, "one-piece");
}

#[test]
fn which_scraper_dispatches() {
    let mut d = ScrapedData::default();
    d.website = "mangapill.com".to_string();
    assert_eq!(which_scraper(&d), Some(Site::MangaPill));
    d.website = "example.com".to_string();
    assert_eq!(which_scraper(&d), None);
}

#[test]
fn check_input_path_requires_existing_directory() {
    let mut d = ScrapedData::default();
    d.user_path = "/lib".to_string();
    assert_eq!(check_input_path(&d, true), Ok("/lib".to_string()));
    assert_eq!(check_input_path(&d, false), Err(ErrorVals::InvalidPath));
    assert_eq!(SAVE_FILE, "./path_save.txt");
}

#[test]
fn interpret_args_cases() {
    assert_eq!(interpret_args(&strings(&["kaiman"])).err(), Some(ErrorVals::NoURL));
    assert_eq!(interpret_args(&strings(&[])).err(), Some(ErrorVals::NoURL));
    match interpret_args(&strings(&["kaiman", "https://x"])) {
        Ok(Invocation::SavedPath { input_url }) => assert_eq!(input_url, "https://x"),
        _ => panic!("expected the saved path"),
    }
    match interpret_args(&strings(&["kaiman", "/lib", "https://x", "12"])) {
        Ok(Invocation::GivenPath { user_path, input_url, chapter_arg }) => {
            assert_eq!(user_path, "/lib");
            assert_eq!(input_url, "https://x");
            assert_eq!(chapter_arg, Some("12".to_string()));
        }
        _ => panic!("expected a given path"),
    }
    match interpret_args(&strings(&["kaiman", "/lib", "https://x", ""])) {
        Ok(Invocation::GivenPath { chapter_arg, .. }) => assert_eq!(chapter_arg, None),
        _ => panic!("expected a given path"),
    }
}

#[test]
fn parse_chapter_reads_numbers() {
    assert_eq!(parse_chapter("12"), Some(12));
    assert_eq!(parse_chapter("twelve"), None);
}

#[test]
fn error_messages() {
    assert_eq!(ErrorVals::NoURL.message(), "Please add a URL from mangadex or weebcentral");
    assert_eq!(ErrorVals::InvalidWebsite.message(), "Invalid website, not a Weebcentral link");
    assert_eq!(ErrorVals::InvalidURL.message(), "Invalid URL");
    assert_eq!(ErrorVals::SeriesNotFound.message(), "Series unavailable");
    assert_eq!(ErrorVals::SurpriseError.message(), "Unexpected Error");
    assert_eq!(ErrorVals::ChaptersNotFound.message(), "No chapters found");
    assert_eq!(ErrorVals::PagesNotFound.message(), "No pages found");
    assert_eq!(ErrorVals::CoverNotFound.message(), "Cover not found");
    assert_eq!(ErrorVals::InvalidPath.message(), "Invalid path");
    assert_eq!(ErrorVals::HttpError("timeout".to_string()).message(), "HTTP Error: timeout");
    assert_eq!(ErrorVals::IoError("denied".to_string()).message(), "IO Error: denied");
}
