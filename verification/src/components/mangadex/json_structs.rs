//! The parts of MangaDex API answers that the scraper reads.
use vstd::prelude::*;

verus! {

/// The chapters of a series.
#[derive(Debug, Clone)]
pub struct ChapterListResp {
    pub data: Vec<ChapterRes>,
}

/// One chapter of a series.
#[derive(Debug, Clone)]
pub struct ChapterRes {
    pub id: String,
    pub _attributes: ChapterAttributes,
}

#[derive(Debug, Clone)]
pub struct ChapterAttributes {
    pub _chapter: Option<String>,
    pub _title: Option<String>,
}

/// Where the pages of a chapter are served from.
#[derive(Debug, Clone)]
pub struct HomeResp {
    pub base_url: String,
    pub chapter: HomeChapter,
}

/// The hash and the page file names of a chapter.
#[derive(Debug, Clone)]
pub struct HomeChapter {
    pub hash: String,
    pub data: Vec<String>,
}

/// A series.
#[derive(Debug, Clone)]
pub struct MangadexResp {
    pub data: MangaData,
}

#[derive(Debug, Clone)]
pub struct MangaData {
    pub _id: String,
    pub relationships: Vec<Relationship>,
}

/// Something a series is related to, such as its cover art.
#[derive(Debug, Clone)]
pub struct Relationship {
    pub rel_type: String,
    pub id: String,
}

/// A cover.
#[derive(Debug, Clone)]
pub struct CoverResp {
    pub data: CoverData,
}

#[derive(Debug, Clone)]
pub struct CoverData {
    pub attributes: CoverAttributes,
}

#[derive(Debug, Clone)]
pub struct CoverAttributes {
    pub filename: String,
}

} // verus!
