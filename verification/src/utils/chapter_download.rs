//! Downloading one chapter, step by step: each page is checked, fetched
//! unless it is there already, and the chapter is marked complete only once
//! every page has been dealt with. The caller performs each action and
//! reports what happened.
use vstd::prelude::*;
use crate::errors::ErrorVals;
use crate::path::join_spec;
use crate::scraped_data::ScrapedData;
use crate::utils::chapter_dir_helpers::{complete_chapter, COMPLETED_CHAPTER};
use crate::utils::image_helpers::{
    fetch_style_spec, image_downloader, page_file_name, FetchStyle,
};

verus! {

/// A chapter being downloaded: its position, its directory, the addresses
/// of its pages in order, and the position of the page at hand.
pub struct ChapterDownload {
    pub chap_num: usize,
    pub chap_dir: String,
    pub pages: Vec<String>,
    pub next: usize,
}

/// What happened since the last step.
pub enum ChapterEvent {
    /// The download begins.
    Start,
    /// Whether the file of the page at hand exists.
    PageExists(bool),
    /// The page at hand was fetched and stored.
    PageStored,
    /// The completion marker was written.
    MarkerWritten,
    /// The last action failed.
    Failed(ErrorVals),
}

/// What to do next.
pub enum ChapterAction {
    /// Find out whether `path` exists; report `PageExists`.
    CheckPage { path: String },
    /// Fetch `url` as `fetch` says and store it at `path`; report
    /// `PageStored`, or `Failed`.
    FetchPage { url: String, path: String, fetch: FetchStyle },
    /// Write the completion marker at `path`; report `MarkerWritten`, or
    /// `Failed`.
    WriteMarker { path: String },
    /// The chapter is complete.
    Finished,
    /// Stop: the scrape fails with this error.
    Abort(ErrorVals),
}

impl ChapterDownload {
    /// A download of the pages `pages` into `chap_dir`, at the first page.
    pub fn new(chap_num: usize, chap_dir: String, pages: Vec<String>) -> (r: ChapterDownload)
        ensures
            r.chap_num == chap_num,
            r.chap_dir == chap_dir,
            r.pages == pages,
            r.next == 0,
    {
        ChapterDownload { chap_num, chap_dir, pages, next: 0 }
    }

    /// The file of the page at position `n`: page `n + 1` of the chapter
    /// directory.
    pub open spec fn page_path(&self, n: int) -> Seq<char> {
        join_spec(self.chap_dir@, page_file_name((n + 1) as nat))
    }

    /// The completion marker of the chapter, for the series directory
    /// `manga_path` (see `complete_chapter`).
    pub open spec fn marker_path(&self, manga_path: Seq<char>) -> Seq<char> {
        join_spec(join_spec(manga_path, self.chap_dir@), COMPLETED_CHAPTER@)
    }

    /// `a` moves on to the page at position `n`: checks that page, or
    /// writes the marker when there is no such page.
    pub open spec fn advances_to(&self, a: ChapterAction, manga_path: Seq<char>, n: int) -> bool {
        if n < self.pages@.len() {
            a matches ChapterAction::CheckPage { path } && path@ == self.page_path(n)
        } else {
            a matches ChapterAction::WriteMarker { path } && path@ == self.marker_path(manga_path)
        }
    }

    /// The action that moves on to the page at position `n`.
    fn advance(&self, data: &ScrapedData, n: usize) -> (a: ChapterAction)
        requires
            n <= self.pages@.len(),
        ensures
            self.advances_to(a, data.manga_path@, n as int),
    {
        if n < self.pages.len() {
            let page = image_downloader(self.pages[n].as_str(), n, self.chap_dir.as_str(), data);
            ChapterAction::CheckPage { path: page.path }
        } else {
            ChapterAction::WriteMarker {
                path: complete_chapter(self.chap_dir.as_str(), data, self.chap_num),
            }
        }
    }

    /// Takes in what happened and says what to do next.
    ///
    /// Pages are dealt with in order, one at a time: a page whose file
    /// exists is skipped, one of a website whose pages are not requested is
    /// skipped, any other is fetched; the marker is written only after the
    /// last page, and any failure stops the chapter without it.
    pub fn step(&mut self, data: &ScrapedData, event: ChapterEvent) -> (a: ChapterAction)
        requires
            old(self).next <= old(self).pages@.len(),
        ensures
            final(self).chap_num == old(self).chap_num,
            final(self).chap_dir == old(self).chap_dir,
            final(self).pages == old(self).pages,
            final(self).next <= final(self).pages@.len(),
            a is WriteMarker ==> final(self).next == final(self).pages@.len(),
            a is FetchPage ==> final(self).next < final(self).pages@.len(),
            match event {
                ChapterEvent::Start => final(self).next == 0 && final(self).advances_to(
                    a,
                    data.manga_path@,
                    0,
                ),
                ChapterEvent::PageExists(true) | ChapterEvent::PageStored => if old(self).next
                    < old(self).pages@.len() {
                    final(self).next == old(self).next + 1 && final(self).advances_to(
                        a,
                        data.manga_path@,
                        old(self).next + 1,
                    )
                } else {
                    final(self).next == old(self).next && final(self).advances_to(
                        a,
                        data.manga_path@,
                        old(self).next as int,
                    )
                },
                ChapterEvent::PageExists(false) => if old(self).next < old(self).pages@.len() {
                    match fetch_style_spec(data.website@) {
                        None => final(self).next == old(self).next + 1 && final(self).advances_to(
                            a,
                            data.manga_path@,
                            old(self).next + 1,
                        ),
                        Some(style) => final(self).next == old(self).next && (a matches
                            ChapterAction::FetchPage { url, path, fetch } && url@ == old(
                            self,
                        ).pages@[old(self).next as int]@ && path@ == old(self).page_path(
                            old(self).next as int,
                        ) && fetch == style),
                    }
                } else {
                    final(self).next == old(self).next && final(self).advances_to(
                        a,
                        data.manga_path@,
                        old(self).next as int,
                    )
                },
                ChapterEvent::MarkerWritten => a is Finished && final(self).next == old(self).next,
                ChapterEvent::Failed(e) => final(self).next == old(self).next && (a matches
                    ChapterAction::Abort(x) && x == e),
            },
    {
        match event {
            ChapterEvent::Start => {
                self.next = 0;
                self.advance(data, 0)
            },
            ChapterEvent::PageExists(true) | ChapterEvent::PageStored => {
                if self.next < self.pages.len() {
                    self.next = self.next + 1;
                }
                self.advance(data, self.next)
            },
            ChapterEvent::PageExists(false) => {
                if self.next < self.pages.len() {
                    let k = self.next;
                    let page = image_downloader(self.pages[k].as_str(), k, self.chap_dir.as_str(), data);
                    match page.fetch {
                        Some(fetch) => ChapterAction::FetchPage { url: page.url, path: page.path, fetch },
                        None => {
                            self.next = k + 1;
                            self.advance(data, self.next)
                        },
                    }
                } else {
                    self.advance(data, self.next)
                }
            },
            ChapterEvent::MarkerWritten => ChapterAction::Finished,
            ChapterEvent::Failed(e) => ChapterAction::Abort(e),
        }
    }
}

} // verus!
