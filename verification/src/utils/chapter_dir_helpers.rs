//! Where chapters are stored, and how a finished chapter is marked.
use vstd::prelude::*;
use crate::path::{join_path, join_spec, lemma_join_injective, lemma_join_relative};
use crate::scraped_data::ScrapedData;
use crate::text::{decimal, decimal_string, digits_value, lemma_decimal};

verus! {

/// The name of the file whose presence marks a chapter directory as done.
pub const COMPLETED_CHAPTER: &'static str = ".completed";

/// The directory name of the chapter at (zero-based) position `chap_num`:
/// chapters are numbered from one.
pub open spec fn chapter_dir_name(chap_num: nat) -> Seq<char> {
    "chapter_"@ + decimal(chap_num + 1)
}

/// The directory of the chapter at position `chap_num` in the series
/// directory `manga_path`.
pub open spec fn chapter_dir_spec(manga_path: Seq<char>, chap_num: nat) -> Seq<char> {
    join_spec(manga_path, chapter_dir_name(chap_num))
}

/// The directory of the chapter at position `chap_num`.
pub fn chapter_dir(data: &ScrapedData, chap_num: usize) -> (r: String)
    requires
        chap_num < usize::MAX,
    ensures
        r@ == chapter_dir_spec(data.manga_path@, chap_num as nat),
        r@ == join_spec(data.manga_path@, "chapter_"@ + decimal(chap_num as nat + 1)),
{
    let mut name = "chapter_".to_owned();
    let number = decimal_string(chap_num as u64 + 1);
    name.append(number.as_str());
    join_path(data.manga_path.as_str(), name.as_str())
}

/// The directory to make for the chapter at position `chap_num`: its
/// directory when that does not exist yet, and none when it does.
pub fn write_chap_dir(data: &ScrapedData, chap_num: usize, dir_exists: bool) -> (r: Option<String>)
    requires
        chap_num < usize::MAX,
    ensures
        match r {
            Some(dir) => !dir_exists && dir@ == chapter_dir_spec(data.manga_path@, chap_num as nat),
            None => dir_exists,
        },
{
    if dir_exists {
        None
    } else {
        Some(chapter_dir(data, chap_num))
    }
}

/// How to start on a chapter.
pub enum ChapterStep {
    /// Its directory is missing: make `dir` and download the chapter.
    Create { dir: String },
    /// Its directory holds the completion marker: nothing to do.
    Skip,
    /// Its directory exists without the marker: download into `dir` again.
    Resume { dir: String },
}

/// How to start on the chapter at position `chap_num`, given whether its
/// directory exists and whether that directory holds the completion
/// marker (see `check_completed_marker`).
pub fn plan_chapter(data: &ScrapedData, chap_num: usize, dir_exists: bool, marker_exists: bool) -> (r:
    ChapterStep)
    requires
        chap_num < usize::MAX,
    ensures
        match r {
            ChapterStep::Create { dir } => !dir_exists && dir@ == chapter_dir_spec(
                data.manga_path@,
                chap_num as nat,
            ),
            ChapterStep::Skip => dir_exists && marker_exists,
            ChapterStep::Resume { dir } => dir_exists && !marker_exists && dir@ == chapter_dir_spec(
                data.manga_path@,
                chap_num as nat,
            ),
        },
{
    match write_chap_dir(data, chap_num, dir_exists) {
        Some(dir) => ChapterStep::Create { dir },
        None => {
            if marker_exists {
                ChapterStep::Skip
            } else {
                ChapterStep::Resume { dir: chapter_dir(data, chap_num) }
            }
        },
    }
}

/// The path of the completion marker inside `chap_dir`: the chapter counts
/// as done exactly when this path exists.
pub fn check_completed_marker(chap_dir: &str) -> (r: String)
    ensures
        r@ == join_spec(chap_dir@, COMPLETED_CHAPTER@),
{
    join_path(chap_dir, COMPLETED_CHAPTER)
}

/// The path of the completion marker written when the chapter in
/// `chap_dir` is done. It is `chap_dir` joined onto the series directory,
/// then the marker name: for a relative `chap_dir` that already starts with
/// the series directory, the series directory appears twice.
pub fn complete_chapter(chap_dir: &str, data: &ScrapedData, chap_num: usize) -> (r: String)
    ensures
        r@ == join_spec(join_spec(data.manga_path@, chap_dir@), COMPLETED_CHAPTER@),
{
    let dir = join_path(data.manga_path.as_str(), chap_dir);
    join_path(dir.as_str(), COMPLETED_CHAPTER)
}

/// When the series directory is absolute (or empty), the marker that
/// completing a chapter writes is the one that checking the chapter looks
/// for.
pub proof fn lemma_marker_written_is_checked(manga_path: Seq<char>, chap_num: nat)
    requires
        manga_path.len() == 0 || manga_path[0] == '/',
    ensures
        join_spec(join_spec(manga_path, chapter_dir_spec(manga_path, chap_num)), COMPLETED_CHAPTER@)
            == join_spec(chapter_dir_spec(manga_path, chap_num), COMPLETED_CHAPTER@),
{
    reveal_strlit("chapter_");
    let name = chapter_dir_name(chap_num);
    assert(name[0] == 'c');
    lemma_join_relative(manga_path, name);
    let dir = chapter_dir_spec(manga_path, chap_num);
    if manga_path.len() > 0 {
        assert(dir.subrange(0, manga_path.len() as int)[0] == manga_path[0]);
        assert(dir[0] == '/');
    } else {
        assert(dir =~= name);
    }
}

/// Two chapters at different positions are stored in different
/// directories.
pub proof fn lemma_chapter_dirs_distinct(manga_path: Seq<char>, i: nat, j: nat)
    requires
        i != j,
    ensures
        chapter_dir_spec(manga_path, i) != chapter_dir_spec(manga_path, j),
{
    reveal_strlit("chapter_");
    lemma_decimal(i + 1);
    lemma_decimal(j + 1);
    let a = chapter_dir_name(i);
    let b = chapter_dir_name(j);
    if a == b {
        assert(a.subrange(8, a.len() as int) =~= decimal(i + 1));
        assert(b.subrange(8, b.len() as int) =~= decimal(j + 1));
        assert(digits_value(decimal(i + 1)) == digits_value(decimal(j + 1)));
    }
    assert(a[0] == 'c');
    assert(b[0] == 'c');
    lemma_join_injective(manga_path, a, b);
}

} // verus!
