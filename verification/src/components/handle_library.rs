//! Where a series is kept in the library.
use vstd::prelude::*;
use crate::path::{join_path, join_spec};
use crate::scraped_data::{ScrapedData, ScrapedDataView};

verus! {

/// The directory of the series in the library: `<user_path>/<title>`.
pub fn library_dir(data: &ScrapedData) -> (dir: String)
    ensures
        dir@ == join_spec(data.user_path@, data.title@),
{
    join_path(data.user_path.as_str(), data.title.as_str())
}

/// Records the series directory, `<user_path>/<title>`, as `manga_path`
/// and returns it. The caller makes the directory (see `library_dir`)
/// first, and records it only once it exists.
pub fn setup_library(data: &mut ScrapedData) -> (dir: String)
    ensures
        dir@ == join_spec(old(data).user_path@, old(data).title@),
        final(data)@ == (ScrapedDataView { manga_path: dir@, ..old(data)@ }),
{
    let dir = library_dir(data);
    data.manga_path = dir.clone();
    dir
}

} // verus!
