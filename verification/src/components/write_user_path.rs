//! The library directory that the user chose, and where it is remembered.
use vstd::prelude::*;
use crate::errors::ErrorVals;
use crate::scraped_data::ScrapedData;

verus! {

/// The file that remembers the library directory between runs.
pub const SAVE_FILE: &'static str = "./path_save.txt";

/// Checks the library directory of `data`, given whether it exists: a
/// missing one is `InvalidPath`; otherwise the result is the text to store
/// in `SAVE_FILE`, the directory itself.
pub fn check_input_path(data: &ScrapedData, path_exists: bool) -> (r: Result<String, ErrorVals>)
    ensures
        match r {
            Ok(saved) => path_exists && saved@ == data.user_path@,
            Err(e) => !path_exists && e == ErrorVals::InvalidPath,
        },
{
    if !path_exists {
        return Err(ErrorVals::InvalidPath);
    }
    Ok(data.user_path.clone())
}

} // verus!
