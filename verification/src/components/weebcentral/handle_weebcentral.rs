//! The page images of a WeebCentral chapter.
use vstd::prelude::*;
use crate::errors::ErrorVals;
use crate::html::{opt_strings_view, present, present_values, selected_attrs, strings_view};

verus! {

/// The present `src` values of a chapter's images, in the order given; a chapter
/// without any is `PagesNotFound`.
pub fn page_links_from(srcs: &Vec<Option<String>>) -> (r: Result<Vec<String>, ErrorVals>)
    ensures
        match r {
            Ok(v) => v.len() > 0 && strings_view(v@) == present(opt_strings_view(srcs@)),
            Err(e) => e == ErrorVals::PagesNotFound && present(opt_strings_view(srcs@)).len() == 0,
        },
{
    let links = present_values(srcs);
    assert(strings_view(links@).len() == links@.len());
    if links.len() == 0 {
        Err(ErrorVals::PagesNotFound)
    } else {
        Ok(links)
    }
}

/// The page images of a chapter page: the `src` of each `img` element, as
/// `page_links_from` reads them. `None` when the selector is refused.
pub fn page_links(html: &str) -> (r: Option<Result<Vec<String>, ErrorVals>>)
    ensures
        match r {
            None => selected_attrs(html@, "img"@, "src"@) is None,
            Some(res) => selected_attrs(html@, "img"@, "src"@) matches Some(s) && match res {
                Ok(v) => v.len() > 0 && strings_view(v@) == present(s),
                Err(e) => e == ErrorVals::PagesNotFound && present(s).len() == 0,
            },
        },
{
    match crate::html::attr_values(html, "img", "src") {
        None => None,
        Some(links) => {
            assert(strings_view(links@).len() == links@.len());
            if links.len() == 0 {
                Some(Err(ErrorVals::PagesNotFound))
            } else {
                Some(Ok(links))
            }
        },
    }
}

} // verus!
