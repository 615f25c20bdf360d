//! The chapters and page images of a MangaPill series.
use vstd::prelude::*;
use crate::html::{present, selected_attrs, strings_view};

verus! {

/// What `url::Url::join` makes of `input` on the base URL `base` (parsed
/// with `url::Url::parse`), serialized; `None` when the crate refuses
/// either.
pub uninterp spec fn joined_url(base: Seq<char>, input: Seq<char>) -> Option<Seq<char>>;

/// Parses `base` with `url::Url::parse`, joins `input` onto it with
/// `Url::join` and serializes the result.
///
/// Trusted: the result is `joined_url(base, input)`. How a link resolves
/// against a base is left to the crate and not stated.
#[verifier::external_body]
fn url_join(base: &str, input: &str) -> (r: Option<String>)
    ensures
        match r {
            None => joined_url(base@, input@) is None,
            Some(s) => joined_url(base@, input@) == Some(s@),
        },
{
    url::Url::parse(base).ok()?.join(input).ok().map(|u| u.to_string())
}

/// The full address of a chapter link, resolved against
/// `https://mangapill.com`; `None` where the link cannot be resolved.
pub fn mangapill_chapter_url(chapter_link: &str) -> (r: Option<String>)
    ensures
        match r {
            None => joined_url("https://mangapill.com"@, chapter_link@) is None,
            Some(s) => joined_url("https://mangapill.com"@, chapter_link@) == Some(s@),
        },
{
    url_join("https://mangapill.com", chapter_link)
}

/// The page images of a chapter page: the `data-src` of each `img` element
/// of class `js-page` that has one, in the order that `Html::select`
/// yields them. `None` when the selector is
/// refused.
pub fn page_links(html: &str) -> (r: Option<Vec<String>>)
    ensures
        match r {
            None => selected_attrs(html@, "img.js-page"@, "data-src"@) is None,
            Some(v) => selected_attrs(html@, "img.js-page"@, "data-src"@) matches Some(s)
                && strings_view(v@) == present(s),
        },
{
    crate::html::attr_values(html, "img.js-page", "data-src")
}

} // verus!
