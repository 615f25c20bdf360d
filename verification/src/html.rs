//! Reading attribute values out of HTML pages.
use vstd::prelude::*;
use crate::errors::ErrorVals;
use crate::text::{contains, str_contains};

verus! {

broadcast use vstd::string::group_string_axioms;

/// The characters of each optional string.
pub open spec fn opt_strings_view(v: Seq<Option<String>>) -> Seq<Option<Seq<char>>> {
    v.map_values(
        |o: Option<String>|
            match o {
                Some(s) => Some(s@),
                None => None,
            },
    )
}

/// The characters of each string.
pub open spec fn strings_view(v: Seq<String>) -> Seq<Seq<char>> {
    v.map_values(|s: String| s@)
}

/// For each element of the HTML document `html` that the CSS selector
/// `selector` matches, in the order that `Html::select` yields them (the
/// order in which the parser inserted the nodes), the value of its attribute
/// `attr` if it has one: what the `scraper` crate finds. `None` when the
/// crate refuses the selector.
pub uninterp spec fn selected_attrs(html: Seq<char>, selector: Seq<char>, attr: Seq<char>) -> Option<
    Seq<Option<Seq<char>>>,
>;

/// Parses `html` with `scraper::Html::parse_document`, the selector with
/// `scraper::Selector::parse`, and reads `attr` of each element that
/// `Html::select` yields.
///
/// Trusted: the result is `selected_attrs(html, selector, attr)`. Which
/// elements a selector matches in a page is left to the crate and not
/// stated.
#[verifier::external_body]
fn select_attr(html: &str, selector: &str, attr: &str) -> (r: Option<Vec<Option<String>>>)
    ensures
        match r {
            None => selected_attrs(html@, selector@, attr@) is None,
            Some(v) => selected_attrs(html@, selector@, attr@) == Some(opt_strings_view(v@)),
        },
{
    let selector = scraper::Selector::parse(selector).ok()?;
    let document = scraper::Html::parse_document(html);
    Some(document.select(&selector).map(|e| e.value().attr(attr).map(|a| a.to_string())).collect())
}

/// The values that are present, in order.
pub open spec fn present(v: Seq<Option<Seq<char>>>) -> Seq<Seq<char>>
    decreases v.len(),
{
    if v.len() == 0 {
        Seq::empty()
    } else {
        let rest = present(v.drop_last());
        match v.last() {
            Some(s) => rest.push(s),
            None => rest,
        }
    }
}

/// The present values that hold `/chapters/`, in order.
pub open spec fn chapter_hrefs(v: Seq<Option<Seq<char>>>) -> Seq<Seq<char>>
    decreases v.len(),
{
    if v.len() == 0 {
        Seq::empty()
    } else {
        let rest = chapter_hrefs(v.drop_last());
        match v.last() {
            Some(s) => if contains(s, "/chapters/"@) {
                rest.push(s)
            } else {
                rest
            },
            None => rest,
        }
    }
}

/// The values that are present, in order.
pub fn present_values(values: &Vec<Option<String>>) -> (r: Vec<String>)
    ensures
        strings_view(r@) == present(opt_strings_view(values@)),
{
    let mut r: Vec<String> = Vec::new();
    let n = values.len();
    for i in 0..n
        invariant
            n == values.len(),
            strings_view(r@) == present(opt_strings_view(values@).take(i as int)),
    {
        let ghost v = opt_strings_view(values@);
        assert(v.take(i + 1).drop_last() =~= v.take(i as int));
        match &values[i] {
            Some(s) => {
                r.push(s.clone());
            },
            None => {},
        }
        assert(strings_view(r@) =~= present(v.take(i + 1)));
    }
    assert(opt_strings_view(values@).take(n as int) =~= opt_strings_view(values@));
    r
}

/// The present values that hold `/chapters/`, in order.
pub fn chapter_href_values(values: &Vec<Option<String>>) -> (r: Vec<String>)
    ensures
        strings_view(r@) == chapter_hrefs(opt_strings_view(values@)),
        strings_view(r@) == present(opt_strings_view(values@)).filter(
            |s: Seq<char>| contains(s, "/chapters/"@),
        ),
{
    let mut r: Vec<String> = Vec::new();
    let n = values.len();
    for i in 0..n
        invariant
            n == values.len(),
            strings_view(r@) == chapter_hrefs(opt_strings_view(values@).take(i as int)),
    {
        let ghost v = opt_strings_view(values@);
        assert(v.take(i + 1).drop_last() =~= v.take(i as int));
        match &values[i] {
            Some(s) => {
                if str_contains(s.as_str(), "/chapters/") {
                    r.push(s.clone());
                }
            },
            None => {},
        }
        assert(strings_view(r@) =~= chapter_hrefs(v.take(i + 1)));
    }
    assert(opt_strings_view(values@).take(n as int) =~= opt_strings_view(values@));
    proof {
        lemma_chapter_hrefs_filter(opt_strings_view(values@));
    }
    r
}

/// The values of `attr` on the elements of `html` that `selector` matches,
/// in the order that `Html::select` yields them, leaving out elements
/// without it; `None` when the
/// selector is refused.
pub fn attr_values(html: &str, selector: &str, attr: &str) -> (r: Option<Vec<String>>)
    ensures
        match r {
            None => selected_attrs(html@, selector@, attr@) is None,
            Some(v) => selected_attrs(html@, selector@, attr@) matches Some(s) && strings_view(v@)
                == present(s),
        },
{
    match select_attr(html, selector, attr) {
        None => None,
        Some(values) => Some(present_values(&values)),
    }
}

/// The same strings in the opposite order.
fn reversed(v: &Vec<String>) -> (r: Vec<String>)
    ensures
        strings_view(r@) == strings_view(v@).reverse(),
{
    let mut r: Vec<String> = Vec::new();
    let n = v.len();
    let mut i: usize = n;
    while i > 0
        invariant
            n == v.len(),
            i <= n,
            strings_view(r@) == strings_view(v@).subrange(i as int, n as int).reverse(),
        decreases i,
    {
        let ghost w = strings_view(v@);
        assert(w.subrange(i - 1, n as int).reverse() =~= w.subrange(i as int, n as int).reverse().push(
            w[i - 1],
        ));
        r.push(v[i - 1].clone());
        i = i - 1;
        assert(strings_view(r@) =~= w.subrange(i as int, n as int).reverse());
    }
    assert(strings_view(v@).subrange(0, n as int) =~= strings_view(v@));
    r
}

/// The chapter links among the `href` values of a series page, in the order
/// they are scraped: the last of them is the first chapter. A page without
/// chapter links is `ChaptersNotFound`.
pub fn chapter_links_from(hrefs: &Vec<Option<String>>) -> (r: Result<Vec<String>, ErrorVals>)
    ensures
        match r {
            Ok(v) => v.len() > 0 && strings_view(v@) == chapter_hrefs(
                opt_strings_view(hrefs@),
            ).reverse() && strings_view(v@) == present(opt_strings_view(hrefs@)).filter(
                |s: Seq<char>| contains(s, "/chapters/"@),
            ).reverse(),
            Err(e) => e == ErrorVals::ChaptersNotFound && chapter_hrefs(
                opt_strings_view(hrefs@),
            ).len() == 0 && present(opt_strings_view(hrefs@)).filter(
                |s: Seq<char>| contains(s, "/chapters/"@),
            ).len() == 0,
        },
{
    let links = chapter_href_values(hrefs);
    if links.len() == 0 {
        return Err(ErrorVals::ChaptersNotFound);
    }
    let r = reversed(&links);
    assert(strings_view(r@).len() == r@.len());
    assert(strings_view(links@).len() == links@.len());
    Ok(r)
}

/// The chapter links of a series page: the `href` of each `a` element, as
/// `chapter_links_from` reads them. `None` when the selector is refused.
pub fn chapter_links(html: &str) -> (r: Option<Result<Vec<String>, ErrorVals>>)
    ensures
        match r {
            None => selected_attrs(html@, "a"@, "href"@) is None,
            Some(res) => selected_attrs(html@, "a"@, "href"@) matches Some(s) && match res {
                Ok(v) => v.len() > 0 && strings_view(v@) == chapter_hrefs(s).reverse()
                    && strings_view(v@) == present(s).filter(
                    |t: Seq<char>| contains(t, "/chapters/"@),
                ).reverse(),
                Err(e) => e == ErrorVals::ChaptersNotFound && chapter_hrefs(s).len() == 0
                    && present(s).filter(|t: Seq<char>| contains(t, "/chapters/"@)).len() == 0,
            },
        },
{
    match select_attr(html, "a", "href") {
        None => None,
        Some(hrefs) => {
            proof {
                lemma_chapter_hrefs_filter(opt_strings_view(hrefs@));
            }
            Some(chapter_links_from(&hrefs))
        },
    }
}

/// The present values are what remains of the optional values once the
/// absent ones are dropped, in order.
pub proof fn lemma_present_filter_map(v: Seq<Option<Seq<char>>>)
    ensures
        present(v) == v.filter_map(|o: Option<Seq<char>>| o),
    decreases v.len(),
{
    if v.len() > 0 {
        lemma_present_filter_map(v.drop_last());
        match v.last() {
            Some(s) => {
                assert(present(v.drop_last()).push(s) =~= present(v.drop_last()) + seq![s]);
            },
            None => {},
        }
    }
}

/// The chapter links are exactly the present values that hold
/// `/chapters/`, in their order, none left out.
pub proof fn lemma_chapter_hrefs_filter(v: Seq<Option<Seq<char>>>)
    ensures
        chapter_hrefs(v) == present(v).filter(|s: Seq<char>| contains(s, "/chapters/"@)),
    decreases v.len(),
{
    let pred = |s: Seq<char>| contains(s, "/chapters/"@);
    if v.len() > 0 {
        lemma_chapter_hrefs_filter(v.drop_last());
        let p = present(v.drop_last());
        match v.last() {
            Some(s) => {
                assert(present(v) == p.push(s));
                p.lemma_filter_push(s, pred);
            },
            None => {},
        }
    } else {
        reveal(Seq::filter);
        assert(present(v) =~= Seq::<Seq<char>>::empty());
    }
}

/// Every chapter link holds `/chapters/`, and each comes from a present
/// value.
pub proof fn lemma_chapter_hrefs(v: Seq<Option<Seq<char>>>)
    ensures
        chapter_hrefs(v).len() <= v.len(),
        forall|i: int|
            0 <= i < chapter_hrefs(v).len() ==> contains(#[trigger] chapter_hrefs(v)[i], "/chapters/"@),
        forall|i: int|
            0 <= i < chapter_hrefs(v).len() ==> present(v).contains(#[trigger] chapter_hrefs(v)[i]),
    decreases v.len(),
{
    if v.len() > 0 {
        lemma_chapter_hrefs(v.drop_last());
        let rest = chapter_hrefs(v.drop_last());
        let p = present(v.drop_last());
        assert forall|i: int| 0 <= i < chapter_hrefs(v).len() implies present(v).contains(
            #[trigger] chapter_hrefs(v)[i],
        ) by {
            if i < rest.len() {
                assert(p.contains(rest[i]));
                let k = choose|k: int| 0 <= k < p.len() && p[k] == rest[i];
                assert(present(v)[k] == rest[i]);
            } else {
                assert(present(v)[present(v).len() - 1] == chapter_hrefs(v)[i]);
            }
        }
    }
}

} // verus!
