use vstd::prelude::*;
use crate::guide::Guide;
use crate::route::Route;
use crate::text::same_text;

verus! {

/// What the browser shows: a guide, or the not-found page.
#[derive(Clone, Copy, Debug, PartialEq, Eq)]
pub enum Page {
    /// `show_intro` holds when the guide was reached through the root
    /// route rather than by its own slug.
    Guide { guide: Guide, show_intro: bool },
    NotFound,
}

/// `i` is the position of the first guide whose slug is `slug`.
pub open spec fn first_with_slug(guides: Seq<Guide>, slug: Seq<char>, i: int) -> bool {
    &&& 0 <= i < guides.len()
    &&& guides[i].slug@ == slug
    &&& forall|j: int| 0 <= j < i ==> guides[j].slug@ != slug
}

/// The page that a route selects in a catalog.
pub open spec fn page_for(route: Route, guides: Seq<Guide>) -> Page {
    match route {
        Route::Root => if guides.len() > 0 {
            Page::Guide { guide: guides[0], show_intro: true }
        } else {
            Page::NotFound
        },
        Route::Guide(slug) => if exists|i: int| first_with_slug(guides, slug@, i) {
            let i = choose|i: int| first_with_slug(guides, slug@, i);
            Page::Guide { guide: guides[i], show_intro: false }
        } else {
            Page::NotFound
        },
        Route::Unknown => Page::NotFound,
    }
}

/// Canonical URL of a page.
pub open spec fn page_href(page: Page) -> Seq<char> {
    match page {
        Page::Guide { guide, .. } => "/guide/"@ + guide.slug@,
        Page::NotFound => "/404"@,
    }
}

/// Document title of a page.
pub open spec fn page_title(page: Page) -> Seq<char> {
    match page {
        Page::Guide { guide, .. } => guide.menu_title@ + " - Seed"@,
        Page::NotFound => "404 - Seed"@,
    }
}

impl Page {
    /// Canonical URL of the page.
    pub fn to_href(self) -> (r: String)
        ensures
            r@ == page_href(self),
    {
        match self {
            Page::Guide { guide, .. } => String::from_str("/guide/").concat(guide.slug),
            Page::NotFound => String::from_str("/404"),
        }
    }

    /// Selects the page for a route. The root route takes the first guide
    /// and shows the introduction; a guide route takes the first guide with
    /// that exact slug; anything else is not found. Rewriting the address
    /// bar to the selected page's URL is left to the caller.
    pub fn from_route_and_replace_history(route: &Route, guides: &[Guide]) -> (r: Page)
        ensures
            r == page_for(*route, guides@),
    {
        match route {
            Route::Root => {
                if guides.len() > 0 {
                    Page::Guide { guide: guides[0], show_intro: true }
                } else {
                    Page::NotFound
                }
            },
            Route::Guide(slug) => {
                let mut i: usize = 0;
                while i < guides.len()
                    invariant
                        *route == Route::Guide(*slug),
                        i <= guides@.len(),
                        forall|j: int| 0 <= j < i ==> guides@[j].slug@ != slug@,
                    decreases guides@.len() - i,
                {
                    if same_text(guides[i].slug, slug.as_str()) {
                        assert(first_with_slug(guides@, slug@, i as int));
                        assert forall|k: int| first_with_slug(guides@, slug@, k) implies k == i by {
                            if k < i {
                            } else if k > i {
                                assert(guides@[i as int].slug@ == slug@);
                            }
                        }
                        let ghost k = choose|k: int| first_with_slug(guides@, slug@, k);
                        assert(k == i);
                        return Page::Guide { guide: guides[i], show_intro: false };
                    }
                    i = i + 1;
                }
                Page::NotFound
            },
            Route::Unknown => Page::NotFound,
        }
    }

    /// Document title of the page: `<menu title> - Seed`, or `404 - Seed`.
    pub fn title(&self) -> (r: String)
        ensures
            r@ == page_title(*self),
    {
        match self {
            Page::Guide { guide, .. } => String::from_str(guide.menu_title).concat(" - Seed"),
            Page::NotFound => String::from_str("404 - Seed"),
        }
    }
}

} // verus!
