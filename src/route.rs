use vstd::prelude::*;
use crate::text::same_text;

verus! {

/// Logical classification of a navigation path.
#[derive(Clone, Debug, PartialEq, Eq)]
pub enum Route {
    Root,
    Guide(String),
    Unknown,
}

/// The route that a sequence of path segments denotes: no segment is the
/// root, `guide/<slug>` names a guide, anything else is unknown.
pub open spec fn route_of_parts(parts: Seq<Seq<char>>, r: Route) -> bool {
    if parts.len() == 0 {
        r is Root
    } else if parts.len() == 2 && parts[0] == "guide"@ {
        r is Guide && r->Guide_0@ == parts[1]
    } else {
        r is Unknown
    }
}

/// The views of the segments of a path.
pub open spec fn views_of(parts: Seq<&str>) -> Seq<Seq<char>> {
    parts.map_values(|p: &str| p@)
}

/// Canonical segments of a route.
pub open spec fn path_of(r: Route) -> Seq<Seq<char>> {
    match r {
        Route::Root => seq![],
        Route::Guide(slug) => seq!["guide"@, slug@],
        Route::Unknown => seq!["404"@],
    }
}

/// Canonical URL of a route.
pub open spec fn href_of(r: Route) -> Seq<char> {
    match r {
        Route::Root => "/"@,
        Route::Guide(slug) => "/guide/"@ + slug@,
        Route::Unknown => "/404"@,
    }
}

impl Route {
    /// Resolves the remaining segments of a URL path to a route.
    pub fn from_path_parts(parts: &[&str]) -> (r: Route)
        ensures
            route_of_parts(views_of(parts@), r),
    {
        if parts.len() == 0 {
            Route::Root
        } else if parts.len() == 2 && same_text(parts[0], "guide") {
            Route::Guide(parts[1].to_owned())
        } else {
            Route::Unknown
        }
    }

    /// Canonical path segments of the route.
    pub fn path(&self) -> (r: Vec<String>)
        ensures
            r@.map_values(|s: String| s@) == path_of(*self),
    {
        let mut r: Vec<String> = Vec::new();
        match self {
            Route::Root => {},
            Route::Guide(slug) => {
                r.push(String::from_str("guide"));
                r.push(slug.clone());
            },
            Route::Unknown => {
                r.push(String::from_str("404"));
            },
        }
        assert(r@.map_values(|s: String| s@) =~= path_of(*self));
        r
    }

    /// Canonical URL of the route: `/`, `/guide/<slug>` or `/404`.
    pub fn to_string(&self) -> (r: String)
        ensures
            r@ == href_of(*self),
    {
        match self {
            Route::Root => String::from_str("/"),
            Route::Guide(slug) => String::from_str("/guide/").concat(slug.as_str()),
            Route::Unknown => String::from_str("/404"),
        }
    }
}

/// Two routes that denote the same place.
pub open spec fn same_route(a: Route, b: Route) -> bool {
    match (a, b) {
        (Route::Root, Route::Root) => true,
        (Route::Guide(x), Route::Guide(y)) => x@ == y@,
        (Route::Unknown, Route::Unknown) => true,
        _ => false,
    }
}

/// Resolving the canonical path of a route gives the same route back. For
/// the unknown route this rests on its path `404` being a single segment,
/// which no guide path is.
pub proof fn lemma_path_round_trip(r: Route, back: Route)
    requires
        route_of_parts(path_of(r), back),
    ensures
        same_route(back, r),
{
    reveal_strlit("guide");
    reveal_strlit("404");
}

} // verus!
