//! Resolution of URL paths to page identifiers.

use vstd::prelude::*;
use crate::text::str_eq;

verus! {

/// The pages of the application. Exactly one is active at a time,
/// derived from the current browser path; unmatched paths resolve
/// to `NotFound`.
#[derive(Clone, Copy, PartialEq, Eq, Debug, Structural)]
pub enum Route {
    Home,
    Projects,
    About,
    DoomProjects,
    Contact,
    NotFound,
}

/// The route a given path resolves to: each known path maps to its page,
/// everything else to `NotFound`.
pub open spec fn spec_resolve(path: Seq<char>) -> Route {
    if path == "/"@ {
        Route::Home
    } else if path == "/projects"@ {
        Route::Projects
    } else if path == "/about"@ {
        Route::About
    } else if path == "/doom-projects"@ {
        Route::DoomProjects
    } else if path == "/contact"@ {
        Route::Contact
    } else {
        Route::NotFound
    }
}

/// The canonical path of each route.
pub open spec fn spec_path_of(r: Route) -> Seq<char> {
    match r {
        Route::Home => "/"@,
        Route::Projects => "/projects"@,
        Route::About => "/about"@,
        Route::DoomProjects => "/doom-projects"@,
        Route::Contact => "/contact"@,
        Route::NotFound => "/404"@,
    }
}

impl Route {
    /// Produces exactly one route for a path; unrecognized paths yield
    /// `NotFound`. Pure, with no failure mode beyond that fallback.
    pub fn resolve(path: &str) -> (r: Route)
        ensures
            r == spec_resolve(path@),
    {
        if str_eq(path, "/") {
            Route::Home
        } else if str_eq(path, "/projects") {
            Route::Projects
        } else if str_eq(path, "/about") {
            Route::About
        } else if str_eq(path, "/doom-projects") {
            Route::DoomProjects
        } else if str_eq(path, "/contact") {
            Route::Contact
        } else {
            Route::NotFound
        }
    }

    /// The canonical path of this route, the inverse of `resolve` on
    /// known pages.
    pub fn path(self) -> (p: &'static str)
        ensures
            p@ == spec_path_of(self),
    {
        match self {
            Route::Home => "/",
            Route::Projects => "/projects",
            Route::About => "/about",
            Route::DoomProjects => "/doom-projects",
            Route::Contact => "/contact",
            Route::NotFound => "/404",
        }
    }
}

/// Any path outside the fixed route set resolves to `NotFound`.
pub proof fn lemma_unknown_path_is_not_found(path: Seq<char>)
    requires
        path != "/"@,
        path != "/projects"@,
        path != "/about"@,
        path != "/doom-projects"@,
        path != "/contact"@,
    ensures
        spec_resolve(path) is NotFound,
{
}

/// Resolving a route's own canonical path yields that route back;
/// in particular the `NotFound` page's path is itself unrecognized.
pub proof fn lemma_resolve_path_round_trip(r: Route)
    ensures
        spec_resolve(spec_path_of(r)) == r,
{
    reveal_strlit("/");
    reveal_strlit("/projects");
    reveal_strlit("/about");
    reveal_strlit("/doom-projects");
    reveal_strlit("/contact");
    reveal_strlit("/404");
    assert("/"@.len() == 1);
    assert("/projects"@.len() == 9);
    assert("/about"@.len() == 6);
    assert("/doom-projects"@.len() == 14);
    assert("/contact"@.len() == 8);
    assert("/404"@.len() == 4);
}

} // verus!
