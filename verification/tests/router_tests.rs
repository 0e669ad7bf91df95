use portfolio::router::Route;

#[test]
fn known_paths_resolve_to_their_pages() {
    assert_eq!(Route::resolve("/"), Route::Home);
    assert_eq!(Route::resolve("/projects"), Route::Projects);
    assert_eq!(Route::resolve("/about"), Route::About);
    assert_eq!(Route::resolve("/doom-projects"), Route::DoomProjects);
    assert_eq!(Route::resolve("/contact"), Route::Contact);
}

#[test]
fn unknown_paths_resolve_to_not_found() {
    assert_eq!(Route::resolve(""), Route::NotFound);
    assert_eq!(Route::resolve("/404"), Route::NotFound);
    assert_eq!(Route::resolve("/avatar"), Route::NotFound);
    assert_eq!(Route::resolve("/projects/"), Route::NotFound);
    assert_eq!(Route::resolve("/Projects"), Route::NotFound);
    assert_eq!(Route::resolve("projects"), Route::NotFound);
    assert_eq!(Route::resolve("/doom-projects/1"), Route::NotFound);
    assert_eq!(Route::resolve("/contact "), Route::NotFound);
}

#[test]
fn canonical_paths_round_trip() {
    for route in [
        Route::Home,
        Route::Projects,
        Route::About,
        Route::DoomProjects,
        Route::Contact,
        Route::NotFound,
    ] {
        assert_eq!(Route::resolve(route.path()), route);
    }
}

#[test]
fn canonical_paths_are_the_documented_ones() {
    assert_eq!(Route::Home.path(), "/");
    assert_eq!(Route::Projects.path(), "/projects");
    assert_eq!(Route::About.path(), "/about");
    assert_eq!(Route::DoomProjects.path(), "/doom-projects");
    assert_eq!(Route::Contact.path(), "/contact");
    assert_eq!(Route::NotFound.path(), "/404");
}
