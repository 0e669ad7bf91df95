use portfolio::nav::nav_item_is_active;
use portfolio::router::Route;
use portfolio::style::{
    fade_class, header_class, hud_class, main_classes, mobile_button_class, nav_button_image,
    status_colors, toggle_position, toggle_title, ButtonVariant,
};
use portfolio::viewer::{model_path, ViewerPhase};

#[test]
fn nav_button_images_follow_the_variant() {
    assert_eq!(
        nav_button_image("/static/header/HOME_SRB", ButtonVariant::Normal),
        "/static/header/HOME_SRB_W.png"
    );
    assert_eq!(
        nav_button_image("/static/header/HOME_SRB", ButtonVariant::Active),
        "/static/header/HOME_SRB_R.png"
    );
    assert_eq!(
        nav_button_image("/static/hud/button/HOME_SR", ButtonVariant::Disabled),
        "/static/hud/button/HOME_SR_G.png"
    );
}

#[test]
fn exactly_the_current_route_is_active() {
    assert!(nav_item_is_active(Route::About, Route::About));
    assert!(!nav_item_is_active(Route::Home, Route::About));
    assert!(!nav_item_is_active(Route::Contact, Route::About));
}

#[test]
fn page_container_classes_follow_the_chrome() {
    assert_eq!(main_classes(true, true), "h-screen overflow-hidden ");
    assert_eq!(main_classes(true, false), "h-screen overflow-hidden ");
    assert_eq!(
        main_classes(false, true),
        "transition-all duration-500 ease-in-out pt-20"
    );
    assert_eq!(
        main_classes(false, false),
        "transition-all duration-500 ease-in-out pb-35"
    );
}

#[test]
fn chrome_classes_slide_with_visibility() {
    assert!(header_class(true).contains("-translate-y-0"));
    assert!(header_class(false).contains("-translate-y-[120%]"));
    assert!(hud_class(true).contains("translate-y-0"));
    assert!(hud_class(false).contains("translate-y-full"));
}

#[test]
fn toggle_sits_opposite_the_active_chrome() {
    assert_eq!(toggle_position(true), "bottom-4 right-4");
    assert_eq!(toggle_position(false), "top-4 right-4");
    assert_eq!(toggle_title(true), "Switch to HUD Navbar");
    assert_eq!(toggle_title(false), "Switch to Header Navbar");
}

#[test]
fn mobile_menu_marks_the_active_entry() {
    assert!(mobile_button_class(true).contains("text-red-600"));
    assert!(mobile_button_class(false).contains("text-gray-300"));
}

#[test]
fn fade_and_status_styles() {
    assert_eq!(fade_class(true), "opacity-100");
    assert_eq!(fade_class(false), "opacity-0");
    assert_eq!(
        status_colors(true),
        ("bg-green-900/20", "text-green-400", "border-green-500")
    );
    assert_eq!(
        status_colors(false),
        ("bg-red-900/20", "text-red-400", "border-red-600")
    );
}

#[test]
fn viewer_initializes_exactly_once() {
    let mut v = ViewerPhase::new();
    assert!(v.is_loading());
    assert!(v.mount_delay_elapsed());
    assert!(v.is_loading());
    // A second, stale delay must not re-initialize the scene.
    assert!(!v.mount_delay_elapsed());
    v.engine_completed();
    assert!(!v.is_loading());
    assert!(!v.mount_delay_elapsed());
}

#[test]
fn model_path_defaults_when_empty() {
    assert_eq!(model_path(""), "/static/cathedral/cathedral.obj");
    assert_eq!(model_path("/static/models/x.obj"), "/static/models/x.obj");
}
