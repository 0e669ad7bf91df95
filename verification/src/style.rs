//! Pure mappings from component state to style descriptors, so the
//! class strings the markup uses are decided in one testable place.

use vstd::prelude::*;
use vstd::string::StringExecFns;

verus! {

/// The visual state of a navigation button: at rest, marked active for
/// the current route, or disabled.
#[derive(Clone, Copy, PartialEq, Eq, Debug, Structural)]
pub enum ButtonVariant {
    Normal,
    Active,
    Disabled,
}

/// The image-file suffix of a navigation button variant: white at
/// rest, red when active, gray when disabled.
pub open spec fn spec_button_suffix(v: ButtonVariant) -> Seq<char> {
    match v {
        ButtonVariant::Normal => "_W.png"@,
        ButtonVariant::Active => "_R.png"@,
        ButtonVariant::Disabled => "_G.png"@,
    }
}

/// The image path of a navigation button: its base path plus the
/// variant's suffix.
pub fn nav_button_image(base: &str, v: ButtonVariant) -> (s: String)
    ensures
        s@ == base@ + spec_button_suffix(v),
{
    let mut s = base.to_owned();
    match v {
        ButtonVariant::Normal => s.append("_W.png"),
        ButtonVariant::Active => s.append("_R.png"),
        ButtonVariant::Disabled => s.append("_G.png"),
    }
    s
}

/// The classes of the page container: the home page fills the screen,
/// every other page animates its padding to make room for whichever
/// chrome is active.
pub open spec fn spec_main_classes(is_home: bool, use_default_navbar: bool) -> Seq<char> {
    if is_home {
        "h-screen overflow-hidden "@
    } else if use_default_navbar {
        "transition-all duration-500 ease-in-out "@ + "pt-20"@
    } else {
        "transition-all duration-500 ease-in-out "@ + "pb-35"@
    }
}

/// Composes the page-container classes, as `spec_main_classes`
/// describes.
pub fn main_classes(is_home: bool, use_default_navbar: bool) -> (s: String)
    ensures
        s@ == spec_main_classes(is_home, use_default_navbar),
{
    if is_home {
        "h-screen overflow-hidden ".to_owned()
    } else {
        let mut s = "transition-all duration-500 ease-in-out ".to_owned();
        if use_default_navbar {
            s.append("pt-20");
        } else {
            s.append("pb-35");
        }
        s
    }
}

/// The header bar's container classes: slid into place when visible,
/// held above the viewport otherwise, always with the same transition.
pub open spec fn spec_header_class(visible: bool) -> Seq<char> {
    if visible {
        "fixed top-0 left-0 right-0 w-full z-40 transform -translate-y-0 transition-transform duration-500 ease-out overflow-visible block sm:block"@
    } else {
        "fixed top-0 left-0 right-0 w-full z-40 transform -translate-y-[120%] transition-transform duration-500 ease-out overflow-visible block sm:block"@
    }
}

/// Selects the header bar's container classes, as `spec_header_class`
/// describes.
pub fn header_class(visible: bool) -> (s: &'static str)
    ensures
        s@ == spec_header_class(visible),
{
    if visible {
        "fixed top-0 left-0 right-0 w-full z-40 transform -translate-y-0 transition-transform duration-500 ease-out overflow-visible block sm:block"
    } else {
        "fixed top-0 left-0 right-0 w-full z-40 transform -translate-y-[120%] transition-transform duration-500 ease-out overflow-visible block sm:block"
    }
}

/// The HUD bar's container classes: slid into place when visible, held
/// below the viewport otherwise.
pub open spec fn spec_hud_class(visible: bool) -> Seq<char> {
    if visible {
        "fixed bottom-0 left-0 right-0 w-full z-40 transform translate-y-0 transition-transform duration-500 ease-out hidden sm:block"@
    } else {
        "fixed bottom-0 left-0 right-0 w-full z-40 transform translate-y-full transition-transform duration-500 ease-out hidden sm:block"@
    }
}

/// Selects the HUD bar's container classes, as `spec_hud_class`
/// describes.
pub fn hud_class(visible: bool) -> (s: &'static str)
    ensures
        s@ == spec_hud_class(visible),
{
    if visible {
        "fixed bottom-0 left-0 right-0 w-full z-40 transform translate-y-0 transition-transform duration-500 ease-out hidden sm:block"
    } else {
        "fixed bottom-0 left-0 right-0 w-full z-40 transform translate-y-full transition-transform duration-500 ease-out hidden sm:block"
    }
}

/// Where the navbar toggle sits: opposite whichever chrome is active,
/// so it never covers it.
pub open spec fn spec_toggle_position(use_default_navbar: bool) -> Seq<char> {
    if use_default_navbar {
        "bottom-4 right-4"@
    } else {
        "top-4 right-4"@
    }
}

/// Selects the toggle's position classes, as `spec_toggle_position`
/// describes.
pub fn toggle_position(use_default_navbar: bool) -> (s: &'static str)
    ensures
        s@ == spec_toggle_position(use_default_navbar),
{
    if use_default_navbar {
        "bottom-4 right-4"
    } else {
        "top-4 right-4"
    }
}

/// The toggle's tooltip names the style a click switches to.
pub open spec fn spec_toggle_title(use_default_navbar: bool) -> Seq<char> {
    if use_default_navbar {
        "Switch to HUD Navbar"@
    } else {
        "Switch to Header Navbar"@
    }
}

/// Selects the toggle's tooltip, as `spec_toggle_title` describes.
pub fn toggle_title(use_default_navbar: bool) -> (s: &'static str)
    ensures
        s@ == spec_toggle_title(use_default_navbar),
{
    if use_default_navbar {
        "Switch to HUD Navbar"
    } else {
        "Switch to Header Navbar"
    }
}

/// A mobile-menu entry's classes: red on dark when it is the active
/// route, gray with hover effects otherwise.
pub open spec fn spec_mobile_button_class(active: bool) -> Seq<char> {
    if active {
        "text-center text-red-600 font-medium transition-colors duration-200 px-3 py-2 rounded-md bg-[#2b2b2b]/60 cursor-pointer"@
    } else {
        "text-center text-gray-300 hover:text-red-600 font-medium transition-colors duration-200 px-3 py-2 rounded-md hover:bg-[#2b2b2b]/40 cursor-pointer"@
    }
}

/// Selects a mobile-menu entry's classes, as `spec_mobile_button_class`
/// describes.
pub fn mobile_button_class(active: bool) -> (s: &'static str)
    ensures
        s@ == spec_mobile_button_class(active),
{
    if active {
        "text-center text-red-600 font-medium transition-colors duration-200 px-3 py-2 rounded-md bg-[#2b2b2b]/60 cursor-pointer"
    } else {
        "text-center text-gray-300 hover:text-red-600 font-medium transition-colors duration-200 px-3 py-2 rounded-md hover:bg-[#2b2b2b]/40 cursor-pointer"
    }
}

/// A page's fade-in: transparent until the mount delay, opaque after.
pub open spec fn spec_fade_class(visible: bool) -> Seq<char> {
    if visible {
        "opacity-100"@
    } else {
        "opacity-0"@
    }
}

/// Selects the fade-wrapper opacity class, as `spec_fade_class`
/// describes.
pub fn fade_class(visible: bool) -> (s: &'static str)
    ensures
        s@ == spec_fade_class(visible),
{
    if visible {
        "opacity-100"
    } else {
        "opacity-0"
    }
}

/// The colour triple (background, text, border) of the inline status
/// box: green for a successful submission, red otherwise.
pub fn status_colors(success: bool) -> (c: (&'static str, &'static str, &'static str))
    ensures
        success ==> c == ("bg-green-900/20", "text-green-400", "border-green-500"),
        !success ==> c == ("bg-red-900/20", "text-red-400", "border-red-600"),
{
    if success {
        ("bg-green-900/20", "text-green-400", "border-green-500")
    } else {
        ("bg-red-900/20", "text-red-400", "border-red-600")
    }
}

} // verus!
