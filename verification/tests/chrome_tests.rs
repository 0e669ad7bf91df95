use portfolio::chrome::{ChromeEvent, ChromePhase};
use portfolio::nav::{is_mobile_width, NavEvent, NavState};

#[test]
fn show_renders_before_reveal() {
    let hidden = ChromePhase::Hidden;
    let mounted = hidden.step(ChromeEvent::Show);
    assert!(mounted.should_render());
    assert!(!mounted.is_visible());
    let shown = mounted.step(ChromeEvent::MountDelayElapsed);
    assert!(shown.should_render());
    assert!(shown.is_visible());
}

#[test]
fn hide_conceals_before_unmount() {
    let shown = ChromePhase::Shown;
    let leaving = shown.step(ChromeEvent::Hide);
    assert!(!leaving.is_visible());
    assert!(leaving.should_render());
    let hidden = leaving.step(ChromeEvent::ExitEnded);
    assert!(!hidden.should_render());
    assert!(!hidden.is_visible());
}

#[test]
fn stale_timer_events_change_nothing() {
    assert_eq!(
        ChromePhase::Hidden.step(ChromeEvent::MountDelayElapsed),
        ChromePhase::Hidden
    );
    assert_eq!(
        ChromePhase::Shown.step(ChromeEvent::ExitEnded),
        ChromePhase::Shown
    );
    // A mount delay left over from before a hide request must not
    // re-reveal the element sliding out.
    let leaving = ChromePhase::Shown.step(ChromeEvent::Hide);
    assert_eq!(leaving.step(ChromeEvent::MountDelayElapsed), leaving);
}

#[test]
fn show_retargets_a_leaving_element() {
    let leaving = ChromePhase::Shown.step(ChromeEvent::Hide);
    let remounted = leaving.step(ChromeEvent::Show);
    assert!(remounted.should_render());
    assert!(!remounted.is_visible());
}

fn both_visible(s: &NavState) -> bool {
    s.header.is_visible() && s.hud.is_visible()
}

#[test]
fn toggle_swaps_chromes_without_overlap() {
    // Default style on a regular screen: header up, HUD absent.
    let mut s = NavState::new(true, false);
    s.step(NavEvent::HeaderMountDelay);
    assert!(s.header.is_visible());
    assert!(!s.hud.should_render());

    // Toggle to the HUD: the header starts sliding out at once, the
    // HUD mounts but is not yet visible.
    s.step(NavEvent::Toggle);
    assert!(!s.header.is_visible());
    assert!(s.header.should_render());
    assert!(s.hud.should_render());
    assert!(!s.hud.is_visible());
    assert!(!both_visible(&s));

    // The HUD settles, the header unmounts; still never both visible.
    s.step(NavEvent::HudMountDelay);
    assert!(!both_visible(&s));
    s.step(NavEvent::HeaderExitEnded);
    assert!(s.hud.is_visible());
    assert!(!s.header.should_render());

    // And back again.
    s.step(NavEvent::Toggle);
    assert!(!both_visible(&s));
    s.step(NavEvent::HeaderMountDelay);
    assert!(!both_visible(&s));
    s.step(NavEvent::HudExitEnded);
    assert!(s.header.is_visible());
    assert!(!s.hud.should_render());
}

#[test]
fn small_screens_force_the_header_on() {
    let mut s = NavState::new(false, false);
    s.step(NavEvent::HudMountDelay);
    assert!(s.hud.is_visible());
    assert!(!s.header.should_render());

    // The viewport shrinks: the header comes back even though the HUD
    // style is still selected.
    s.step(NavEvent::SetMobile(true));
    assert!(s.header.should_render());

    // It widens again: the header goes back out.
    s.step(NavEvent::SetMobile(false));
    assert!(!s.header.is_visible());
}

#[test]
fn the_breakpoint_is_640_pixels() {
    assert!(is_mobile_width(639));
    assert!(!is_mobile_width(640));
    assert!(!is_mobile_width(1920));
    assert!(is_mobile_width(0));
}

#[test]
fn mid_animation_toggle_retargets() {
    let mut s = NavState::new(true, false);
    // Toggle away and back before any timer fires.
    s.step(NavEvent::Toggle);
    s.step(NavEvent::Toggle);
    assert!(s.header.should_render());
    assert!(!s.hud.is_visible());
    assert!(!both_visible(&s));
}
