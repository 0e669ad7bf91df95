//! Coordination of the two navigation chromes.
//!
//! One shared flag selects between the top header bar and the bottom HUD
//! bar; a small-screen flag forces the header on regardless. Every change
//! of either flag re-targets both chromes at once, so that (off small
//! screens) the two are never in the layout's settled, visible state
//! together.

use vstd::prelude::*;
use crate::chrome::{ChromeEvent, ChromePhase, spec_chrome_step, spec_is_visible};
use crate::router::Route;

verus! {

/// The shared navigation state: which chrome style is selected, whether
/// the viewport is small (the header is always used there), and the
/// animation phase of each chrome element.
#[derive(Clone, Copy, PartialEq, Eq, Debug, Structural)]
pub struct NavState {
    pub use_default_navbar: bool,
    pub is_mobile: bool,
    pub header: ChromePhase,
    pub hud: ChromePhase,
}

/// What can happen to the navigation state: the style toggle, a change
/// of the small-screen flag, or one of the per-chrome timer events.
#[derive(Clone, Copy, PartialEq, Eq, Debug, Structural)]
pub enum NavEvent {
    Toggle,
    SetMobile(bool),
    HeaderMountDelay,
    HeaderExitEnded,
    HudMountDelay,
    HudExitEnded,
}

/// Whether the header bar should currently be shown: always on small
/// screens, otherwise exactly when the default style is selected.
pub open spec fn spec_header_target(s: NavState) -> bool {
    s.is_mobile || s.use_default_navbar
}

/// Whether the HUD bar should currently be shown: exactly when the
/// default style is not selected.
pub open spec fn spec_hud_target(s: NavState) -> bool {
    !s.use_default_navbar
}

/// Re-issues show/hide to both chromes according to their targets.
pub open spec fn spec_retarget(s: NavState) -> NavState {
    NavState {
        header: spec_chrome_step(
            s.header,
            if spec_header_target(s) { ChromeEvent::Show } else { ChromeEvent::Hide },
        ),
        hud: spec_chrome_step(
            s.hud,
            if spec_hud_target(s) { ChromeEvent::Show } else { ChromeEvent::Hide },
        ),
        ..s
    }
}

/// The navigation state after one event. Flag changes re-target both
/// chromes; timer events advance only the chrome they belong to.
pub open spec fn spec_nav_step(s: NavState, e: NavEvent) -> NavState {
    match e {
        NavEvent::Toggle => spec_retarget(
            NavState { use_default_navbar: !s.use_default_navbar, ..s },
        ),
        NavEvent::SetMobile(m) => spec_retarget(NavState { is_mobile: m, ..s }),
        NavEvent::HeaderMountDelay => NavState {
            header: spec_chrome_step(s.header, ChromeEvent::MountDelayElapsed),
            ..s
        },
        NavEvent::HeaderExitEnded => NavState {
            header: spec_chrome_step(s.header, ChromeEvent::ExitEnded),
            ..s
        },
        NavEvent::HudMountDelay => NavState {
            hud: spec_chrome_step(s.hud, ChromeEvent::MountDelayElapsed),
            ..s
        },
        NavEvent::HudExitEnded => NavState {
            hud: spec_chrome_step(s.hud, ChromeEvent::ExitEnded),
            ..s
        },
    }
}

/// A chrome is "up" when it is mounted or settled — the phases from
/// which the mount delay could make it visible.
pub open spec fn spec_chrome_up(p: ChromePhase) -> bool {
    p is Mounting || p is Shown
}

/// Well-formedness of the navigation state: off small screens at most
/// one chrome is up, so the two bars are never settled together.
pub open spec fn spec_nav_wf(s: NavState) -> bool {
    !s.is_mobile ==> !(spec_chrome_up(s.header) && spec_chrome_up(s.hud))
}

impl NavState {
    /// The initial state: each chrome starts mounted (still off-screen)
    /// when its target says shown, absent otherwise.
    pub fn new(use_default_navbar: bool, is_mobile: bool) -> (s: NavState)
        ensures
            s.use_default_navbar == use_default_navbar,
            s.is_mobile == is_mobile,
            spec_nav_wf(s),
            spec_chrome_up(s.header) == spec_header_target(s),
            spec_chrome_up(s.hud) == spec_hud_target(s),
            !spec_is_visible(s.header),
            !spec_is_visible(s.hud),
    {
        let header = if is_mobile || use_default_navbar {
            ChromePhase::Mounting
        } else {
            ChromePhase::Hidden
        };
        let hud = if !use_default_navbar {
            ChromePhase::Mounting
        } else {
            ChromePhase::Hidden
        };
        NavState { use_default_navbar, is_mobile, header, hud }
    }

    /// Applies one event, as `spec_nav_step` describes.
    pub fn step(&mut self, e: NavEvent)
        ensures
            *final(self) == spec_nav_step(*old(self), e),
    {
        match e {
            NavEvent::Toggle => {
                self.use_default_navbar = !self.use_default_navbar;
                self.retarget();
            },
            NavEvent::SetMobile(m) => {
                self.is_mobile = m;
                self.retarget();
            },
            NavEvent::HeaderMountDelay => {
                self.header = self.header.step(ChromeEvent::MountDelayElapsed);
            },
            NavEvent::HeaderExitEnded => {
                self.header = self.header.step(ChromeEvent::ExitEnded);
            },
            NavEvent::HudMountDelay => {
                self.hud = self.hud.step(ChromeEvent::MountDelayElapsed);
            },
            NavEvent::HudExitEnded => {
                self.hud = self.hud.step(ChromeEvent::ExitEnded);
            },
        }
    }

    /// Re-issues show/hide to both chromes according to their targets.
    fn retarget(&mut self)
        ensures
            *final(self) == spec_retarget(*old(self)),
    {
        let header_event = if self.is_mobile || self.use_default_navbar {
            ChromeEvent::Show
        } else {
            ChromeEvent::Hide
        };
        let hud_event = if !self.use_default_navbar {
            ChromeEvent::Show
        } else {
            ChromeEvent::Hide
        };
        self.header = self.header.step(header_event);
        self.hud = self.hud.step(hud_event);
    }
}

/// Every event preserves well-formedness: once at most one chrome is up
/// off small screens, that stays true forever.
pub proof fn lemma_nav_step_preserves_wf(s: NavState, e: NavEvent)
    requires
        spec_nav_wf(s),
    ensures
        spec_nav_wf(spec_nav_step(s, e)),
{
}

/// The two chromes are mutually exclusive: in any well-formed state off
/// small screens, the header and the HUD are never both in their
/// settled, visible position.
pub proof fn lemma_chromes_never_both_visible(s: NavState)
    requires
        spec_nav_wf(s),
        !s.is_mobile,
    ensures
        !(spec_is_visible(s.header) && spec_is_visible(s.hud)),
{
}

/// Whether a viewport width counts as a small screen, where the header
/// is forced on: strictly below the 640px breakpoint.
pub fn is_mobile_width(width: i64) -> (b: bool)
    ensures
        b == (width < 640),
{
    width < 640
}

/// A nav entry is marked active exactly when its route is the one the
/// current path resolved to.
pub fn nav_item_is_active(item: Route, current: Route) -> (b: bool)
    ensures
        b == (item == current),
{
    item == current
}

/// At most one nav entry is active at a time: two entries both marked
/// active for the same current route are the same entry.
pub proof fn lemma_active_item_unique(current: Route, a: Route, b: Route)
    requires
        a == current,
        b == current,
    ensures
        a == b,
{
}

} // verus!
