//! Animation phases of one navigation-chrome element (the top header bar
//! or the bottom HUD bar).
//!
//! A chrome element is mounted off-screen first and slid in only after a
//! short layout delay, and on hiding it slides out first and is removed
//! from the layout only once the exit transition has ended. The phases
//! make that ordering explicit; stale timer events (a delay firing after
//! the element was retargeted) are ignored rather than applied.

use vstd::prelude::*;

verus! {

/// Where a chrome element stands in its slide-in/slide-out cycle.
///
/// `Hidden`: absent from the layout. `Mounting`: present but still in its
/// off-screen position, waiting for the layout delay. `Shown`: settled in
/// its slid-in position. `Leaving`: sliding out, still present so the
/// exit transition can play.
#[derive(Clone, Copy, PartialEq, Eq, Debug, Structural)]
pub enum ChromePhase {
    Hidden,
    Mounting,
    Shown,
    Leaving,
}

/// What can happen to a chrome element: a request to show or hide it,
/// the expiry of the mount-layout delay, or the end of the exit
/// transition.
#[derive(Clone, Copy, PartialEq, Eq, Debug, Structural)]
pub enum ChromeEvent {
    Show,
    Hide,
    MountDelayElapsed,
    ExitEnded,
}

/// Whether the element is present in the layout at all.
pub open spec fn spec_should_render(p: ChromePhase) -> bool {
    p !is Hidden
}

/// Whether the element is in its settled, slid-in position.
pub open spec fn spec_is_visible(p: ChromePhase) -> bool {
    p is Shown
}

/// The phase after an event. A show request mounts the element (or
/// retargets one that was leaving) without making it visible; the mount
/// delay reveals a mounting element; a hide request drops visibility at
/// once but keeps the element rendered; the end of the exit transition
/// finally unmounts it. Delay and transition-end events arriving in any
/// other phase are stale and change nothing.
pub open spec fn spec_chrome_step(p: ChromePhase, e: ChromeEvent) -> ChromePhase {
    match e {
        ChromeEvent::Show => match p {
            ChromePhase::Shown => ChromePhase::Shown,
            _ => ChromePhase::Mounting,
        },
        ChromeEvent::Hide => match p {
            ChromePhase::Hidden => ChromePhase::Hidden,
            _ => ChromePhase::Leaving,
        },
        ChromeEvent::MountDelayElapsed => match p {
            ChromePhase::Mounting => ChromePhase::Shown,
            _ => p,
        },
        ChromeEvent::ExitEnded => match p {
            ChromePhase::Leaving => ChromePhase::Hidden,
            _ => p,
        },
    }
}

impl ChromePhase {
    /// Whether the element is present in the layout at all.
    pub fn should_render(self) -> (b: bool)
        ensures
            b == spec_should_render(self),
    {
        match self {
            ChromePhase::Hidden => false,
            _ => true,
        }
    }

    /// Whether the element is in its settled, slid-in position.
    pub fn is_visible(self) -> (b: bool)
        ensures
            b == spec_is_visible(self),
    {
        match self {
            ChromePhase::Shown => true,
            _ => false,
        }
    }

    /// Applies one event, as `spec_chrome_step` describes.
    pub fn step(self, e: ChromeEvent) -> (n: ChromePhase)
        ensures
            n == spec_chrome_step(self, e),
    {
        match e {
            ChromeEvent::Show => match self {
                ChromePhase::Shown => ChromePhase::Shown,
                _ => ChromePhase::Mounting,
            },
            ChromeEvent::Hide => match self {
                ChromePhase::Hidden => ChromePhase::Hidden,
                _ => ChromePhase::Leaving,
            },
            ChromeEvent::MountDelayElapsed => match self {
                ChromePhase::Mounting => ChromePhase::Shown,
                _ => self,
            },
            ChromeEvent::ExitEnded => match self {
                ChromePhase::Leaving => ChromePhase::Hidden,
                _ => self,
            },
        }
    }
}

/// A visible element is always rendered: visibility never outlives
/// presence in the layout, in any phase.
pub proof fn lemma_visible_implies_rendered(p: ChromePhase)
    ensures
        spec_is_visible(p) ==> spec_should_render(p),
{
}

/// The phase after a whole sequence of events, applied in order.
pub open spec fn spec_chrome_run(p: ChromePhase, events: Seq<ChromeEvent>) -> ChromePhase
    decreases events.len(),
{
    if events.len() == 0 {
        p
    } else {
        spec_chrome_run(spec_chrome_step(p, events[0]), events.drop_first())
    }
}

/// Running a prefix of the events one longer equals one step from the
/// front followed by the shorter prefix of the rest.
proof fn lemma_run_take_step(p: ChromePhase, events: Seq<ChromeEvent>, k: int)
    requires
        0 <= k < events.len(),
    ensures
        spec_chrome_run(p, events.take(k + 1)) == spec_chrome_run(
            spec_chrome_step(p, events[0]),
            events.drop_first().take(k),
        ),
{
    assert(events.take(k + 1)[0] == events[0]);
    assert(events.take(k + 1).drop_first() =~= events.drop_first().take(k));
}

/// The moment an element becomes visible: event `k` is the mount delay
/// firing, and just before it the element was already rendered while
/// still invisible.
pub open spec fn spec_reveal_moment(p: ChromePhase, events: Seq<ChromeEvent>, k: int) -> bool {
    &&& 0 <= k < events.len()
    &&& events[k] == ChromeEvent::MountDelayElapsed
    &&& spec_should_render(spec_chrome_run(p, events.take(k)))
    &&& !spec_is_visible(spec_chrome_run(p, events.take(k)))
}

/// `should_render` becomes true strictly before `is_visible` does:
/// however requests and timers are interleaved, an element that starts
/// invisible and ends visible passed through a moment where it was
/// rendered but not yet visible, and only the mount delay revealed it.
pub proof fn lemma_render_strictly_precedes_reveal(p: ChromePhase, events: Seq<ChromeEvent>)
    requires
        !spec_is_visible(p),
        spec_is_visible(spec_chrome_run(p, events)),
    ensures
        exists|k: int| spec_reveal_moment(p, events, k),
    decreases events.len(),
{
    assert(events.len() > 0);
    let p1 = spec_chrome_step(p, events[0]);
    if spec_is_visible(p1) {
        assert(events.take(0) =~= Seq::<ChromeEvent>::empty());
        assert(spec_reveal_moment(p, events, 0));
    } else {
        lemma_render_strictly_precedes_reveal(p1, events.drop_first());
        let k0 = choose|k0: int| spec_reveal_moment(p1, events.drop_first(), k0);
        lemma_run_take_step(p, events, k0);
        assert(spec_reveal_moment(p, events, k0 + 1));
    }
}

/// The moment an element leaves the layout: event `k` is the end of the
/// exit transition, and just before it the element was still rendered
/// but already invisible.
pub open spec fn spec_unmount_moment(p: ChromePhase, events: Seq<ChromeEvent>, k: int) -> bool {
    &&& 0 <= k < events.len()
    &&& events[k] == ChromeEvent::ExitEnded
    &&& spec_should_render(spec_chrome_run(p, events.take(k)))
    &&& !spec_is_visible(spec_chrome_run(p, events.take(k)))
}

/// `is_visible` becomes false strictly before `should_render` does:
/// an element that starts rendered and ends out of the layout passed
/// through a moment where it was still rendered but already invisible,
/// and only the end of the exit transition removed it.
pub proof fn lemma_conceal_strictly_precedes_unmount(p: ChromePhase, events: Seq<ChromeEvent>)
    requires
        spec_should_render(p),
        !spec_should_render(spec_chrome_run(p, events)),
    ensures
        exists|k: int| spec_unmount_moment(p, events, k),
    decreases events.len(),
{
    assert(events.len() > 0);
    let p1 = spec_chrome_step(p, events[0]);
    if !spec_should_render(p1) {
        assert(events.take(0) =~= Seq::<ChromeEvent>::empty());
        assert(spec_unmount_moment(p, events, 0));
    } else {
        lemma_conceal_strictly_precedes_unmount(p1, events.drop_first());
        let k0 = choose|k0: int| spec_unmount_moment(p1, events.drop_first(), k0);
        lemma_run_take_step(p, events, k0);
        assert(spec_unmount_moment(p, events, k0 + 1));
    }
}

/// A show request renders the element at once but never makes it visible
/// by itself: `should_render` becomes true strictly before `is_visible`.
pub proof fn lemma_show_renders_before_reveal(p: ChromePhase)
    requires
        !spec_is_visible(p),
    ensures
        spec_should_render(spec_chrome_step(p, ChromeEvent::Show)),
        !spec_is_visible(spec_chrome_step(p, ChromeEvent::Show)),
{
}

/// Visibility arises only through the mount delay firing in the mounting
/// phase, where the element is already rendered — never in the same step
/// as the mount itself.
pub proof fn lemma_reveal_only_when_rendered(p: ChromePhase, e: ChromeEvent)
    requires
        !spec_is_visible(p),
        spec_is_visible(spec_chrome_step(p, e)),
    ensures
        e is MountDelayElapsed,
        spec_should_render(p),
{
}

/// A hide request drops visibility at once while leaving the element
/// rendered: `is_visible` becomes false strictly before `should_render`.
pub proof fn lemma_hide_conceals_before_unmount(p: ChromePhase)
    ensures
        !spec_is_visible(spec_chrome_step(p, ChromeEvent::Hide)),
        spec_should_render(spec_chrome_step(p, ChromeEvent::Hide)) == spec_should_render(p),
{
}

/// The element leaves the layout only at the end of the exit transition,
/// and only from a phase that is already invisible, so the slide-out is
/// never cut short by the unmount.
pub proof fn lemma_unmount_only_after_conceal(p: ChromePhase, e: ChromeEvent)
    requires
        spec_should_render(p),
        !spec_should_render(spec_chrome_step(p, e)),
    ensures
        e is ExitEnded,
        !spec_is_visible(p),
{
}

} // verus!
