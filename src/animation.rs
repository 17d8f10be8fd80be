use vstd::prelude::*;

verus! {

/// Animation time advanced by one tick, in milliseconds.
pub const TICK_MILLIS: u64 = 16;

/// The state shared with the host: the animation time, kept exactly as a
/// whole number of milliseconds.
#[derive(Clone, Copy, Debug, PartialEq, Eq, Structural)]
pub struct AppState {
    pub time_millis: u64,
}

impl AppState {
    /// The state at launch: time zero.
    pub fn new() -> (r: AppState)
        ensures
            r.time_millis == 0,
    {
        AppState { time_millis: 0 }
    }
}

/// An event that the host delivers to the widget.
#[derive(Clone, Copy, Debug, PartialEq, Eq, Structural)]
pub enum WidgetEvent {
    /// One animation frame; the host's elapsed-time hint in nanoseconds is
    /// carried along and deliberately not used.
    AnimFrame(u64),
    /// Any other event, which the widget ignores.
    Other,
}

/// A lifecycle signal from the host.
#[derive(Clone, Copy, Debug, PartialEq, Eq, Structural)]
pub enum LifeCycleEvent {
    /// The widget has become part of the widget tree.
    WidgetAdded,
    /// Any other lifecycle signal, which the widget ignores.
    Other,
}

/// What the widget asks the host to do after handling a signal.
#[derive(Clone, Copy, Debug, PartialEq, Eq, Structural)]
pub enum HostRequest {
    /// Deliver another animation frame.
    AnimFrame,
    /// Repaint the widget.
    Paint,
}

/// The two states of the widget.
#[derive(Clone, Copy, Debug, PartialEq, Eq, Structural)]
pub enum Phase {
    Unmounted,
    Animating,
}

/// The requests that answer one animation frame.
pub open spec fn tick_requests() -> Seq<HostRequest> {
    seq![HostRequest::AnimFrame, HostRequest::Paint]
}

/// Number of occurrences of `q` in `s`.
pub open spec fn count_of(s: Seq<HostRequest>, q: HostRequest) -> nat
    decreases s.len(),
{
    if s.len() == 0 {
        0
    } else {
        count_of(s.drop_last(), q) + if s.last() == q {
            1nat
        } else {
            0nat
        }
    }
}

/// The widget that draws the pulsing heart.
#[derive(Clone, Copy, Debug, PartialEq, Eq, Structural)]
pub struct HeartWidget {
    pub phase: Phase,
}

impl HeartWidget {
    /// A widget that the host has not mounted yet.
    pub fn new() -> (r: HeartWidget)
        ensures
            r.phase == Phase::Unmounted,
    {
        HeartWidget { phase: Phase::Unmounted }
    }

    /// Handles an event: an animation frame advances the time by exactly one
    /// tick and asks for the next frame and a repaint; anything else changes
    /// nothing and asks for nothing.
    pub fn event(&mut self, event: &WidgetEvent, data: &mut AppState) -> (r: Vec<HostRequest>)
        requires
            old(data).time_millis + TICK_MILLIS <= u64::MAX,
        ensures
            *final(self) == *old(self),
            event is AnimFrame ==> final(data).time_millis == old(data).time_millis + TICK_MILLIS,
            event is AnimFrame ==> r@ == tick_requests(),
            event is AnimFrame ==> count_of(r@, HostRequest::AnimFrame) == 1,
            event is AnimFrame ==> count_of(r@, HostRequest::Paint) == 1,
            !(event is AnimFrame) ==> *final(data) == *old(data),
            !(event is AnimFrame) ==> r@.len() == 0,
    {
        match event {
            WidgetEvent::AnimFrame(_) => {
                data.time_millis = data.time_millis + TICK_MILLIS;
                let mut r: Vec<HostRequest> = Vec::new();
                r.push(HostRequest::AnimFrame);
                r.push(HostRequest::Paint);
                proof {
                    assert(r@ =~= tick_requests());
                    lemma_tick_requests_once_each();
                }
                r
            },
            WidgetEvent::Other => Vec::new(),
        }
    }

    /// Handles a lifecycle signal: being added to the tree starts the
    /// animation and asks for the first frame; anything else changes nothing.
    pub fn lifecycle(&mut self, event: &LifeCycleEvent, data: &AppState) -> (r: Vec<HostRequest>)
        ensures
            *event == LifeCycleEvent::WidgetAdded ==> final(self).phase == Phase::Animating,
            *event == LifeCycleEvent::WidgetAdded ==> r@ == seq![HostRequest::AnimFrame],
            *event != LifeCycleEvent::WidgetAdded ==> *final(self) == *old(self),
            *event != LifeCycleEvent::WidgetAdded ==> r@.len() == 0,
            old(self).phase == Phase::Animating ==> final(self).phase == Phase::Animating,
    {
        match event {
            LifeCycleEvent::WidgetAdded => {
                self.phase = Phase::Animating;
                let mut r: Vec<HostRequest> = Vec::new();
                r.push(HostRequest::AnimFrame);
                proof {
                    assert(r@ =~= seq![HostRequest::AnimFrame]);
                }
                r
            },
            LifeCycleEvent::Other => Vec::new(),
        }
    }
}

/// The answer to an animation frame holds exactly one request for the next
/// frame and exactly one request to repaint.
pub proof fn lemma_tick_requests_once_each()
    ensures
        count_of(tick_requests(), HostRequest::AnimFrame) == 1,
        count_of(tick_requests(), HostRequest::Paint) == 1,
{
    let s = tick_requests();
    assert(s.drop_last() =~= seq![HostRequest::AnimFrame]);
    assert(s.drop_last().drop_last() =~= Seq::<HostRequest>::empty());
    reveal_with_fuel(count_of, 3);
}

} // verus!
