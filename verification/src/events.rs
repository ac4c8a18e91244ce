//! The events of the window, and what draining them asks for.

use vstd::prelude::*;
use crate::render::Action;

verus! {

/// A key of the keyboard, as far as the frame loop tells keys apart.
#[derive(Clone, Copy, Debug, PartialEq, Eq)]
pub enum Key {
    Escape,
    Other,
}

/// An event of the window.
#[derive(Clone, Copy, Debug, PartialEq, Eq)]
pub enum Event {
    /// A key was pressed or released.
    KeyboardInput { key: Key },
    /// The window has a new size.
    Resized { width: u32, height: u32 },
    /// The user asked for the window to be closed.
    CloseRequested,
    /// Anything else; it is ignored.
    Other,
}

impl Event {
    /// The event ends the frame loop: the escape key, or a request to close
    /// the window.
    pub open spec fn is_stop(self) -> bool {
        match self {
            Event::KeyboardInput { key: Key::Escape } => true,
            Event::CloseRequested => true,
            _ => false,
        }
    }

    /// What the event asks of the caller: a resize asks for the render
    /// targets to be fitted to the new size, every other event for nothing.
    pub open spec fn request_of(self) -> Option<Action> {
        match self {
            Event::Resized { width, height } => Some(Action::ResizeTargets { width, height }),
            _ => None,
        }
    }

    /// Tells whether the event ends the frame loop.
    pub fn stops(&self) -> (stop: bool)
        ensures
            stop == self.is_stop(),
    {
        match self {
            Event::KeyboardInput { key: Key::Escape } => true,
            Event::CloseRequested => true,
            _ => false,
        }
    }

    /// What the event asks of the caller, if anything.
    pub fn request(&self) -> (asked: Option<Action>)
        ensures
            asked == self.request_of(),
    {
        match self {
            Event::Resized { width, height } => Some(
                Action::ResizeTargets { width: *width, height: *height },
            ),
            _ => None,
        }
    }
}

/// One of the events ends the frame loop.
pub open spec fn any_stop(events: Seq<Event>) -> bool {
    exists|i: int| 0 <= i < events.len() && #[trigger] events[i].is_stop()
}

/// [`Event::request_of`] as a function.
pub open spec fn request_fn() -> spec_fn(Event) -> Option<Action> {
    |event: Event| event.request_of()
}

/// What the events ask of the caller, in the order in which the events
/// arrived.
pub open spec fn requests(events: Seq<Event>) -> Seq<Action> {
    events.filter_map(request_fn())
}

/// Drains the pending events in the order of their arrival. Tells whether
/// one of them ends the frame loop, and hands out what the events ask for.
/// Events after one that ends the loop are drained like the rest.
pub fn drain_events(events: &Vec<Event>) -> (drained: (bool, Vec<Action>))
    ensures
        drained.0 == any_stop(events@),
        drained.1@ == requests(events@),
{
    let mut stop = false;
    let mut actions: Vec<Action> = Vec::new();
    let mut i: usize = 0;
    while i < events.len()
        invariant
            i <= events.len(),
            stop == any_stop(events@.take(i as int)),
            actions@ == requests(events@.take(i as int)),
        decreases events.len() - i,
    {
        let event = events[i];
        proof {
            lemma_stop_in_prefix(events@, i as int);
            events@.lemma_filter_map_take_succ(request_fn(), i as int);
        }
        if event.stops() {
            stop = true;
        }
        match event.request() {
            Some(action) => {
                actions.push(action);
            },
            None => {},
        }
        i += 1;
    }
    assert(events@.take(events.len() as int) == events@);
    (stop, actions)
}

/// One of the first `i + 1` events ends the loop exactly when one of the
/// first `i` does or the one after them does.
proof fn lemma_stop_in_prefix(events: Seq<Event>, i: int)
    requires
        0 <= i < events.len(),
    ensures
        any_stop(events.take(i + 1)) == (any_stop(events.take(i)) || events[i].is_stop()),
{
    let shorter = events.take(i);
    let longer = events.take(i + 1);
    if any_stop(shorter) {
        let j = choose|j: int| 0 <= j < shorter.len() && #[trigger] shorter[j].is_stop();
        assert(longer[j].is_stop());
    }
    if events[i].is_stop() {
        assert(longer[i].is_stop());
    }
    if any_stop(longer) {
        let j = choose|j: int| 0 <= j < longer.len() && #[trigger] longer[j].is_stop();
        if j < i {
            assert(shorter[j].is_stop());
        }
    }
}

/// Events that are drained together end the loop if the earlier or the
/// later ones do, and ask for what the earlier ones ask for, followed by
/// what the later ones ask for.
pub proof fn lemma_drain_of_concat(earlier: Seq<Event>, later: Seq<Event>)
    ensures
        any_stop(earlier + later) == (any_stop(earlier) || any_stop(later)),
        requests(earlier + later) == requests(earlier) + requests(later),
    decreases later.len(),
{
    let both = earlier + later;
    if any_stop(earlier) {
        let j = choose|j: int| 0 <= j < earlier.len() && #[trigger] earlier[j].is_stop();
        assert(both[j].is_stop());
    }
    if any_stop(later) {
        let j = choose|j: int| 0 <= j < later.len() && #[trigger] later[j].is_stop();
        assert(both[earlier.len() + j].is_stop());
    }
    if any_stop(both) {
        let j = choose|j: int| 0 <= j < both.len() && #[trigger] both[j].is_stop();
        if j < earlier.len() {
            assert(earlier[j].is_stop());
        } else {
            assert(later[j - earlier.len()].is_stop());
        }
    }
    if later.len() == 0 {
        assert(both == earlier);
    } else {
        lemma_drain_of_concat(earlier, later.drop_last());
        assert(both.drop_last() == earlier + later.drop_last());
        assert(both.last() == later.last());
    }
}

/// Every request is the fitting of the render targets to the size that one
/// of the events announced, there are no more requests than events, and
/// without a resize among the events nothing is asked for.
pub proof fn lemma_requests_are_resizes(events: Seq<Event>)
    ensures
        requests(events).len() <= events.len(),
        forall|j: int|
            0 <= j < requests(events).len() ==> exists|i: int|
                0 <= i < events.len() && #[trigger] events[i].request_of() == Some(
                    #[trigger] requests(events)[j],
                ),
        (forall|i: int| 0 <= i < events.len() ==> !(#[trigger] events[i] is Resized))
            ==> requests(events).len() == 0,
    decreases events.len(),
{
    if events.len() > 0 {
        let front = events.drop_last();
        lemma_requests_are_resizes(front);
        assert forall|j: int| 0 <= j < requests(events).len() implies exists|i: int|
            0 <= i < events.len() && #[trigger] events[i].request_of() == Some(
                #[trigger] requests(events)[j],
            ) by {
            if j < requests(front).len() {
                let i = choose|i: int|
                    0 <= i < front.len() && #[trigger] front[i].request_of() == Some(
                        #[trigger] requests(front)[j],
                    );
                assert(events[i] == front[i]);
                assert(requests(events)[j] == requests(front)[j]);
            } else {
                let i = events.len() - 1;
                assert(events[i].request_of() == Some(requests(events)[j]));
            }
        }
        if forall|i: int| 0 <= i < events.len() ==> !(#[trigger] events[i] is Resized) {
            assert forall|i: int| 0 <= i < front.len() implies !(#[trigger] front[i] is Resized) by {
                assert(front[i] == events[i]);
            }
            assert(!(events[events.len() - 1] is Resized));
        }
    }
}

} // verus!
