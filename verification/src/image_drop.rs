//! Acceptance of an image file that is dragged onto the window.
//!
//! The toolkit reports a successful drop as a release followed by a paste
//! that carries the dropped text. One flag remembers between events whether
//! a release is waiting for its paste.

use vstd::prelude::*;

verus! {

/// A window event, as far as dropping a file is concerned.
#[derive(Clone, Copy, Debug, PartialEq, Eq, Structural)]
pub enum DropEvent {
    /// Something dragged has entered the drop area.
    DndEnter,
    /// Something is being dragged over the drop area.
    DndDrag,
    /// What was dragged has been released over the drop area.
    DndRelease,
    /// Text is handed over, from a drop or from elsewhere.
    Paste,
    /// What was dragged has left the drop area.
    DndLeave,
    /// Any other event.
    Other,
}

/// What the caller does about an event.
#[derive(Clone, Copy, Debug, PartialEq, Eq, Structural)]
pub enum DropAction {
    /// The event is not for the drop area: report it as not handled.
    Ignore,
    /// The event belongs to a drag in progress: report it as handled.
    Consume,
    /// The event delivers a dropped file: take the event's text as the path
    /// of the image, and report the event as handled.
    AcceptText,
}

impl DropAction {
    /// Whether the event counts as handled.
    pub open spec fn is_handled(self) -> bool {
        self != DropAction::Ignore
    }

    /// Tells whether the event is to be reported as handled.
    pub fn handled(&self) -> (handled: bool)
        ensures
            handled == self.is_handled(),
    {
        match self {
            DropAction::Ignore => false,
            DropAction::Consume => true,
            DropAction::AcceptText => true,
        }
    }
}

/// Whether a release is waiting for its paste after `event`, given whether
/// one was waiting before it. Entering starts afresh, a release waits, and
/// any paste uses the release up.
pub open spec fn released_after(event: DropEvent, released: bool) -> bool {
    match event {
        DropEvent::DndEnter => false,
        DropEvent::DndRelease => true,
        DropEvent::Paste => false,
        DropEvent::DndDrag => released,
        DropEvent::DndLeave => released,
        DropEvent::Other => released,
    }
}

/// What is done about `event`, given whether a release was waiting. Only a
/// paste that follows a release delivers a file; a paste from elsewhere is
/// not for the drop area.
pub open spec fn action_for(event: DropEvent, released: bool) -> DropAction {
    match event {
        DropEvent::DndEnter => DropAction::Consume,
        DropEvent::DndDrag => DropAction::Consume,
        DropEvent::DndRelease => DropAction::Consume,
        DropEvent::DndLeave => DropAction::Consume,
        DropEvent::Paste => if released {
            DropAction::AcceptText
        } else {
            DropAction::Ignore
        },
        DropEvent::Other => DropAction::Ignore,
    }
}

/// Takes one event for the drop area: updates the flag that remembers a
/// release, and says what the caller is to do.
pub fn handle_image_drop(event: DropEvent, released: &mut bool) -> (action: DropAction)
    ensures
        *final(released) == released_after(event, *old(released)),
        action == action_for(event, *old(released)),
{
    match event {
        DropEvent::DndEnter => {
            *released = false;
            DropAction::Consume
        },
        DropEvent::DndDrag => DropAction::Consume,
        DropEvent::DndRelease => {
            *released = true;
            DropAction::Consume
        },
        DropEvent::Paste => {
            if *released {
                *released = false;
                DropAction::AcceptText
            } else {
                DropAction::Ignore
            }
        },
        DropEvent::DndLeave => DropAction::Consume,
        DropEvent::Other => DropAction::Ignore,
    }
}

/// Whether a release is waiting for its paste after a run of events, with
/// none waiting at the start.
pub open spec fn awaiting_paste(events: Seq<DropEvent>) -> bool
    decreases events.len(),
{
    if events.len() == 0 {
        false
    } else {
        released_after(events.last(), awaiting_paste(events.drop_last()))
    }
}

/// No event after position `from` starts a new drag or takes a paste.
pub open spec fn undisturbed_since(events: Seq<DropEvent>, from: int) -> bool {
    forall|j: int|
        from < j < events.len() ==> (#[trigger] events[j]) != DropEvent::DndEnter && events[j]
            != DropEvent::Paste
}

/// A release waits for its paste exactly if one was seen and neither a new
/// drag nor a paste came after it. So the next paste delivers a file only
/// where a drop went before it, each drop delivers one file at most, and
/// text pasted without a drop is never taken for an image.
pub proof fn lemma_paste_needs_release(events: Seq<DropEvent>)
    ensures
        awaiting_paste(events) <==> exists|k: int|
            0 <= k < events.len() && (#[trigger] events[k]) == DropEvent::DndRelease
                && undisturbed_since(events, k),
        action_for(DropEvent::Paste, awaiting_paste(events)) == DropAction::AcceptText
            <==> awaiting_paste(events),
    decreases events.len(),
{
    if events.len() > 0 {
        let earlier = events.drop_last();
        let last = events.len() - 1;
        lemma_paste_needs_release(earlier);
        if awaiting_paste(events) {
            if events[last] == DropEvent::DndRelease {
                assert(undisturbed_since(events, last));
            } else {
                // The release that waited before the last event still waits.
                let k = choose|k: int|
                    0 <= k < earlier.len() && (#[trigger] earlier[k]) == DropEvent::DndRelease
                        && undisturbed_since(earlier, k);
                assert forall|j: int| k < j < events.len() implies (#[trigger] events[j])
                    != DropEvent::DndEnter && events[j] != DropEvent::Paste by {
                    if j < last {
                        assert(earlier[j] == events[j]);
                    }
                }
                assert(events[k] == DropEvent::DndRelease && undisturbed_since(events, k));
            }
        }
        if exists|k: int|
            0 <= k < events.len() && (#[trigger] events[k]) == DropEvent::DndRelease
                && undisturbed_since(events, k) {
            let k = choose|k: int|
                0 <= k < events.len() && (#[trigger] events[k]) == DropEvent::DndRelease
                    && undisturbed_since(events, k);
            if k < last {
                // The last event left the release waiting, as it was before.
                assert(earlier[k] == events[k]);
                assert forall|j: int| k < j < earlier.len() implies (#[trigger] earlier[j])
                    != DropEvent::DndEnter && earlier[j] != DropEvent::Paste by {
                    assert(earlier[j] == events[j]);
                }
                assert(awaiting_paste(earlier));
            }
        }
    }
}

} // verus!
