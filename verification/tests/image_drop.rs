use write_image::image_drop::{handle_image_drop, DropAction, DropEvent};

const ALL_EVENTS: [DropEvent; 6] = [
    DropEvent::DndEnter,
    DropEvent::DndDrag,
    DropEvent::DndRelease,
    DropEvent::Paste,
    DropEvent::DndLeave,
    DropEvent::Other,
];

fn step(event: DropEvent, released: bool) -> (DropAction, bool) {
    let mut flag = released;
    let action = handle_image_drop(event, &mut flag);
    (action, flag)
}

#[test]
fn entering_clears_a_waiting_release() {
    assert_eq!(step(DropEvent::DndEnter, true), (DropAction::Consume, false));
    assert_eq!(step(DropEvent::DndEnter, false), (DropAction::Consume, false));
}

#[test]
fn dragging_changes_nothing() {
    assert_eq!(step(DropEvent::DndDrag, true), (DropAction::Consume, true));
    assert_eq!(step(DropEvent::DndDrag, false), (DropAction::Consume, false));
}

#[test]
fn release_waits_for_its_paste() {
    assert_eq!(step(DropEvent::DndRelease, false), (DropAction::Consume, true));
    assert_eq!(step(DropEvent::DndRelease, true), (DropAction::Consume, true));
}

#[test]
fn paste_after_release_delivers_the_file() {
    assert_eq!(step(DropEvent::Paste, true), (DropAction::AcceptText, false));
}

#[test]
fn paste_without_release_is_not_handled() {
    assert_eq!(step(DropEvent::Paste, false), (DropAction::Ignore, false));
}

#[test]
fn leaving_keeps_a_waiting_release() {
    assert_eq!(step(DropEvent::DndLeave, true), (DropAction::Consume, true));
    assert_eq!(step(DropEvent::DndLeave, false), (DropAction::Consume, false));
}

#[test]
fn other_events_are_not_handled_and_change_nothing() {
    assert_eq!(step(DropEvent::Other, true), (DropAction::Ignore, true));
    assert_eq!(step(DropEvent::Other, false), (DropAction::Ignore, false));
}

#[test]
fn handled_is_everything_but_ignore() {
    assert!(!DropAction::Ignore.handled());
    assert!(DropAction::Consume.handled());
    assert!(DropAction::AcceptText.handled());
}

#[test]
fn whole_drop_delivers_exactly_one_file() {
    let events = [
        DropEvent::DndEnter,
        DropEvent::DndDrag,
        DropEvent::DndDrag,
        DropEvent::DndRelease,
        DropEvent::DndLeave,
        DropEvent::Paste,
        DropEvent::Paste,
    ];
    let mut released = false;
    let actions: Vec<DropAction> =
        events.iter().map(|event| handle_image_drop(*event, &mut released)).collect();
    assert_eq!(
        actions,
        vec![
            DropAction::Consume,
            DropAction::Consume,
            DropAction::Consume,
            DropAction::Consume,
            DropAction::Consume,
            DropAction::AcceptText,
            DropAction::Ignore,
        ]
    );
    assert!(!released);
}

#[test]
fn new_drag_cancels_an_unfinished_drop() {
    let events = [DropEvent::DndRelease, DropEvent::DndEnter, DropEvent::Paste];
    let mut released = false;
    let mut last = DropAction::Ignore;
    for event in events {
        last = handle_image_drop(event, &mut released);
    }
    assert_eq!(last, DropAction::Ignore);
    assert!(!released);
}

#[test]
fn paste_is_accepted_exactly_after_an_undisturbed_release() {
    for first in ALL_EVENTS {
        for second in ALL_EVENTS {
            for third in ALL_EVENTS {
                let run = [first, second, third];
                let mut released = false;
                for event in run {
                    handle_image_drop(event, &mut released);
                }
                let expected = (0..run.len()).any(|k| {
                    run[k] == DropEvent::DndRelease
                        && run[k + 1..]
                            .iter()
                            .all(|e| *e != DropEvent::DndEnter && *e != DropEvent::Paste)
                });
                assert_eq!(released, expected, "events {:?}", run);
                let action = handle_image_drop(DropEvent::Paste, &mut released);
                let wanted = if expected { DropAction::AcceptText } else { DropAction::Ignore };
                assert_eq!(action, wanted, "events {:?}", run);
            }
        }
    }
}
