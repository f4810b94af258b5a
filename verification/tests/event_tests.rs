use dockbar::event::{
    event_interest_mask, map_event, ClickEvent, Event, RawEvent, CLICK, EVENT_MASK_BUTTON_MOTION,
    EVENT_MASK_BUTTON_PRESS, EVENT_MASK_BUTTON_RELEASE, EVENT_MASK_EXPOSURE, MOUSE_MOVE, QUIT,
};

#[test]
fn button_press_translates_to_mouse_down() {
    let r = map_event(&RawEvent::ButtonPress { root_x: 10, root_y: 20 });
    assert_eq!(r, Some(Event::MouseDown(ClickEvent { x: 10, y: 20 })));
}

#[test]
fn button_release_translates_to_mouse_up() {
    let r = map_event(&RawEvent::ButtonRelease { root_x: 10, root_y: 20 });
    assert_eq!(r, Some(Event::MouseUp(ClickEvent { x: 10, y: 20 })));
}

#[test]
fn other_events_translate_to_none() {
    assert_eq!(map_event(&RawEvent::Other), None);
}

#[test]
fn negative_coordinates_survive_translation() {
    let r = map_event(&RawEvent::ButtonPress { root_x: -5, root_y: -6 });
    assert_eq!(r, Some(Event::MouseDown(ClickEvent { x: -5, y: -6 })));
}

#[test]
fn interest_mask_always_has_exposure() {
    assert_eq!(event_interest_mask(0), EVENT_MASK_EXPOSURE);
    assert_eq!(event_interest_mask(QUIT), EVENT_MASK_EXPOSURE);
}

#[test]
fn interest_mask_click_adds_buttons() {
    assert_eq!(
        event_interest_mask(CLICK),
        EVENT_MASK_EXPOSURE | EVENT_MASK_BUTTON_PRESS | EVENT_MASK_BUTTON_RELEASE
    );
    assert_eq!(event_interest_mask(CLICK | QUIT), 32780);
}

#[test]
fn interest_mask_motion_adds_button_motion() {
    assert_eq!(
        event_interest_mask(MOUSE_MOVE),
        EVENT_MASK_EXPOSURE | EVENT_MASK_BUTTON_MOTION
    );
    assert_eq!(event_interest_mask(CLICK | MOUSE_MOVE), 40972);
}
