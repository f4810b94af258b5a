//! Abstract input events, the bar's event-interest mask, and the translation
//! of native protocol events into the abstract stream.

use vstd::prelude::*;

verus! {

/// A pointer click, in root-relative coordinates.
#[derive(Debug, Clone, Copy, PartialEq, Eq, Structural)]
pub struct ClickEvent {
    pub x: i32,
    pub y: i32,
}

/// An abstract event delivered to the bar's callbacks.
#[derive(Debug, Clone, Copy, PartialEq, Eq, Structural)]
pub enum Event {
    MouseDown(ClickEvent),
    MouseUp(ClickEvent),
}

/// Bitmask of event classes a bar declares interest in.
pub type EventTypes = u32;

pub const QUIT: u32 = 1;
pub const CLICK: u32 = 2;
pub const MOUSE_MOVE: u32 = 4;

/// Core-protocol event mask bits, as the wire format defines them.
pub const EVENT_MASK_NO_EVENT: u32 = 0;
pub const EVENT_MASK_BUTTON_PRESS: u32 = 4;
pub const EVENT_MASK_BUTTON_RELEASE: u32 = 8;
pub const EVENT_MASK_BUTTON_MOTION: u32 = 8192;
pub const EVENT_MASK_EXPOSURE: u32 = 32768;

/// A native input event, reduced to the fields the translator reads.
/// Everything the translator does not understand is `Other`.
#[derive(Debug, Clone, Copy, PartialEq, Eq, Structural)]
pub enum RawEvent {
    ButtonPress { root_x: i16, root_y: i16 },
    ButtonRelease { root_x: i16, root_y: i16 },
    Other,
}

/// What the event translator returns for each native event: a button press
/// becomes `MouseDown`, a button release becomes `MouseUp`, and every other
/// native event kind translates to nothing and is dropped upstream.
pub open spec fn translate_spec(ev: RawEvent) -> Option<Event> {
    match ev {
        RawEvent::ButtonPress { root_x, root_y } => Some(Event::MouseDown(ClickEvent {
            x: root_x as i32,
            y: root_y as i32,
        })),
        RawEvent::ButtonRelease { root_x, root_y } => Some(Event::MouseUp(ClickEvent {
            x: root_x as i32,
            y: root_y as i32,
        })),
        RawEvent::Other => None,
    }
}

/// Translates one native event into the abstract event stream.
pub fn map_event(ev: &RawEvent) -> (r: Option<Event>)
    ensures
        r == translate_spec(*ev),
{
    match *ev {
        RawEvent::ButtonPress { root_x, root_y } => Some(Event::MouseDown(ClickEvent {
            x: root_x as i32,
            y: root_y as i32,
        })),
        RawEvent::ButtonRelease { root_x, root_y } => Some(Event::MouseUp(ClickEvent {
            x: root_x as i32,
            y: root_y as i32,
        })),
        RawEvent::Other => None,
    }
}

/// The window's event-interest mask for a declared set of event types:
/// always exposure; button press and release only when the bar asked for
/// clicks; button motion only when it asked for pointer movement.
pub open spec fn interest_mask_spec(types: u32) -> u32 {
    let base: u32 = EVENT_MASK_EXPOSURE;
    let with_click: u32 = if types & CLICK != 0 {
        base | EVENT_MASK_BUTTON_PRESS | EVENT_MASK_BUTTON_RELEASE
    } else {
        base
    };
    if types & MOUSE_MOVE != 0 {
        with_click | EVENT_MASK_BUTTON_MOTION
    } else {
        with_click
    }
}

/// Builds the event-interest mask for window creation.
pub fn event_interest_mask(types: u32) -> (r: u32)
    ensures
        r == interest_mask_spec(types),
{
    let base: u32 = EVENT_MASK_EXPOSURE;
    let with_click: u32 = if types & CLICK != 0 {
        base | EVENT_MASK_BUTTON_PRESS | EVENT_MASK_BUTTON_RELEASE
    } else {
        base
    };
    if types & MOUSE_MOVE != 0 {
        with_click | EVENT_MASK_BUTTON_MOTION
    } else {
        with_click
    }
}

} // verus!
