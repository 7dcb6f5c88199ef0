//! Events delivered by the display server, and the decoder that turns a raw
//! wire record into the closed, typed union the core works on.

use vstd::prelude::*;

verus! {

/// Wire tag of a key press event.
pub const KEY_PRESS: u8 = 2;

/// Wire tag of a key release event.
pub const KEY_RELEASE: u8 = 3;

/// Wire tag of a button press event.
pub const BUTTON_PRESS: u8 = 4;

/// Wire tag of a button release event.
pub const BUTTON_RELEASE: u8 = 5;

/// Wire tag of a pointer motion event.
pub const MOTION_NOTIFY: u8 = 6;

/// Wire tag of a window creation notification.
pub const CREATE_NOTIFY: u8 = 16;

/// Wire tag of a window destruction notification.
pub const DESTROY_NOTIFY: u8 = 17;

/// Wire tag of a window unmap notification.
pub const UNMAP_NOTIFY: u8 = 18;

/// Wire tag of a map request.
pub const MAP_REQUEST: u8 = 20;

/// Wire tag of a configure request.
pub const CONFIGURE_REQUEST: u8 = 23;

/// One event as it arrives from the display connection: the tag byte and the
/// union of fields the events the manager cares about can carry.  The
/// transport layer fills in the fields that the tagged variant defines and
/// leaves the rest zero; [`decode`] reads only the fields the tag selects.
#[derive(Debug, Clone, Copy, PartialEq, Eq, Structural, Default)]
pub struct RawEvent {
    /// Event tag (the wire's response type).
    pub response_type: u8,
    /// Button number or key code.
    pub detail: u8,
    /// Window the event concerns.
    pub window: u32,
    /// Child window the event concerns (input events report the frame here).
    pub child: u32,
    /// Modifier-key state at the time of the event.
    pub state: u16,
    /// Pointer x coordinate relative to the root window.
    pub root_x: i16,
    /// Pointer y coordinate relative to the root window.
    pub root_y: i16,
    /// Requested x position (configure requests).
    pub x: i16,
    /// Requested y position (configure requests).
    pub y: i16,
    /// Requested width (configure requests).
    pub width: u16,
    /// Requested height (configure requests).
    pub height: u16,
    /// Requested border width (configure requests).
    pub border_width: u16,
    /// Requested sibling in the stacking order (configure requests).
    pub sibling: u32,
    /// Requested stacking mode (configure requests).
    pub stack_mode: u8,
}

/// The closed union of events the manager handles, with plain fields.
#[derive(Debug, Clone, Copy, PartialEq, Eq, Structural)]
pub enum Event {
    /// An event whose tag the manager does not handle.
    Unknown,
    /// A window was created under the root.
    WindowCreate { window: u32 },
    /// A window was destroyed.
    WindowDestroy { window: u32 },
    /// A window asks to be mapped.
    WindowMapRequest { window: u32 },
    /// A window was unmapped.
    WindowUnmap { window: u32 },
    /// A window asks for new geometry.
    WindowConfigureRequest {
        window: u32,
        x: i16,
        y: i16,
        width: u16,
        height: u16,
        border_width: u16,
        sibling: u32,
        stack_mode: u8,
    },
    /// A pointer button went down.
    ButtonPress { child: u32, detail: u8, state: u16, root_x: i16, root_y: i16 },
    /// A pointer button went up.
    ButtonRelease { child: u32, detail: u8, state: u16, root_x: i16, root_y: i16 },
    /// A keyboard key went down.
    KeyPress { window: u32, detail: u8, state: u16 },
    /// A keyboard key went up.
    KeyRelease { window: u32, detail: u8, state: u16 },
    /// The pointer moved.
    PointerMotion { child: u32, root_x: i16, root_y: i16 },
}

/// What [`decode`] yields for a raw record: a validated tag dispatch.
pub open spec fn spec_decode(raw: RawEvent) -> Event {
    if raw.response_type == CREATE_NOTIFY {
        Event::WindowCreate { window: raw.window }
    } else if raw.response_type == DESTROY_NOTIFY {
        Event::WindowDestroy { window: raw.window }
    } else if raw.response_type == MAP_REQUEST {
        Event::WindowMapRequest { window: raw.window }
    } else if raw.response_type == UNMAP_NOTIFY {
        Event::WindowUnmap { window: raw.window }
    } else if raw.response_type == CONFIGURE_REQUEST {
        Event::WindowConfigureRequest {
            window: raw.window,
            x: raw.x,
            y: raw.y,
            width: raw.width,
            height: raw.height,
            border_width: raw.border_width,
            sibling: raw.sibling,
            stack_mode: raw.stack_mode,
        }
    } else if raw.response_type == BUTTON_PRESS {
        Event::ButtonPress {
            child: raw.child,
            detail: raw.detail,
            state: raw.state,
            root_x: raw.root_x,
            root_y: raw.root_y,
        }
    } else if raw.response_type == BUTTON_RELEASE {
        Event::ButtonRelease {
            child: raw.child,
            detail: raw.detail,
            state: raw.state,
            root_x: raw.root_x,
            root_y: raw.root_y,
        }
    } else if raw.response_type == KEY_PRESS {
        Event::KeyPress { window: raw.window, detail: raw.detail, state: raw.state }
    } else if raw.response_type == KEY_RELEASE {
        Event::KeyRelease { window: raw.window, detail: raw.detail, state: raw.state }
    } else if raw.response_type == MOTION_NOTIFY {
        Event::PointerMotion { child: raw.child, root_x: raw.root_x, root_y: raw.root_y }
    } else {
        Event::Unknown
    }
}

/// Decode a raw wire record into the typed event union.  Every tag the
/// manager does not handle becomes [`Event::Unknown`]; no field is read
/// except those the tag selects.
pub fn decode(raw: &RawEvent) -> (r: Event)
    ensures
        r == spec_decode(*raw),
{
    if raw.response_type == CREATE_NOTIFY {
        Event::WindowCreate { window: raw.window }
    } else if raw.response_type == DESTROY_NOTIFY {
        Event::WindowDestroy { window: raw.window }
    } else if raw.response_type == MAP_REQUEST {
        Event::WindowMapRequest { window: raw.window }
    } else if raw.response_type == UNMAP_NOTIFY {
        Event::WindowUnmap { window: raw.window }
    } else if raw.response_type == CONFIGURE_REQUEST {
        Event::WindowConfigureRequest {
            window: raw.window,
            x: raw.x,
            y: raw.y,
            width: raw.width,
            height: raw.height,
            border_width: raw.border_width,
            sibling: raw.sibling,
            stack_mode: raw.stack_mode,
        }
    } else if raw.response_type == BUTTON_PRESS {
        Event::ButtonPress {
            child: raw.child,
            detail: raw.detail,
            state: raw.state,
            root_x: raw.root_x,
            root_y: raw.root_y,
        }
    } else if raw.response_type == BUTTON_RELEASE {
        Event::ButtonRelease {
            child: raw.child,
            detail: raw.detail,
            state: raw.state,
            root_x: raw.root_x,
            root_y: raw.root_y,
        }
    } else if raw.response_type == KEY_PRESS {
        Event::KeyPress { window: raw.window, detail: raw.detail, state: raw.state }
    } else if raw.response_type == KEY_RELEASE {
        Event::KeyRelease { window: raw.window, detail: raw.detail, state: raw.state }
    } else if raw.response_type == MOTION_NOTIFY {
        Event::PointerMotion { child: raw.child, root_x: raw.root_x, root_y: raw.root_y }
    } else {
        Event::Unknown
    }
}

} // verus!
