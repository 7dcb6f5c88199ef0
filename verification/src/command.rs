//! Requests the core asks the display transport to perform.
//!
//! The core never talks to the display server itself: every handler returns
//! a list of [`Command`] values, in the order they must be issued, and the
//! transport layer around the library performs them.  This keeps every
//! decision — which windows to reparent, in which order to tear a frame
//! down, what property value to publish — inside verified code.

use vstd::prelude::*;

verus! {

/// Position and size of a window, as the wire carries them: 16-bit signed
/// positions, 16-bit unsigned sizes.
#[derive(Debug, Clone, Copy, PartialEq, Eq, Structural)]
pub struct Geometry {
    /// X position of the top-left corner.
    pub x: i16,
    /// Y position of the top-left corner.
    pub y: i16,
    /// Width, not counting the border.
    pub width: u16,
    /// Height, not counting the border.
    pub height: u16,
}

/// The value a property-replace request publishes, together with the
/// property type it is encoded under.
#[derive(Debug, Clone, PartialEq, Eq)]
pub enum PropertyValue {
    /// A list of atom identifiers.
    Atoms(Vec<u32>),
    /// A list of 32-bit cardinals.
    Cardinals(Vec<u32>),
    /// A list of window identifiers.
    Windows(Vec<u32>),
    /// Null-joined UTF-8 strings, typed by the interned string type atom.
    Utf8 { type_atom: u32, data: Vec<u8> },
}

/// One property-replace request on a window.
#[derive(Debug, Clone, PartialEq, Eq)]
pub struct PropertyRequest {
    /// Window whose property is replaced.
    pub window: u32,
    /// The property to replace.
    pub property: u32,
    /// The new value.
    pub value: PropertyValue,
}

/// One request to the display server.
#[derive(Debug, Clone, PartialEq, Eq)]
pub enum Command {
    /// Make a window visible.
    MapWindow { window: u32 },
    /// Make a window invisible.
    UnmapWindow { window: u32 },
    /// Make `window` a child of `parent`.
    ReparentWindow { window: u32, parent: u32 },
    /// Destroy a window this manager created.
    DestroyWindow { window: u32 },
    /// Add a window to or remove it from the save-set, the server-side
    /// safety net that restores managed windows if this manager dies.
    SetSaveSet { window: u32, enabled: bool },
    /// Move a window to a new position.
    MoveWindow { window: u32, x: i16, y: i16 },
    /// Resize a window.
    ResizeWindow { window: u32, width: u16, height: u16 },
    /// Apply a full configure request: geometry, border, stacking.
    ConfigureWindow {
        window: u32,
        geometry: Geometry,
        border_width: u16,
        sibling: u32,
        stack_mode: u8,
    },
    /// Set the width of a window's decorative border.
    SetBorderWidth { window: u32, width: u32 },
    /// Set the color of a window's decorative border.
    SetBorderColor { window: u32, color: u32 },
    /// Raise a window to the top of the stacking order.
    RaiseWindow { window: u32 },
    /// Replace a property, publishing session state to other clients.
    PublishProperty { request: PropertyRequest },
}

/// One input grab the manager installs on the root window at startup.
#[derive(Debug, Clone, Copy, PartialEq, Eq, Structural)]
pub enum GrabSpec {
    /// Grab a keyboard key: the key symbol and the exact modifier mask.
    Key { keysym: u32, mask: u32 },
    /// Grab a pointer button: the button number and the exact modifier mask.
    Button { button: u8, mask: u32 },
}

impl Command {
    /// True of the commands a layout policy may emit: geometry changes only,
    /// never a structural or property request.
    pub open spec fn is_layout_command(self) -> bool {
        match self {
            Command::MoveWindow { .. } => true,
            Command::ResizeWindow { .. } => true,
            Command::ConfigureWindow { .. } => true,
            _ => false,
        }
    }
}

/// True when every command in the sequence is a layout command.
pub open spec fn layout_commands_only(cmds: Seq<Command>) -> bool {
    forall|i: int| 0 <= i < cmds.len() ==> (#[trigger] cmds[i]).is_layout_command()
}

} // verus!
