//! One managed client window: the application's window plus the decoration
//! frame this manager wraps around it.

use vstd::prelude::*;
use crate::command::{Command, Geometry};
use crate::layout::BorderConfig;

verus! {

/// A managed window.  `internal` is the application's own window; `frame` is
/// the decoration window this manager created, whose sole child is
/// `internal`.  Because the manager is the only writer of window geometry
/// and border styling, the frame's last requested geometry and border style
/// are tracked here and are the values the interaction handlers work from.
#[derive(Debug, Clone, Copy, PartialEq, Eq, Structural)]
pub struct ClientWindow {
    /// The application window under management.
    pub internal: u32,
    /// The decoration window owning `internal`.
    pub frame: u32,
    /// Geometry last requested for the frame.
    pub geometry: Geometry,
    /// Whether the frame currently wears the focused border style.
    pub focused: bool,
}

impl ClientWindow {
    /// This client with the focus flag replaced.
    pub open spec fn with_focused(self, focused: bool) -> ClientWindow {
        ClientWindow { focused, ..self }
    }

    /// This client with the geometry replaced.
    pub open spec fn with_geometry(self, geometry: Geometry) -> ClientWindow {
        ClientWindow { geometry, ..self }
    }

    /// The commands that adopt an existing window into a freshly created
    /// frame: protect the frame through the save-set, then reparent the
    /// window into it.  The save-set entry must come first, so that a crash
    /// after the reparent can never strand the window inside a dead frame.
    pub open spec fn spec_adopt_commands(window: u32, frame: u32) -> Seq<Command> {
        seq![
            Command::SetSaveSet { window: frame, enabled: true },
            Command::ReparentWindow { window, parent: frame },
        ]
    }

    /// Adopt an existing window: `frame` is a newly created decoration
    /// window already positioned and sized to `geometry`.  Returns the new
    /// client and the commands that wire the two windows together.
    pub fn from_window(window: u32, frame: u32, geometry: Geometry) -> (r: (
        ClientWindow,
        Vec<Command>,
    ))
        ensures
            r.0 == (ClientWindow { internal: window, frame, geometry, focused: false }),
            r.1@ =~= Self::spec_adopt_commands(window, frame),
    {
        let client = ClientWindow { internal: window, frame, geometry, focused: false };
        let mut cmds: Vec<Command> = Vec::new();
        cmds.push(Command::SetSaveSet { window: frame, enabled: true });
        cmds.push(Command::ReparentWindow { window, parent: frame });
        (client, cmds)
    }

    /// The commands that release a client from management.  When `reparent`
    /// holds, the window is handed back to the root before its frame loses
    /// save-set protection and is destroyed; the reparent must come before
    /// the unprotect and the destroy, so the save-set can never race with
    /// the frame teardown and leave the window parentless.  When the window
    /// itself has already been destroyed, `reparent` is false and the dead
    /// identifier is never touched.
    pub open spec fn spec_release_commands(self, root: u32, reparent: bool) -> Seq<Command> {
        let teardown = seq![
            Command::UnmapWindow { window: self.frame },
            Command::SetSaveSet { window: self.frame, enabled: false },
            Command::DestroyWindow { window: self.frame },
        ];
        if reparent {
            seq![Command::ReparentWindow { window: self.internal, parent: root }] + teardown
        } else {
            teardown
        }
    }

    /// Release this client, returning the now unmanaged window identifier
    /// and the teardown commands.
    pub fn destroy(self, root: u32, reparent: bool) -> (r: (u32, Vec<Command>))
        ensures
            r.0 == self.internal,
            r.1@ =~= self.spec_release_commands(root, reparent),
    {
        let mut cmds: Vec<Command> = Vec::new();
        if reparent {
            cmds.push(Command::ReparentWindow { window: self.internal, parent: root });
        }
        cmds.push(Command::UnmapWindow { window: self.frame });
        cmds.push(Command::SetSaveSet { window: self.frame, enabled: false });
        cmds.push(Command::DestroyWindow { window: self.frame });
        (self.internal, cmds)
    }

    /// The commands that restyle this client's frame border.
    pub open spec fn spec_restyle_commands(self, border: BorderConfig) -> Seq<Command> {
        seq![
            Command::SetBorderWidth { window: self.frame, width: border.width },
            Command::SetBorderColor { window: self.frame, color: border.color },
        ]
    }

    /// Apply a border style to the frame only, never the inner window, and
    /// record whether it is the focused style.
    pub fn restyle(&mut self, border: &BorderConfig, focused: bool) -> (cmds: Vec<Command>)
        ensures
            *final(self) == old(self).with_focused(focused),
            cmds@ =~= old(self).spec_restyle_commands(*border),
    {
        self.focused = focused;
        let mut cmds: Vec<Command> = Vec::new();
        cmds.push(Command::SetBorderWidth { window: self.frame, width: border.width });
        cmds.push(Command::SetBorderColor { window: self.frame, color: border.color });
        cmds
    }

    /// The command that raises this client's frame.
    pub open spec fn spec_raise_command(self) -> Command {
        Command::RaiseWindow { window: self.frame }
    }

    /// Ask for the frame to be placed on top of the stacking order.
    pub fn raise(&self) -> (cmd: Command)
        ensures
            cmd == self.spec_raise_command(),
    {
        Command::RaiseWindow { window: self.frame }
    }
}

} // verus!
