//! Layout policy: border styling parameters and the pluggable arrangement
//! interface a workspace delegates window geometry to.

use vstd::prelude::*;
use crate::client::ClientWindow;
use crate::command::{layout_commands_only, Command};

verus! {

/// Border attributes of a decoration frame.
#[derive(Debug, Clone, Copy, PartialEq, Eq, Structural)]
pub struct BorderConfig {
    /// Border width in pixels.
    pub width: u32,
    /// Border color as a pixel value.
    pub color: u32,
}

/// Per-workspace layout parameters.
#[derive(Debug, Clone, Copy, PartialEq, Eq, Structural)]
pub struct LayoutConfig {
    /// Size of gaps between windows.
    pub gap_size: u32,
    /// Border style of the focused frame.
    pub border: BorderConfig,
    /// Border style of every other frame.
    pub border_unfocused: BorderConfig,
}

/// An arrangement policy.  After every change to the client stack the
/// workspace hands the policy the full stack and issues whatever geometry
/// changes it returns.  A policy may only reconfigure geometry: it can
/// never unmap, reparent or publish anything.
pub trait LayoutManager: Sized {
    /// The commands this policy emits for a given client stack.
    spec fn spec_config(&self, clients: Seq<ClientWindow>) -> Seq<Command>;

    /// Recompute the arrangement of the given client stack.
    fn config(&self, clients: &Vec<ClientWindow>) -> (cmds: Vec<Command>)
        ensures
            cmds@ == self.spec_config(clients@),
            layout_commands_only(cmds@),
    ;
}

/// The floating arrangement: windows stay where the user put them, so the
/// policy never issues a geometry change of its own.
#[derive(Debug, Clone, Copy, PartialEq, Eq, Structural)]
pub struct FloatingLayoutManager {
}

impl LayoutManager for FloatingLayoutManager {
    open spec fn spec_config(&self, clients: Seq<ClientWindow>) -> Seq<Command> {
        Seq::empty()
    }

    fn config(&self, clients: &Vec<ClientWindow>) -> (cmds: Vec<Command>) {
        let cmds: Vec<Command> = Vec::new();
        proof {
            assert(cmds@ =~= self.spec_config(clients@));
        }
        cmds
    }
}

/// An arrangement policy that does nothing at all.
#[derive(Debug, Clone, Copy, PartialEq, Eq, Structural)]
pub struct BlankLayout {
}

impl LayoutManager for BlankLayout {
    open spec fn spec_config(&self, clients: Seq<ClientWindow>) -> Seq<Command> {
        Seq::empty()
    }

    fn config(&self, clients: &Vec<ClientWindow>) -> (cmds: Vec<Command>) {
        let cmds: Vec<Command> = Vec::new();
        proof {
            assert(cmds@ =~= self.spec_config(clients@));
        }
        cmds
    }
}

} // verus!
