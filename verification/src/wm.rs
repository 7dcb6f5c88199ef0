//! The window manager: owns the active workspace and routes each decoded
//! event to its handler.
//!
//! The transport layer around the library performs the startup sequence —
//! connect, install the structural event mask from [`ROOT_EVENT_MASK`],
//! intern the atoms of [`crate::ewmh::required_atom_names`], publish
//! [`WindowManager::initial_hints`], adopt the pre-existing windows under a
//! server grab, and install the grabs listed by [`WindowManager::grabs`] —
//! and then loops: pull one event, hand it to
//! [`WindowManager::handle_event`], perform the returned commands.

use vstd::prelude::*;
use crate::command::{Command, Geometry, GrabSpec, PropertyRequest, PropertyValue};
use crate::config::ActionConfig;
use crate::event::Event;
use crate::ewmh::spec_null_joined;
use crate::input::{spec_button_number, spec_keysym, spec_mask_of};
use crate::layout::LayoutManager;
use crate::workspace::{has_frame, has_internal, Mode, Workspace};

verus! {

/// Event-interest mask the manager installs on the root window: the
/// substructure redirect and notify bits that give it window-manager
/// authority, plus button, motion and property interest.
pub const ROOT_EVENT_MASK: u32 = 0x100000 | 0x80000 | 0x4 | 0x8 | 0x40 | 0x400000;

/// The grabs one configured action asks for: its key binding, then its
/// mouse binding, whichever are present.
pub open spec fn spec_grabs_of(a: ActionConfig) -> Seq<GrabSpec> {
    let keys: Seq<GrabSpec> = match a.keybind {
        Some(k) => seq![
            GrabSpec::Key { keysym: spec_keysym(k.keysym), mask: spec_mask_of(k.modifiers@) },
        ],
        None => Seq::empty(),
    };
    let buttons: Seq<GrabSpec> = match a.mousebind {
        Some(b) => seq![
            GrabSpec::Button {
                button: spec_button_number(b.button),
                mask: spec_mask_of(b.modifiers@),
            },
        ],
        None => Seq::empty(),
    };
    keys + buttons
}

/// Every grab the configuration asks for, in configuration order.
pub open spec fn spec_grabs(actions: Seq<ActionConfig>) -> Seq<GrabSpec>
    decreases actions.len(),
{
    if actions.len() == 0 {
        Seq::empty()
    } else {
        spec_grabs(actions.drop_last()) + spec_grabs_of(actions.last())
    }
}

/// The window manager: the active workspace and the dispatch of decoded
/// events onto it.
pub struct WindowManager<L: LayoutManager> {
    /// The active workspace.  All structural and input events land here.
    pub workspace: Workspace<L>,
}

impl<L: LayoutManager> WindowManager<L> {
    /// The manager invariant: the active workspace's invariant.
    pub open spec fn wf(&self) -> bool {
        self.workspace.wf()
    }

    /// A manager around one workspace.
    pub fn new(workspace: Workspace<L>) -> (r: Self)
        requires
            workspace.wf(),
        ensures
            r.wf(),
            r.workspace == workspace,
    {
        Self { workspace }
    }

    /// The grabs to install on the root window for the configured
    /// bindings, in configuration order.
    pub fn grabs(&self) -> (r: Vec<GrabSpec>)
        ensures
            r@ == spec_grabs(self.workspace.config.actions@),
    {
        let actions = &self.workspace.config.actions;
        let mut r: Vec<GrabSpec> = Vec::new();
        proof {
            assert(actions@.take(0) =~= Seq::<ActionConfig>::empty());
        }
        let mut i: usize = 0;
        while i < actions.len()
            invariant
                i <= actions@.len(),
                actions@ == self.workspace.config.actions@,
                r@ == spec_grabs(actions@.take(i as int)),
            decreases actions@.len() - i,
        {
            proof {
                assert(actions@.take(i + 1).drop_last() =~= actions@.take(i as int));
                assert(actions@.take(i + 1).last() == actions@[i as int]);
            }
            let ghost before = r@;
            match &actions[i].keybind {
                Some(k) => {
                    r.push(GrabSpec::Key { keysym: k.get_keysym().to_keysym(), mask: k.get_mask() });
                },
                None => {},
            }
            match &actions[i].mousebind {
                Some(b) => {
                    r.push(GrabSpec::Button {
                        button: b.get_button().to_number(),
                        mask: b.get_mask(),
                    });
                },
                None => {},
            }
            proof {
                assert(r@ =~= before + spec_grabs_of(actions@[i as int]));
                assert(r@ =~= spec_grabs(actions@.take(i + 1)));
            }
            i = i + 1;
        }
        proof {
            assert(actions@.take(actions@.len() as int) =~= actions@);
        }
        r
    }

    /// The property requests that publish the manager's startup hints:
    /// the supported protocols, its process id and name, no active window
    /// yet, and the desktop count and name — this workspace's tag.
    pub fn initial_hints(&self, name: &str, pid: u32) -> (r: Vec<PropertyRequest>)
        requires
            self.workspace.wf_hints(),
        ensures
            r@.len() == 6,
            r@[0].value matches PropertyValue::Atoms(v) && v@
                == self.workspace.ewmh.spec_net_supported(),
            Some(r@[0].property) == self.workspace.ewmh.spec_atom("_NET_SUPPORTED"@),
            r@[1].value matches PropertyValue::Cardinals(v) && v@ == seq![pid],
            Some(r@[1].property) == self.workspace.ewmh.spec_atom("_NET_WM_PID"@),
            r@[2].value matches PropertyValue::Utf8 { type_atom, data } && data@
                == spec_null_joined(seq![name@]),
            Some(r@[2].property) == self.workspace.ewmh.spec_atom("_NET_WM_NAME"@),
            Some(r@[3].property) == self.workspace.ewmh.spec_atom("_NET_ACTIVE_WINDOW"@),
            r@[3].value matches PropertyValue::Windows(v) && v@ == seq![0u32],
            Some(r@[4].property) == self.workspace.ewmh.spec_atom("_NET_NUMBER_OF_DESKTOPS"@),
            r@[4].value matches PropertyValue::Cardinals(v) && v@ == seq![1u32],
            Some(r@[5].property) == self.workspace.ewmh.spec_atom("_NET_DESKTOP_NAMES"@),
            r@[5].value matches PropertyValue::Utf8 { type_atom, data } && data@
                == spec_null_joined(seq![self.workspace.tag@]),
    {
        let e = &self.workspace.ewmh;
        let mut r: Vec<PropertyRequest> = Vec::new();
        r.push(e.set_supported());
        r.push(e.set_pid(pid));
        r.push(e.set_name(name));
        r.push(e.update_active_window(None));
        let mut desktops: Vec<String> = Vec::new();
        desktops.push(self.workspace.get_name().clone());
        proof {
            assert(desktops.deep_view() =~= seq![self.workspace.tag@]);
        }
        let mut desktop_reqs = e.update_desktops(&desktops);
        r.append(&mut desktop_reqs);
        r
    }

    /// Route one decoded event to its handler and return the commands to
    /// perform.  For a map request of an unmanaged window, `adoption`
    /// carries the freshly created frame and the window's current
    /// geometry; every other event ignores it.
    pub fn handle_event(&mut self, event: &Event, adoption: Option<(u32, Geometry)>) -> (cmds: Vec<
        Command,
    >)
        requires
            old(self).wf(),
            (*event matches Event::WindowMapRequest { window } && !has_internal(
                old(self).workspace.clients@,
                window,
            )) ==> (adoption matches Some((frame, g)) && !has_frame(
                old(self).workspace.clients@,
                frame,
            )),
        ensures
            final(self).wf(),
            match *event {
                Event::WindowCreate { window } => *final(self) == *old(self) && cmds@ == Seq::<
                    Command,
                >::empty(),
                Event::WindowDestroy { window } => Workspace::<L>::spec_remove_post(
                    old(self).workspace,
                    final(self).workspace,
                    cmds@,
                    window,
                    false,
                ),
                Event::WindowUnmap { window } => Workspace::<L>::spec_remove_post(
                    old(self).workspace,
                    final(self).workspace,
                    cmds@,
                    window,
                    true,
                ),
                Event::WindowMapRequest { window } => {
                    if has_internal(old(self).workspace.clients@, window) {
                        *final(self) == *old(self) && cmds@ == Seq::<Command>::empty()
                    } else {
                        Workspace::<L>::spec_push_post(
                            old(self).workspace,
                            final(self).workspace,
                            cmds@,
                            window,
                            adoption->Some_0.0,
                            adoption->Some_0.1,
                        )
                    }
                },
                Event::WindowConfigureRequest {
                    window,
                    x,
                    y,
                    width,
                    height,
                    border_width,
                    sibling,
                    stack_mode,
                } => Workspace::<L>::spec_configure_post(
                    old(self).workspace,
                    final(self).workspace,
                    cmds@,
                    window,
                    Geometry { x, y, width, height },
                    border_width,
                    sibling,
                    stack_mode,
                ),
                Event::ButtonPress { child, detail, state, root_x, root_y } => Workspace::<
                    L,
                >::spec_press_post(
                    old(self).workspace,
                    final(self).workspace,
                    cmds@,
                    child,
                    detail,
                    state,
                    root_x,
                    root_y,
                ),
                Event::ButtonRelease { .. } => {
                    &&& final(self).workspace.mode is Idle
                    &&& final(self).workspace.clients == old(self).workspace.clients
                    &&& final(self).workspace.same_setup(&old(self).workspace)
                    &&& final(self).workspace.last_pointer == old(self).workspace.last_pointer
                    &&& cmds@ == Seq::<Command>::empty()
                },
                Event::PointerMotion { child, root_x, root_y } => Workspace::<
                    L,
                >::spec_motion_post(
                    old(self).workspace,
                    final(self).workspace,
                    cmds@,
                    root_x,
                    root_y,
                ),
                _ => *final(self) == *old(self) && cmds@ == Seq::<Command>::empty(),
            },
    {
        match *event {
            Event::WindowCreate { window } => self.workspace.on_window_create(window),
            Event::WindowDestroy { window } => self.workspace.on_window_destroy(window),
            Event::WindowUnmap { window } => self.workspace.on_window_unmap(window),
            Event::WindowMapRequest { window } => {
                if self.is_managed(window) {
                    let cmds: Vec<Command> = Vec::new();
                    proof {
                        assert(cmds@ =~= Seq::<Command>::empty());
                    }
                    cmds
                } else {
                    let (frame, geometry) = match adoption {
                        Some(p) => p,
                        None => {
                            proof {
                                assert(false);
                            }
                            (0, Geometry { x: 0, y: 0, width: 0, height: 0 })
                        },
                    };
                    self.workspace.window_map_request(window, frame, geometry)
                }
            },
            Event::WindowConfigureRequest {
                window,
                x,
                y,
                width,
                height,
                border_width,
                sibling,
                stack_mode,
            } => self.workspace.window_configure_request(
                window,
                Geometry { x, y, width, height },
                border_width,
                sibling,
                stack_mode,
            ),
            Event::ButtonPress { child, detail, state, root_x, root_y } => self
                .workspace
                .on_button_press(child, detail, state, root_x, root_y),
            Event::ButtonRelease { .. } => self.workspace.on_button_release(),
            Event::PointerMotion { child, root_x, root_y } => self
                .workspace
                .on_pointer_move(root_x, root_y),
            _ => {
                let cmds: Vec<Command> = Vec::new();
                proof {
                    assert(cmds@ =~= Seq::<Command>::empty());
                }
                cmds
            },
        }
    }

    /// A client already manages this window.
    pub fn is_managed(&self, window: u32) -> (r: bool)
        ensures
            r == has_internal(self.workspace.clients@, window),
    {
        let found = self.workspace.find_by_internal(window);
        proof {
            if found is Some {
                let i = found->Some_0 as int;
                assert(self.workspace.clients@[i].internal == window);
            }
        }
        found.is_some()
    }
}

} // verus!
