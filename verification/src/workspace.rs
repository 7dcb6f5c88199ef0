//! The workspace: the focus-ordered stack of managed clients and the
//! interaction state machine that drives it.
//!
//! The stack's front element is the focused client; pushing and focusing
//! reorder the stack, and every mutation republishes the session hints so
//! outside observers never see stale state.  The interaction mode machine
//! turns button and motion events into move and resize command streams.

use vstd::prelude::*;
use crate::actions::ActionType;
use crate::client::ClientWindow;
use crate::command::{Command, Geometry, PropertyValue};
use crate::config::{ActionConfig, Config};
use crate::ewmh::EWMHManager;
use crate::input::{spec_button_number, spec_mask_of};
use crate::layout::LayoutManager;

verus! {

/// Smallest width or height a resize interaction may request: the protocol
/// refuses zero-sized windows, and anything smaller is unusable.
pub const MIN_WINDOW_DIM: u16 = 5;

/// The interaction mode: what pointer motion currently means.  The moving
/// and resizing modes reference the manipulated client by its internal
/// window id — a lookup, not ownership — so a client destroyed mid-drag is
/// detected and drops the machine back to idle.
#[derive(Debug, Clone, Copy, PartialEq, Eq, Structural)]
pub enum Mode {
    /// Pointer motion means nothing.
    Idle,
    /// Pointer motion drags the referenced client's frame.
    Moving { window: u32 },
    /// Pointer motion resizes the referenced client.
    Resizing { window: u32 },
}

/// Some client in the stack owns this internal window id.
pub open spec fn has_internal(s: Seq<ClientWindow>, w: u32) -> bool {
    exists|i: int| 0 <= i < s.len() && (#[trigger] s[i]).internal == w
}

/// Some client in the stack owns this frame id.
pub open spec fn has_frame(s: Seq<ClientWindow>, w: u32) -> bool {
    exists|i: int| 0 <= i < s.len() && (#[trigger] s[i]).frame == w
}

/// The index of the client with this internal window id.
pub open spec fn spec_index_internal(s: Seq<ClientWindow>, w: u32) -> int {
    choose|i: int| 0 <= i < s.len() && (#[trigger] s[i]).internal == w
}

/// The index of the client with this frame id.
pub open spec fn spec_index_frame(s: Seq<ClientWindow>, w: u32) -> int {
    choose|i: int| 0 <= i < s.len() && (#[trigger] s[i]).frame == w
}

/// No two clients share an internal window or a frame.
pub open spec fn distinct_clients(s: Seq<ClientWindow>) -> bool {
    forall|i: int, j: int|
        0 <= i < j < s.len() ==> (#[trigger] s[i]).internal != (#[trigger] s[j]).internal && s[i].frame
            != s[j].frame
}

/// The internal window ids of the stack, front first: the stack order the
/// client-list hint publishes.
pub open spec fn internals(s: Seq<ClientWindow>) -> Seq<u32> {
    s.map_values(|c: ClientWindow| c.internal)
}

/// The stack with its front element's focus flag cleared.
pub open spec fn spec_unfocus_head(s: Seq<ClientWindow>) -> Seq<ClientWindow> {
    if s.len() > 0 {
        s.update(0, s[0].with_focused(false))
    } else {
        s
    }
}

/// The stack after focusing the client at index `i`: that client moves to
/// the front wearing the focused style, and the previous front element — if
/// any remains behind it — loses it.
pub open spec fn spec_focus_model(s: Seq<ClientWindow>, i: int) -> Seq<ClientWindow> {
    seq![s[i].with_focused(true)] + spec_unfocus_head(s.remove(i))
}

/// The stack after pushing a new client: it lands in front, focused, and
/// the previous front element loses the focused style.
pub open spec fn spec_push_model(s: Seq<ClientWindow>, c: ClientWindow) -> Seq<ClientWindow> {
    seq![c.with_focused(true)] + spec_unfocus_head(s)
}

/// The stack after removing the client at index `i`: when the front
/// element leaves, the next one takes the focused style.
pub open spec fn spec_remove_model(s: Seq<ClientWindow>, i: int) -> Seq<ClientWindow> {
    let rest = s.remove(i);
    if i == 0 && rest.len() > 0 {
        rest.update(0, rest[0].with_focused(true))
    } else {
        rest
    }
}

/// `c` publishes the client-list hint with exactly these window ids.
pub open spec fn is_client_list_publish(c: Command, e: EWMHManager, ids: Seq<u32>) -> bool {
    &&& c is PublishProperty
    &&& c->PublishProperty_request.window == e.spec_root()
    &&& Some(c->PublishProperty_request.property) == e.spec_atom("_NET_CLIENT_LIST"@)
    &&& c->PublishProperty_request.value matches PropertyValue::Windows(v) && v@ == ids
}

/// `c` publishes the active-window hint for this window (`None` publishes
/// the protocol's null window).
pub open spec fn is_active_publish(c: Command, e: EWMHManager, active: Option<u32>) -> bool {
    &&& c is PublishProperty
    &&& c->PublishProperty_request.window == e.spec_root()
    &&& Some(c->PublishProperty_request.property) == e.spec_atom("_NET_ACTIVE_WINDOW"@)
    &&& c->PublishProperty_request.value matches PropertyValue::Windows(v) && v@ == seq![
        match active {
            Some(w) => w,
            None => 0u32,
        },
    ]
}

/// The command stream publishes the client-list hint, and every client-list
/// publication in it carries exactly these ids — so after the stream is
/// performed, the published list equals `ids`.
pub open spec fn client_list_consistent(cmds: Seq<Command>, e: EWMHManager, ids: Seq<u32>) -> bool {
    &&& exists|i: int| 0 <= i < cmds.len() && is_client_list_publish(#[trigger] cmds[i], e, ids)
    &&& forall|i: int|
        0 <= i < cmds.len() && (#[trigger] cmds[i]) is PublishProperty && Some(
            cmds[i]->PublishProperty_request.property,
        ) == e.spec_atom("_NET_CLIENT_LIST"@) ==> is_client_list_publish(cmds[i], e, ids)
}

/// One virtual desktop: a focus-ordered stack of managed clients, the
/// interaction mode machine, and the hint publisher.
pub struct Workspace<L: LayoutManager> {
    /// Name of the workspace.
    pub tag: String,
    /// The managed clients, focused client first, then in decreasing focus
    /// recency.
    pub clients: Vec<ClientWindow>,
    /// The bindings and layout parameters.
    pub config: Config,
    /// The arrangement policy geometry is delegated to.
    pub layout_manager: L,
    /// The session root window: parent of every frame, target of released
    /// clients.
    pub root: u32,
    /// The hint publisher and atom cache.
    pub ewmh: EWMHManager,
    /// Last observed pointer position, the base of the next motion delta.
    pub last_pointer: (i16, i16),
    /// The interaction mode.
    pub mode: Mode,
}

impl<L: LayoutManager> Workspace<L> {
    /// No two clients share a window id.
    pub open spec fn wf_ids(&self) -> bool {
        distinct_clients(self.clients@)
    }

    /// The front client, if any, wears the focused style; every other
    /// client does not.
    pub open spec fn wf_focus(&self) -> bool {
        &&& self.clients@.len() > 0 ==> self.clients@[0].focused
        &&& forall|i: int| 1 <= i < self.clients@.len() ==> !(#[trigger] self.clients@[i]).focused
    }

    /// A non-idle mode references a client that is still in the stack.
    pub open spec fn wf_mode(&self) -> bool {
        match self.mode {
            Mode::Idle => true,
            Mode::Moving { window } => has_internal(self.clients@, window),
            Mode::Resizing { window } => has_internal(self.clients@, window),
        }
    }

    /// The hint publisher has every atom it needs, and the two hints the
    /// stack mutators publish live under different atoms, as the server
    /// guarantees for distinct names.
    pub open spec fn wf_hints(&self) -> bool {
        &&& self.ewmh.wf()
        &&& self.ewmh.has_hint_atoms()
        &&& self.ewmh.spec_atom("_NET_ACTIVE_WINDOW"@) != self.ewmh.spec_atom("_NET_CLIENT_LIST"@)
    }

    /// The workspace invariant.
    pub open spec fn wf(&self) -> bool {
        &&& self.wf_ids()
        &&& self.wf_focus()
        &&& self.wf_mode()
        &&& self.wf_hints()
    }

    /// Everything except the client stack, the mode and the pointer is
    /// unchanged.
    pub open spec fn same_setup(&self, other: &Self) -> bool {
        &&& self.tag == other.tag
        &&& self.config == other.config
        &&& self.layout_manager == other.layout_manager
        &&& self.root == other.root
        &&& self.ewmh == other.ewmh
    }

    /// A new, empty workspace.
    pub fn new(tag: String, config: Config, layout_manager: L, root: u32, ewmh: EWMHManager) -> (r:
        Self)
        requires
            ewmh.wf(),
            ewmh.has_hint_atoms(),
            ewmh.spec_atom("_NET_ACTIVE_WINDOW"@) != ewmh.spec_atom("_NET_CLIENT_LIST"@),
        ensures
            r.wf(),
            r.tag == tag,
            r.clients@ =~= Seq::<ClientWindow>::empty(),
            r.config == config,
            r.layout_manager == layout_manager,
            r.root == root,
            r.ewmh == ewmh,
            r.last_pointer == (0i16, 0i16),
            r.mode is Idle,
    {
        Self {
            tag,
            clients: Vec::new(),
            config,
            layout_manager,
            root,
            ewmh,
            last_pointer: (0, 0),
            mode: Mode::Idle,
        }
    }

    /// Name of the workspace.
    pub fn get_name(&self) -> (r: &String)
        ensures
            r == self.tag,
    {
        &self.tag
    }

    /// The managed clients, focused client first.
    pub fn get_clients(&self) -> (r: &Vec<ClientWindow>)
        ensures
            r == self.clients,
    {
        &self.clients
    }

    /// Position of the client managing this internal window, if any: the
    /// first index whose client owns `window`.
    pub fn find_by_internal(&self, window: u32) -> (r: Option<usize>)
        ensures
            match r {
                Some(i) => i < self.clients@.len() && self.clients@[i as int].internal == window
                    && forall|j: int|
                    0 <= j < i ==> (#[trigger] self.clients@[j]).internal != window,
                None => !has_internal(self.clients@, window),
            },
    {
        let mut i: usize = 0;
        while i < self.clients.len()
            invariant
                i <= self.clients@.len(),
                forall|j: int| 0 <= j < i ==> (#[trigger] self.clients@[j]).internal != window,
            decreases self.clients@.len() - i,
        {
            if self.clients[i].internal == window {
                return Some(i);
            }
            i = i + 1;
        }
        None
    }

    /// Position of the client whose frame is this window, if any.  Input
    /// events report the frame — the window that received the click —
    /// while structural events report the application window, so both
    /// lookups are needed.
    pub fn find_by_frame(&self, window: u32) -> (r: Option<usize>)
        ensures
            match r {
                Some(i) => i < self.clients@.len() && self.clients@[i as int].frame == window
                    && forall|j: int| 0 <= j < i ==> (#[trigger] self.clients@[j]).frame != window,
                None => !has_frame(self.clients@, window),
            },
    {
        let mut i: usize = 0;
        while i < self.clients.len()
            invariant
                i <= self.clients@.len(),
                forall|j: int| 0 <= j < i ==> (#[trigger] self.clients@[j]).frame != window,
            decreases self.clients@.len() - i,
        {
            if self.clients[i].frame == window {
                return Some(i);
            }
            i = i + 1;
        }
        None
    }

    /// The stack's internal window ids, front first.
    pub fn internal_ids(&self) -> (r: Vec<u32>)
        ensures
            r@ =~= internals(self.clients@),
    {
        let mut ids: Vec<u32> = Vec::new();
        let mut i: usize = 0;
        while i < self.clients.len()
            invariant
                i <= self.clients@.len(),
                ids@ =~= internals(self.clients@).take(i as int),
            decreases self.clients@.len() - i,
        {
            ids.push(self.clients[i].internal);
            i = i + 1;
        }
        ids
    }

    /// The commands a focus change at index `i` emits, before hint
    /// publication: raise the frame, style it focused, and — when another
    /// client remains behind it — style that one unfocused.
    pub open spec fn spec_focus_style_commands(s: Seq<ClientWindow>, i: int, config: Config) -> Seq<
        Command,
    > {
        let m = spec_focus_model(s, i);
        let styled = seq![
            Command::RaiseWindow { window: s[i].frame },
            Command::SetBorderWidth { window: s[i].frame, width: config.layout.border.width },
            Command::SetBorderColor { window: s[i].frame, color: config.layout.border.color },
        ];
        if m.len() > 1 {
            styled + seq![
                Command::SetBorderWidth {
                    window: m[1].frame,
                    width: config.layout.border_unfocused.width,
                },
                Command::SetBorderColor {
                    window: m[1].frame,
                    color: config.layout.border_unfocused.color,
                },
            ]
        } else {
            styled
        }
    }

    /// The stack reordering and command stream of a focus change: the
    /// stack is reordered by [`spec_focus_model`] and the commands are the
    /// styling stream followed by the two hint publications.
    pub open spec fn spec_focus_effect(
        old_ws: Self,
        new_clients: Seq<ClientWindow>,
        cmds: Seq<Command>,
        window: u32,
    ) -> bool {
        let i = spec_index_internal(old_ws.clients@, window);
        let style = Self::spec_focus_style_commands(old_ws.clients@, i, old_ws.config);
        &&& new_clients == spec_focus_model(old_ws.clients@, i)
        &&& cmds.len() == style.len() + 2
        &&& cmds.take(style.len() as int) == style
        &&& is_active_publish(cmds[cmds.len() - 2], old_ws.ewmh, Some(window))
        &&& is_client_list_publish(cmds[cmds.len() - 1], old_ws.ewmh, internals(new_clients))
        &&& client_list_consistent(cmds, old_ws.ewmh, internals(new_clients))
    }

    /// What [`Workspace::focus_update`] does: the focus effect, with the
    /// mode and the pointer untouched.
    pub open spec fn spec_focus_post(
        old_ws: Self,
        new_ws: Self,
        cmds: Seq<Command>,
        window: u32,
    ) -> bool {
        &&& Self::spec_focus_effect(old_ws, new_ws.clients@, cmds, window)
        &&& new_ws.same_setup(&old_ws)
        &&& new_ws.mode == old_ws.mode
        &&& new_ws.last_pointer == old_ws.last_pointer
    }

    /// Move the client owning `window` to the front of the stack, give it
    /// the focused border style, strip the style from the client it
    /// displaces, and republish the active-window and client-list hints.
    /// This is the sole mutator of focus order.
    pub fn focus_update(&mut self, window: u32) -> (cmds: Vec<Command>)
        requires
            old(self).wf_ids(),
            old(self).wf_mode(),
            old(self).wf_hints(),
            has_internal(old(self).clients@, window),
            forall|j: int|
                1 <= j < old(self).clients@.len() && (#[trigger] old(
                    self,
                ).clients@[j]).internal != window ==> !old(self).clients@[j].focused,
        ensures
            final(self).wf(),
            Self::spec_focus_post(*old(self), *final(self), cmds@, window),
    {
        let i = match self.find_by_internal(window) {
            Some(i) => i,
            None => {
                proof {
                    assert(false);
                }
                0
            },
        };
        proof {
            let s = self.clients@;
            let k = spec_index_internal(s, window);
            assert(0 <= k < s.len() && s[k].internal == window);
            if k != i {
                assert(s[i as int].internal != s[k].internal);
            }
        }
        let mut c = self.clients.remove(i);
        let mut cmds: Vec<Command> = Vec::new();
        cmds.push(c.raise());
        let mut style = c.restyle(&self.config.layout.border, true);
        cmds.append(&mut style);
        self.clients.insert(0, c);
        if self.clients.len() > 1 {
            let mut d = self.clients.remove(1);
            let mut unstyle = d.restyle(&self.config.layout.border_unfocused, false);
            self.clients.insert(1, d);
            cmds.append(&mut unstyle);
        }
        proof {
            let old_s = old(self).clients@;
            assert(self.clients@ =~= spec_focus_model(old_s, i as int));
        }
        let ids = self.internal_ids();
        let active = self.ewmh.update_active_window(Some(window));
        cmds.push(Command::PublishProperty { request: active });
        let list = self.ewmh.update_client_list(&ids);
        cmds.push(Command::PublishProperty { request: list });
        proof {
            let old_s = old(self).clients@;
            let ii = i as int;
            let style_cmds = Self::spec_focus_style_commands(old_s, ii, old(self).config);
            assert(cmds@.take(style_cmds.len() as int) =~= style_cmds);
            lemma_focus_model_wf(old_s, ii);
            assert(is_client_list_publish(
                cmds@[cmds@.len() - 1],
                old(self).ewmh,
                internals(self.clients@),
            ));
        }
        cmds
    }

    /// Whether the mode references this internal window.
    pub open spec fn mode_references(m: Mode, w: u32) -> bool {
        match m {
            Mode::Idle => false,
            Mode::Moving { window } => window == w,
            Mode::Resizing { window } => window == w,
        }
    }

    /// What [`Workspace::push`] does: the window is adopted into its frame,
    /// both are mapped, the new client takes the focus, the arrangement is
    /// recomputed, and the hints are republished.
    pub open spec fn spec_push_post(
        old_ws: Self,
        new_ws: Self,
        cmds: Seq<Command>,
        window: u32,
        frame: u32,
        geometry: Geometry,
    ) -> bool {
        let c = ClientWindow { internal: window, frame, geometry, focused: false };
        let mid = old_ws.clients@.push(c);
        let style = Self::spec_focus_style_commands(mid, mid.len() - 1, old_ws.config);
        let lay = old_ws.layout_manager.spec_config(new_ws.clients@);
        &&& new_ws.clients@ == spec_push_model(old_ws.clients@, c)
        &&& new_ws.same_setup(&old_ws)
        &&& new_ws.mode == old_ws.mode
        &&& new_ws.last_pointer == old_ws.last_pointer
        &&& cmds.len() == 4 + style.len() + 2 + lay.len()
        &&& cmds.take(4) == ClientWindow::spec_adopt_commands(window, frame) + seq![
            Command::MapWindow { window: frame },
            Command::MapWindow { window },
        ]
        &&& cmds.subrange(4, 4 + style.len() as int) == style
        &&& is_active_publish(cmds[4 + style.len() as int], old_ws.ewmh, Some(window))
        &&& is_client_list_publish(
            cmds[4 + style.len() as int + 1],
            old_ws.ewmh,
            internals(new_ws.clients@),
        )
        &&& cmds.skip(4 + style.len() as int + 2) == lay
        &&& client_list_consistent(cmds, old_ws.ewmh, internals(new_ws.clients@))
    }

    /// Adopt a window onto the stack and focus it.  `frame` is the freshly
    /// created decoration window, already positioned and sized to the
    /// window's geometry; the commands wire them together, map frame then
    /// window, restyle the borders, rearrange, and republish the hints.
    pub fn push(&mut self, window: u32, frame: u32, geometry: Geometry) -> (cmds: Vec<Command>)
        requires
            old(self).wf(),
            !has_internal(old(self).clients@, window),
            !has_frame(old(self).clients@, frame),
        ensures
            final(self).wf(),
            Self::spec_push_post(*old(self), *final(self), cmds@, window, frame, geometry),
    {
        let ghost old_s = self.clients@;
        let (c, mut cmds) = ClientWindow::from_window(window, frame, geometry);
        cmds.push(Command::MapWindow { window: frame });
        cmds.push(Command::MapWindow { window });
        self.clients.push(c);
        let ghost mid = self.clients@;
        proof {
            assert forall|j: int| 0 <= j < old_s.len() implies (#[trigger] old_s[j]).internal
                != window && old_s[j].frame != frame by {
                if old_s[j].internal == window {
                    assert(has_internal(old_s, window));
                }
                if old_s[j].frame == frame {
                    assert(has_frame(old_s, frame));
                }
            }
            assert(distinct_clients(mid));
            assert forall|w: u32| has_internal(old_s, w) implies #[trigger] has_internal(
                mid,
                w,
            ) by {
                let k = choose|k: int| 0 <= k < old_s.len() && (#[trigger] old_s[k]).internal == w;
                assert(mid[k].internal == w);
            }
            assert(has_internal(mid, window)) by {
                assert(mid[mid.len() - 1].internal == window);
            }
        }
        let mut focus_cmds = self.focus_update(window);
        proof {
            let i = spec_index_internal(mid, window);
            assert(0 <= i < mid.len() && mid[i].internal == window);
            if i != mid.len() - 1 {
                assert(old_s[i].internal == window);
                assert(has_internal(old_s, window));
            }
            assert(i == mid.len() - 1);
            assert(mid.remove(mid.len() - 1) =~= old_s);
            assert(spec_focus_model(mid, i) =~= spec_push_model(old_s, c));
        }
        cmds.append(&mut focus_cmds);
        let mut lay = self.layout_manager.config(&self.clients);
        cmds.append(&mut lay);
        proof {
            let e = old(self).ewmh;
            let ids = internals(self.clients@);
            let style = Self::spec_focus_style_commands(mid, mid.len() - 1, old(self).config);
            assert(cmds@.take(4) =~= ClientWindow::spec_adopt_commands(window, frame) + seq![
                Command::MapWindow { window: frame },
                Command::MapWindow { window },
            ]);
            assert(cmds@.subrange(4, 4 + style.len() as int) =~= style);
            assert(cmds@.skip(4 + style.len() as int + 2) =~= old(self).layout_manager.spec_config(
                self.clients@,
            ));
            let w = 4 + style.len() as int + 1;
            assert(is_client_list_publish(cmds@[w], e, ids));
            assert forall|k: int|
                0 <= k < cmds@.len() && (#[trigger] cmds@[k]) is PublishProperty && Some(
                    cmds@[k]->PublishProperty_request.property,
                ) == e.spec_atom("_NET_CLIENT_LIST"@) implies is_client_list_publish(
                cmds@[k],
                e,
                ids,
            ) by {
                if k >= 4 + style.len() + 2 {
                    assert(cmds@[k].is_layout_command());
                } else if 4 <= k < 4 + style.len() {
                    assert(cmds@[k] == style[k - 4]);
                }
            }
        }
        cmds
    }

    /// What [`Workspace::remove`] does: nothing when the window is not
    /// managed; otherwise its client leaves the stack and is released, the
    /// next client takes the focus style if the focused one left, a mode
    /// referencing the departed client falls back to idle, the arrangement
    /// is recomputed and the client list republished.
    pub open spec fn spec_remove_post(
        old_ws: Self,
        new_ws: Self,
        cmds: Seq<Command>,
        window: u32,
        graceful: bool,
    ) -> bool {
        if !has_internal(old_ws.clients@, window) {
            &&& new_ws == old_ws
            &&& cmds == Seq::<Command>::empty()
        } else {
            let i = spec_index_internal(old_ws.clients@, window);
            let c = old_ws.clients@[i];
            let release = c.spec_release_commands(old_ws.root, graceful);
            let model = spec_remove_model(old_ws.clients@, i);
            let restyle: Seq<Command> = if i == 0 && model.len() > 0 {
                seq![
                    Command::SetBorderWidth {
                        window: model[0].frame,
                        width: old_ws.config.layout.border.width,
                    },
                    Command::SetBorderColor {
                        window: model[0].frame,
                        color: old_ws.config.layout.border.color,
                    },
                ]
            } else {
                Seq::empty()
            };
            let lay = old_ws.layout_manager.spec_config(model);
            &&& new_ws.clients@ == model
            &&& new_ws.same_setup(&old_ws)
            &&& new_ws.last_pointer == old_ws.last_pointer
            &&& new_ws.mode == if Self::mode_references(old_ws.mode, window) {
                Mode::Idle
            } else {
                old_ws.mode
            }
            &&& cmds.len() == release.len() + restyle.len() + lay.len() + 1
            &&& cmds.take(release.len() as int) == release
            &&& cmds.subrange(release.len() as int, (release.len() + restyle.len()) as int)
                == restyle
            &&& cmds.subrange(
                (release.len() + restyle.len()) as int,
                cmds.len() - 1,
            ) == lay
            &&& is_client_list_publish(cmds.last(), old_ws.ewmh, internals(model))
            &&& client_list_consistent(cmds, old_ws.ewmh, internals(model))
        }
    }

    /// Remove the client managing `window` from the stack, if any, and
    /// release it.  `graceful` says the window still exists, so it is
    /// reparented back to the root; a destroyed window is released without
    /// touching its dead identifier.
    pub fn remove(&mut self, window: u32, graceful: bool) -> (cmds: Vec<Command>)
        requires
            old(self).wf(),
        ensures
            final(self).wf(),
            Self::spec_remove_post(*old(self), *final(self), cmds@, window, graceful),
    {
        let ghost old_s = self.clients@;
        let i = match self.find_by_internal(window) {
            Some(i) => i,
            None => {
                let cmds: Vec<Command> = Vec::new();
                proof {
                    assert(cmds@ =~= Seq::<Command>::empty());
                }
                return cmds;
            },
        };
        proof {
            let k = spec_index_internal(old_s, window);
            assert(0 <= k < old_s.len() && old_s[k].internal == window) by {
                assert(old_s[i as int].internal == window);
            }
            if k != i {
                assert(old_s[i as int].internal != old_s[k].internal);
            }
        }
        let c = self.clients.remove(i);
        let (_, mut cmds) = c.destroy(self.root, graceful);
        if i == 0 && self.clients.len() > 0 {
            let mut d = self.clients.remove(0);
            let mut st = d.restyle(&self.config.layout.border, true);
            self.clients.insert(0, d);
            cmds.append(&mut st);
        }
        let reset = match self.mode {
            Mode::Idle => false,
            Mode::Moving { window: w } => w == window,
            Mode::Resizing { window: w } => w == window,
        };
        if reset {
            self.mode = Mode::Idle;
        }
        proof {
            assert(self.clients@ =~= spec_remove_model(old_s, i as int));
            lemma_remove_model_wf(old_s, i as int);
        }
        let mut lay = self.layout_manager.config(&self.clients);
        cmds.append(&mut lay);
        let ids = self.internal_ids();
        let req = self.ewmh.update_client_list(&ids);
        cmds.push(Command::PublishProperty { request: req });
        proof {
            let e = old(self).ewmh;
            let model = spec_remove_model(old_s, i as int);
            let idvals = internals(model);
            let release = old_s[i as int].spec_release_commands(old(self).root, graceful);
            let restyle: Seq<Command> = if i == 0 && model.len() > 0 {
                seq![
                    Command::SetBorderWidth {
                        window: model[0].frame,
                        width: old(self).config.layout.border.width,
                    },
                    Command::SetBorderColor {
                        window: model[0].frame,
                        color: old(self).config.layout.border.color,
                    },
                ]
            } else {
                Seq::empty()
            };
            let lay_spec = old(self).layout_manager.spec_config(model);
            assert(cmds@.take(release.len() as int) =~= release);
            assert(cmds@.subrange(release.len() as int, (release.len() + restyle.len()) as int)
                =~= restyle);
            assert(cmds@.subrange((release.len() + restyle.len()) as int, cmds@.len() - 1)
                =~= lay_spec);
            assert(is_client_list_publish(cmds@.last(), e, idvals));
            assert forall|k: int|
                0 <= k < cmds@.len() && (#[trigger] cmds@[k]) is PublishProperty && Some(
                    cmds@[k]->PublishProperty_request.property,
                ) == e.spec_atom("_NET_CLIENT_LIST"@) implies is_client_list_publish(
                cmds@[k],
                e,
                idvals,
            ) by {
                if k < release.len() {
                    assert(cmds@[k] == release[k]);
                } else if k < release.len() + restyle.len() {
                    assert(cmds@[k] == restyle[k - release.len()]);
                } else if k < cmds@.len() - 1 {
                    assert(cmds@[k] == lay_spec[k - release.len() - restyle.len()]);
                    assert(cmds@[k].is_layout_command());
                }
            }
            if !Self::mode_references(old(self).mode, window) {
                match old(self).mode {
                    Mode::Idle => {},
                    Mode::Moving { window: w } => {
                        assert(has_internal(model, w));
                    },
                    Mode::Resizing { window: w } => {
                        assert(has_internal(model, w));
                    },
                }
            }
        }
        cmds
    }

    /// The commands that map every client's frame, back of the stack
    /// first, so the focused client ends up on top.
    pub open spec fn spec_show_commands(s: Seq<ClientWindow>) -> Seq<Command> {
        Seq::new(s.len(), |k: int| Command::MapWindow { window: s[s.len() - 1 - k].frame })
    }

    /// The commands that unmap every client's frame, back of the stack
    /// first.
    pub open spec fn spec_hide_commands(s: Seq<ClientWindow>) -> Seq<Command> {
        Seq::new(s.len(), |k: int| Command::UnmapWindow { window: s[s.len() - 1 - k].frame })
    }

    /// Map every client of this workspace, in reverse stack order, and
    /// republish the client list.
    pub fn show(&self) -> (cmds: Vec<Command>)
        requires
            self.wf_hints(),
        ensures
            cmds@.len() == self.clients@.len() + 1,
            cmds@.take(self.clients@.len() as int) == Self::spec_show_commands(self.clients@),
            is_client_list_publish(cmds@.last(), self.ewmh, internals(self.clients@)),
            client_list_consistent(cmds@, self.ewmh, internals(self.clients@)),
    {
        let mut cmds: Vec<Command> = Vec::new();
        let mut i: usize = self.clients.len();
        while i > 0
            invariant
                i <= self.clients@.len(),
                cmds@.len() == self.clients@.len() - i,
                forall|k: int|
                    0 <= k < cmds@.len() ==> cmds@[k] == Self::spec_show_commands(
                        self.clients@,
                    )[k],
            decreases i,
        {
            i = i - 1;
            cmds.push(Command::MapWindow { window: self.clients[i].frame });
        }
        let ids = self.internal_ids();
        let req = self.ewmh.update_client_list(&ids);
        cmds.push(Command::PublishProperty { request: req });
        proof {
            assert(cmds@.take(self.clients@.len() as int) =~= Self::spec_show_commands(
                self.clients@,
            ));
        }
        cmds
    }

    /// Unmap every client of this workspace, in reverse stack order, and
    /// republish the client list.
    pub fn hide_all(&self) -> (cmds: Vec<Command>)
        requires
            self.wf_hints(),
        ensures
            cmds@.len() == self.clients@.len() + 1,
            cmds@.take(self.clients@.len() as int) == Self::spec_hide_commands(self.clients@),
            is_client_list_publish(cmds@.last(), self.ewmh, internals(self.clients@)),
            client_list_consistent(cmds@, self.ewmh, internals(self.clients@)),
    {
        let mut cmds: Vec<Command> = Vec::new();
        let mut i: usize = self.clients.len();
        while i > 0
            invariant
                i <= self.clients@.len(),
                cmds@.len() == self.clients@.len() - i,
                forall|k: int|
                    0 <= k < cmds@.len() ==> cmds@[k] == Self::spec_hide_commands(
                        self.clients@,
                    )[k],
            decreases i,
        {
            i = i - 1;
            cmds.push(Command::UnmapWindow { window: self.clients[i].frame });
        }
        let ids = self.internal_ids();
        let req = self.ewmh.update_client_list(&ids);
        cmds.push(Command::PublishProperty { request: req });
        proof {
            assert(cmds@.take(self.clients@.len() as int) =~= Self::spec_hide_commands(
                self.clients@,
            ));
        }
        cmds
    }

    /// Handle a map request: adopt the window unless a client for it
    /// already exists — a duplicate request changes nothing and emits
    /// nothing, so the same window can never be adopted twice.
    pub fn window_map_request(&mut self, window: u32, frame: u32, geometry: Geometry) -> (cmds:
        Vec<Command>)
        requires
            old(self).wf(),
            has_internal(old(self).clients@, window) || (!has_internal(old(self).clients@, window)
                && !has_frame(old(self).clients@, frame)),
        ensures
            final(self).wf(),
            has_internal(old(self).clients@, window) ==> *final(self) == *old(self) && cmds@
                == Seq::<Command>::empty(),
            !has_internal(old(self).clients@, window) ==> Self::spec_push_post(
                *old(self),
                *final(self),
                cmds@,
                window,
                frame,
                geometry,
            ),
    {
        if self.find_by_internal(window).is_none() {
            self.push(window, frame, geometry)
        } else {
            let cmds: Vec<Command> = Vec::new();
            proof {
                assert(cmds@ =~= Seq::<Command>::empty());
            }
            cmds
        }
    }

    /// A window was created under the root: nothing to do until it asks to
    /// be mapped.
    pub fn on_window_create(&self, window: u32) -> (cmds: Vec<Command>)
        ensures
            cmds@ == Seq::<Command>::empty(),
    {
        let cmds: Vec<Command> = Vec::new();
        proof {
            assert(cmds@ =~= Seq::<Command>::empty());
        }
        cmds
    }

    /// A window was destroyed: release its client, skipping the reparent —
    /// the identifier is dead and must not be touched.
    pub fn on_window_destroy(&mut self, window: u32) -> (cmds: Vec<Command>)
        requires
            old(self).wf(),
        ensures
            final(self).wf(),
            Self::spec_remove_post(*old(self), *final(self), cmds@, window, false),
    {
        self.remove(window, false)
    }

    /// A window unmapped itself: release its client gracefully, handing
    /// the still-existing window back to the root.
    pub fn on_window_unmap(&mut self, window: u32) -> (cmds: Vec<Command>)
        requires
            old(self).wf(),
        ensures
            final(self).wf(),
            Self::spec_remove_post(*old(self), *final(self), cmds@, window, true),
    {
        self.remove(window, true)
    }

    /// What [`Workspace::window_configure_request`] does: the requested
    /// geometry goes to the window, and when a client manages it, the same
    /// change goes to its frame first and is recorded as the frame's
    /// geometry.
    pub open spec fn spec_configure_post(
        old_ws: Self,
        new_ws: Self,
        cmds: Seq<Command>,
        window: u32,
        geometry: Geometry,
        border_width: u16,
        sibling: u32,
        stack_mode: u8,
    ) -> bool {
        let window_cmd = Command::ConfigureWindow {
            window,
            geometry,
            border_width,
            sibling,
            stack_mode,
        };
        &&& new_ws.same_setup(&old_ws)
        &&& new_ws.mode == old_ws.mode
        &&& new_ws.last_pointer == old_ws.last_pointer
        &&& if has_internal(old_ws.clients@, window) {
            let i = spec_index_internal(old_ws.clients@, window);
            &&& new_ws.clients@ == old_ws.clients@.update(
                i,
                old_ws.clients@[i].with_geometry(geometry),
            )
            &&& cmds == seq![
                Command::ConfigureWindow {
                    window: old_ws.clients@[i].frame,
                    geometry,
                    border_width,
                    sibling,
                    stack_mode,
                },
                window_cmd,
            ]
        } else {
            &&& new_ws.clients@ == old_ws.clients@
            &&& cmds == seq![window_cmd]
        }
    }

    /// Handle a configure request: forward the requested geometry to the
    /// managed window, and keep its frame in step so the border stays
    /// correctly sized around the content.
    pub fn window_configure_request(
        &mut self,
        window: u32,
        geometry: Geometry,
        border_width: u16,
        sibling: u32,
        stack_mode: u8,
    ) -> (cmds: Vec<Command>)
        requires
            old(self).wf(),
        ensures
            final(self).wf(),
            Self::spec_configure_post(
                *old(self),
                *final(self),
                cmds@,
                window,
                geometry,
                border_width,
                sibling,
                stack_mode,
            ),
    {
        let ghost old_s = self.clients@;
        let mut cmds: Vec<Command> = Vec::new();
        match self.find_by_internal(window) {
            Some(i) => {
                proof {
                    let k = spec_index_internal(old_s, window);
                    assert(0 <= k < old_s.len() && old_s[k].internal == window) by {
                        assert(old_s[i as int].internal == window);
                    }
                    if k != i {
                        assert(old_s[i as int].internal != old_s[k].internal);
                    }
                }
                let mut c = self.clients.remove(i);
                cmds.push(Command::ConfigureWindow {
                    window: c.frame,
                    geometry,
                    border_width,
                    sibling,
                    stack_mode,
                });
                c.geometry = geometry;
                self.clients.insert(i, c);
                proof {
                    let i = i as int;
                    assert(self.clients@ =~= old_s.update(
                        i,
                        old_s[i].with_geometry(geometry),
                    ));
                }
            },
            None => {},
        }
        cmds.push(Command::ConfigureWindow { window, geometry, border_width, sibling, stack_mode });
        proof {
            if has_internal(old_s, window) {
                let i = spec_index_internal(old_s, window);
                assert(cmds@ =~= seq![
                    Command::ConfigureWindow {
                        window: old_s[i].frame,
                        geometry,
                        border_width,
                        sibling,
                        stack_mode,
                    },
                    Command::ConfigureWindow { window, geometry, border_width, sibling, stack_mode },
                ]);
            } else {
                assert(cmds@ =~= seq![
                    Command::ConfigureWindow { window, geometry, border_width, sibling, stack_mode },
                ]);
            }
            assert forall|w: u32| has_internal(old_s, w) implies #[trigger] has_internal(
                self.clients@,
                w,
            ) by {
                let k = choose|k: int| 0 <= k < old_s.len() && (#[trigger] old_s[k]).internal == w;
                assert(self.clients@[k].internal == w);
            }
        }
        cmds
    }

    /// The action configuration's mouse binding matches this button and
    /// exact modifier state.
    pub open spec fn spec_mouse_match(a: ActionConfig, detail: u8, state: u16) -> bool {
        match a.mousebind {
            Some(b) => spec_button_number(b.button) == detail && spec_mask_of(b.modifiers@)
                == state as u32,
            None => false,
        }
    }

    /// The first configured action whose mouse binding matches, if any:
    /// configuration order decides ties, so earlier bindings win.
    pub open spec fn spec_find_action(actions: Seq<ActionConfig>, detail: u8, state: u16) -> Option<
        ActionType,
    >
        decreases actions.len(),
    {
        if actions.len() == 0 {
            None
        } else if Self::spec_mouse_match(actions[0], detail, state) {
            Some(actions[0].action)
        } else {
            Self::spec_find_action(actions.drop_first(), detail, state)
        }
    }

    /// Resolve a button press against the configured mouse bindings,
    /// first match wins.
    pub fn find_mouse_action(&self, detail: u8, state: u16) -> (r: Option<ActionType>)
        ensures
            r == Self::spec_find_action(self.config.actions@, detail, state),
    {
        let actions = &self.config.actions;
        proof {
            assert(actions@.skip(0) =~= actions@);
        }
        let mut i: usize = 0;
        while i < actions.len()
            invariant
                i <= actions@.len(),
                actions@ == self.config.actions@,
                Self::spec_find_action(actions@.skip(i as int), detail, state)
                    == Self::spec_find_action(actions@, detail, state),
            decreases actions@.len() - i,
        {
            proof {
                assert(actions@.skip(i as int)[0] == actions@[i as int]);
                assert(actions@.skip(i as int).drop_first() =~= actions@.skip(i + 1));
            }
            let matched = match &actions[i].mousebind {
                Some(b) => b.get_button().to_number() == detail && b.get_mask() == state as u32,
                None => false,
            };
            if matched {
                return Some(actions[i].get_type());
            }
            i = i + 1;
        }
        proof {
            assert(actions@.skip(actions@.len() as int) =~= Seq::<ActionConfig>::empty());
        }
        None
    }

    /// What [`Workspace::on_button_press`] does.  Outside the idle mode, or
    /// on a press that hits no managed frame or matches no binding, nothing
    /// happens.  A press matching a move or resize binding focuses the
    /// client, records the press coordinate as the motion base, and enters
    /// the corresponding mode; a focus binding only focuses.
    pub open spec fn spec_press_post(
        old_ws: Self,
        new_ws: Self,
        cmds: Seq<Command>,
        child: u32,
        detail: u8,
        state: u16,
        root_x: i16,
        root_y: i16,
    ) -> bool {
        if !(old_ws.mode is Idle) || !has_frame(old_ws.clients@, child) {
            &&& new_ws == old_ws
            &&& cmds == Seq::<Command>::empty()
        } else {
            let target = old_ws.clients@[spec_index_frame(old_ws.clients@, child)].internal;
            match Self::spec_find_action(old_ws.config.actions@, detail, state) {
                Some(ActionType::FloatingWindowMove) => {
                    &&& Self::spec_focus_effect(old_ws, new_ws.clients@, cmds, target)
                    &&& new_ws.same_setup(&old_ws)
                    &&& new_ws.mode == (Mode::Moving { window: target })
                    &&& new_ws.last_pointer == (root_x, root_y)
                },
                Some(ActionType::FloatingWindowResize) => {
                    &&& Self::spec_focus_effect(old_ws, new_ws.clients@, cmds, target)
                    &&& new_ws.same_setup(&old_ws)
                    &&& new_ws.mode == (Mode::Resizing { window: target })
                    &&& new_ws.last_pointer == (root_x, root_y)
                },
                Some(ActionType::WindowFocus) => {
                    &&& Self::spec_focus_post(old_ws, new_ws, cmds, target)
                },
                _ => {
                    &&& new_ws == old_ws
                    &&& cmds == Seq::<Command>::empty()
                },
            }
        }
    }

    /// Handle a button press.  The press is resolved against the mouse
    /// bindings only in the idle mode and only when it lands on a managed
    /// frame; the first matching binding in configuration order wins.
    pub fn on_button_press(
        &mut self,
        child: u32,
        detail: u8,
        state: u16,
        root_x: i16,
        root_y: i16,
    ) -> (cmds: Vec<Command>)
        requires
            old(self).wf(),
        ensures
            final(self).wf(),
            Self::spec_press_post(
                *old(self),
                *final(self),
                cmds@,
                child,
                detail,
                state,
                root_x,
                root_y,
            ),
    {
        let ghost old_s = self.clients@;
        let idle = match self.mode {
            Mode::Idle => true,
            _ => false,
        };
        if !idle {
            let cmds: Vec<Command> = Vec::new();
            proof {
                assert(cmds@ =~= Seq::<Command>::empty());
            }
            return cmds;
        }
        let i = match self.find_by_frame(child) {
            Some(i) => i,
            None => {
                let cmds: Vec<Command> = Vec::new();
                proof {
                    assert(cmds@ =~= Seq::<Command>::empty());
                }
                return cmds;
            },
        };
        proof {
            assert(has_frame(old_s, child)) by {
                assert(old_s[i as int].frame == child);
            }
            let k = spec_index_frame(old_s, child);
            assert(0 <= k < old_s.len() && old_s[k].frame == child);
            if k != i {
                assert(old_s[i as int].frame != old_s[k].frame);
            }
        }
        let target = self.clients[i].internal;
        proof {
            assert(has_internal(old_s, target)) by {
                assert(old_s[i as int].internal == target);
            }
        }
        match self.find_mouse_action(detail, state) {
            Some(ActionType::FloatingWindowMove) => {
                let cmds = self.focus_update(target);
                proof {
                    assert(self.clients@[0].internal == target);
                    assert(has_internal(self.clients@, target));
                }
                self.mode = Mode::Moving { window: target };
                self.last_pointer = (root_x, root_y);
                cmds
            },
            Some(ActionType::FloatingWindowResize) => {
                let cmds = self.focus_update(target);
                proof {
                    assert(self.clients@[0].internal == target);
                    assert(has_internal(self.clients@, target));
                }
                self.mode = Mode::Resizing { window: target };
                self.last_pointer = (root_x, root_y);
                cmds
            },
            Some(ActionType::WindowFocus) => self.focus_update(target),
            _ => {
                let cmds: Vec<Command> = Vec::new();
                proof {
                    assert(cmds@ =~= Seq::<Command>::empty());
                }
                cmds
            },
        }
    }

    /// Handle a button release: drop back to the idle mode, whatever
    /// button or modifiers were involved — a stray release can never
    /// strand the machine mid-interaction.
    pub fn on_button_release(&mut self) -> (cmds: Vec<Command>)
        requires
            old(self).wf(),
        ensures
            final(self).wf(),
            final(self).mode is Idle,
            final(self).clients == old(self).clients,
            final(self).same_setup(old(self)),
            final(self).last_pointer == old(self).last_pointer,
            cmds@ == Seq::<Command>::empty(),
    {
        self.mode = Mode::Idle;
        let cmds: Vec<Command> = Vec::new();
        proof {
            assert(cmds@ =~= Seq::<Command>::empty());
        }
        cmds
    }

    /// What [`Workspace::on_pointer_move`] does.  Motion while idle is
    /// ignored.  In the moving mode the frame is asked to move by the
    /// pointer's delta since the last observed position; in the resizing
    /// mode the frame and the window are asked to grow by it, floored at
    /// [`MIN_WINDOW_DIM`].  Deltas accumulate from the last observed
    /// position, which each handled motion updates.  A mode referencing a
    /// client that is gone falls back to idle.
    pub open spec fn spec_motion_post(
        old_ws: Self,
        new_ws: Self,
        cmds: Seq<Command>,
        root_x: i16,
        root_y: i16,
    ) -> bool {
        let dx = root_x - old_ws.last_pointer.0;
        let dy = root_y - old_ws.last_pointer.1;
        match old_ws.mode {
            Mode::Idle => new_ws == old_ws && cmds == Seq::<Command>::empty(),
            Mode::Moving { window } => {
                if !has_internal(old_ws.clients@, window) {
                    &&& new_ws == (Self { mode: Mode::Idle, ..old_ws })
                    &&& cmds == Seq::<Command>::empty()
                } else {
                    let i = spec_index_internal(old_ws.clients@, window);
                    let c = old_ws.clients@[i];
                    let nx = spec_clamp_pos(c.geometry.x + dx);
                    let ny = spec_clamp_pos(c.geometry.y + dy);
                    let g = Geometry {
                        x: nx,
                        y: ny,
                        width: c.geometry.width,
                        height: c.geometry.height,
                    };
                    &&& new_ws.clients@ == old_ws.clients@.update(i, c.with_geometry(g))
                    &&& new_ws.same_setup(&old_ws)
                    &&& new_ws.mode == old_ws.mode
                    &&& new_ws.last_pointer == (root_x, root_y)
                    &&& cmds == seq![Command::MoveWindow { window: c.frame, x: nx, y: ny }]
                }
            },
            Mode::Resizing { window } => {
                if !has_internal(old_ws.clients@, window) {
                    &&& new_ws == (Self { mode: Mode::Idle, ..old_ws })
                    &&& cmds == Seq::<Command>::empty()
                } else {
                    let i = spec_index_internal(old_ws.clients@, window);
                    let c = old_ws.clients@[i];
                    let nw = spec_clamp_dim(c.geometry.width + dx);
                    let nh = spec_clamp_dim(c.geometry.height + dy);
                    let g = Geometry { x: c.geometry.x, y: c.geometry.y, width: nw, height: nh };
                    &&& new_ws.clients@ == old_ws.clients@.update(i, c.with_geometry(g))
                    &&& new_ws.same_setup(&old_ws)
                    &&& new_ws.mode == old_ws.mode
                    &&& new_ws.last_pointer == (root_x, root_y)
                    &&& cmds == seq![
                        Command::ResizeWindow { window: c.frame, width: nw, height: nh },
                        Command::ResizeWindow { window: c.internal, width: nw, height: nh },
                    ]
                }
            },
        }
    }

    /// Handle pointer motion, driving the current move or resize
    /// interaction.
    pub fn on_pointer_move(&mut self, root_x: i16, root_y: i16) -> (cmds: Vec<Command>)
        requires
            old(self).wf(),
        ensures
            final(self).wf(),
            Self::spec_motion_post(*old(self), *final(self), cmds@, root_x, root_y),
    {
        let ghost old_s = self.clients@;
        let (window, resizing) = match self.mode {
            Mode::Idle => {
                let cmds: Vec<Command> = Vec::new();
                proof {
                    assert(cmds@ =~= Seq::<Command>::empty());
                }
                return cmds;
            },
            Mode::Moving { window } => (window, false),
            Mode::Resizing { window } => (window, true),
        };
        let i = match self.find_by_internal(window) {
            Some(i) => i,
            None => {
                self.mode = Mode::Idle;
                let cmds: Vec<Command> = Vec::new();
                proof {
                    assert(cmds@ =~= Seq::<Command>::empty());
                }
                return cmds;
            },
        };
        proof {
            let k = spec_index_internal(old_s, window);
            assert(0 <= k < old_s.len() && old_s[k].internal == window) by {
                assert(old_s[i as int].internal == window);
            }
            if k != i {
                assert(old_s[i as int].internal != old_s[k].internal);
            }
        }
        let mut c = self.clients.remove(i);
        let dx = root_x as i32 - self.last_pointer.0 as i32;
        let dy = root_y as i32 - self.last_pointer.1 as i32;
        let mut cmds: Vec<Command> = Vec::new();
        if resizing {
            let nw = clamp_dim(c.geometry.width as i32 + dx);
            let nh = clamp_dim(c.geometry.height as i32 + dy);
            cmds.push(Command::ResizeWindow { window: c.frame, width: nw, height: nh });
            cmds.push(Command::ResizeWindow { window: c.internal, width: nw, height: nh });
            proof {
                assert(cmds@ =~= seq![
                    Command::ResizeWindow { window: c.frame, width: nw, height: nh },
                    Command::ResizeWindow { window: c.internal, width: nw, height: nh },
                ]);
            }
            c.geometry = Geometry { x: c.geometry.x, y: c.geometry.y, width: nw, height: nh };
        } else {
            let nx = clamp_pos(c.geometry.x as i32 + dx);
            let ny = clamp_pos(c.geometry.y as i32 + dy);
            cmds.push(Command::MoveWindow { window: c.frame, x: nx, y: ny });
            proof {
                assert(cmds@ =~= seq![Command::MoveWindow { window: c.frame, x: nx, y: ny }]);
            }
            c.geometry = Geometry { x: nx, y: ny, width: c.geometry.width, height: c.geometry.height };
        }
        self.clients.insert(i, c);
        self.last_pointer = (root_x, root_y);
        proof {
            let ii = i as int;
            assert(self.clients@ =~= old_s.update(ii, self.clients@[ii]));
            assert(self.clients@[ii].internal == window);
            assert(has_internal(self.clients@, window));
            assert forall|w: u32| has_internal(old_s, w) implies #[trigger] has_internal(
                self.clients@,
                w,
            ) by {
                let k = choose|k: int| 0 <= k < old_s.len() && (#[trigger] old_s[k]).internal == w;
                assert(self.clients@[k].internal == w);
            }
        }
        cmds
    }
}

/// Clamp a computed position to the range the wire can carry.
pub open spec fn spec_clamp_pos(v: int) -> i16 {
    if v < -0x8000 {
        (-0x8000) as i16
    } else if v > 0x7fff {
        0x7fff as i16
    } else {
        v as i16
    }
}

/// Clamp a computed dimension to the representable range, floored at
/// [`MIN_WINDOW_DIM`] so a resize can never reach zero or wrap negative.
pub open spec fn spec_clamp_dim(v: int) -> u16 {
    if v < MIN_WINDOW_DIM as int {
        MIN_WINDOW_DIM
    } else if v > 0xffff {
        0xffff as u16
    } else {
        v as u16
    }
}

/// Clamp a computed position to the range the wire can carry.
pub fn clamp_pos(v: i32) -> (r: i16)
    ensures
        r == spec_clamp_pos(v as int),
{
    if v < -0x8000 {
        -0x8000
    } else if v > 0x7fff {
        0x7fff
    } else {
        v as i16
    }
}

/// Clamp a computed dimension, flooring it at [`MIN_WINDOW_DIM`].
pub fn clamp_dim(v: i32) -> (r: u16)
    ensures
        r == spec_clamp_dim(v as int),
{
    if v < MIN_WINDOW_DIM as i32 {
        MIN_WINDOW_DIM
    } else if v > 0xffff {
        0xffff
    } else {
        v as u16
    }
}

/// Pushing an unmanaged window and immediately removing it gracefully
/// returns the client stack to exactly its previous state, and the release
/// stream reparents the window back to the session root.
pub proof fn lemma_push_remove_symmetry<L: LayoutManager>(
    ws0: Workspace<L>,
    ws1: Workspace<L>,
    ws2: Workspace<L>,
    push_cmds: Seq<Command>,
    remove_cmds: Seq<Command>,
    window: u32,
    frame: u32,
    geometry: Geometry,
)
    requires
        ws0.wf(),
        !has_internal(ws0.clients@, window),
        Workspace::spec_push_post(ws0, ws1, push_cmds, window, frame, geometry),
        Workspace::spec_remove_post(ws1, ws2, remove_cmds, window, true),
    ensures
        ws2.clients@ == ws0.clients@,
        remove_cmds.contains(Command::ReparentWindow { window, parent: ws0.root }),
{
    let s0 = ws0.clients@;
    let c = ClientWindow { internal: window, frame, geometry, focused: false };
    let s1 = ws1.clients@;
    assert(s1 == spec_push_model(s0, c));
    assert(s1[0].internal == window);
    assert(has_internal(s1, window));
    let i = spec_index_internal(s1, window);
    assert(0 <= i < s1.len() && s1[i].internal == window);
    if i != 0 {
        assert(s1[i] == spec_unfocus_head(s0)[i - 1]);
        assert(s1[i].internal == s0[i - 1].internal);
        assert(has_internal(s0, window));
    }
    assert(i == 0);
    let rest = s1.remove(0);
    assert(rest =~= spec_unfocus_head(s0));
    if s0.len() > 0 {
        assert(s0[0].focused);
        assert(ws2.clients@ == rest.update(0, rest[0].with_focused(true)));
        assert(ws2.clients@ =~= s0);
    } else {
        assert(ws2.clients@ =~= s0);
    }
    let release = s1[0].spec_release_commands(ws1.root, true);
    assert(release[0] == Command::ReparentWindow { window, parent: ws0.root });
    assert(remove_cmds.take(release.len() as int) == release);
    assert(remove_cmds[0] == release[0]);
}

/// A map request adopts a window only once: after the first request the
/// window is managed, and the handler's contract says a request for a
/// managed window changes nothing and emits nothing — so two consecutive
/// map requests for the same window create exactly one client.
pub proof fn lemma_no_duplicate_adoption<L: LayoutManager>(
    ws0: Workspace<L>,
    ws1: Workspace<L>,
    cmds: Seq<Command>,
    window: u32,
    frame: u32,
    geometry: Geometry,
)
    requires
        !has_internal(ws0.clients@, window),
        Workspace::spec_push_post(ws0, ws1, cmds, window, frame, geometry),
    ensures
        has_internal(ws1.clients@, window),
        ws1.clients@.len() == ws0.clients@.len() + 1,
{
    assert(ws1.clients@[0].internal == window);
}

/// Removing a stack element preserves the stack invariants, and every
/// other client stays reachable by its internal id.
pub proof fn lemma_remove_model_wf(s: Seq<ClientWindow>, i: int)
    requires
        0 <= i < s.len(),
        distinct_clients(s),
        s.len() > 0 ==> s[0].focused,
        forall|j: int| 1 <= j < s.len() ==> !(#[trigger] s[j]).focused,
    ensures
        distinct_clients(spec_remove_model(s, i)),
        spec_remove_model(s, i).len() == s.len() - 1,
        spec_remove_model(s, i).len() > 0 ==> spec_remove_model(s, i)[0].focused,
        forall|j: int|
            1 <= j < spec_remove_model(s, i).len() ==> !(#[trigger] spec_remove_model(s, i)[j]).focused,
        forall|w: u32|
            w != s[i].internal ==> (#[trigger] has_internal(spec_remove_model(s, i), w)
                <==> has_internal(s, w)),
        forall|w: u32| !(#[trigger] has_internal(spec_remove_model(s, i), w) && w == s[i].internal),
{
    let m = spec_remove_model(s, i);
    let r = s.remove(i);
    assert forall|j1: int, j2: int| 0 <= j1 < j2 < m.len() implies (#[trigger] m[j1]).internal != (
    #[trigger] m[j2]).internal && m[j1].frame != m[j2].frame by {
        let k1 = if j1 < i {
            j1
        } else {
            j1 + 1
        };
        let k2 = if j2 < i {
            j2
        } else {
            j2 + 1
        };
        assert(r[j1] == s[k1]);
        assert(r[j2] == s[k2]);
    }
    assert forall|w: u32| w != s[i].internal && has_internal(s, w) implies has_internal(m, w) by {
        let k = choose|k: int| 0 <= k < s.len() && (#[trigger] s[k]).internal == w;
        let j = if k < i {
            k
        } else {
            k - 1
        };
        assert(r[j] == s[k]);
        assert(m[j].internal == w);
    }
    assert forall|w: u32| has_internal(m, w) implies w != s[i].internal && has_internal(s, w) by {
        let j = choose|j: int| 0 <= j < m.len() && (#[trigger] m[j]).internal == w;
        let k = if j < i {
            j
        } else {
            j + 1
        };
        assert(r[j] == s[k]);
        assert(m[j].internal == s[k].internal);
        assert(k != i);
    }
}

/// Focusing a stack element preserves the stack invariants: ids stay
/// distinct, the set of internal ids is unchanged, the front element is
/// focused and the rest are not.
pub proof fn lemma_focus_model_wf(s: Seq<ClientWindow>, i: int)
    requires
        0 <= i < s.len(),
        distinct_clients(s),
        forall|j: int| 1 <= j < s.len() && (#[trigger] s[j]).internal != s[i].internal ==> !s[j].focused,
    ensures
        distinct_clients(spec_focus_model(s, i)),
        spec_focus_model(s, i).len() == s.len(),
        spec_focus_model(s, i)[0].focused,
        forall|j: int| 1 <= j < s.len() ==> !(#[trigger] spec_focus_model(s, i)[j]).focused,
        forall|w: u32| #[trigger] has_internal(spec_focus_model(s, i), w) <==> has_internal(s, w),
{
    let m = spec_focus_model(s, i);
    let r = s.remove(i);
    assert forall|j1: int, j2: int| 0 <= j1 < j2 < m.len() implies (#[trigger] m[j1]).internal != (
    #[trigger] m[j2]).internal && m[j1].frame != m[j2].frame by {
        let k1 = if j1 == 0 {
            i
        } else if j1 - 1 < i {
            j1 - 1
        } else {
            j1
        };
        let k2 = if j2 - 1 < i {
            j2 - 1
        } else {
            j2
        };
        if j1 == 0 {
            assert(m[j1].internal == s[k1].internal && m[j1].frame == s[k1].frame);
        } else {
            assert(r[j1 - 1] == s[k1]);
        }
        assert(r[j2 - 1] == s[k2]);
        assert(k1 != k2);
    }
    assert forall|w: u32| has_internal(m, w) implies has_internal(s, w) by {
        let j = choose|j: int| 0 <= j < m.len() && (#[trigger] m[j]).internal == w;
        if j == 0 {
            assert(s[i].internal == w);
        } else {
            let k = if j - 1 < i {
                j - 1
            } else {
                j
            };
            assert(r[j - 1] == s[k]);
            assert(s[k].internal == w);
        }
    }
    assert forall|w: u32| has_internal(s, w) implies has_internal(m, w) by {
        let k = choose|k: int| 0 <= k < s.len() && (#[trigger] s[k]).internal == w;
        if k == i {
            assert(m[0].internal == w);
        } else {
            let j = if k < i {
                k + 1
            } else {
                k
            };
            assert(r[j - 1] == s[k]);
            assert(m[j].internal == w);
        }
    }
}


} // verus!
