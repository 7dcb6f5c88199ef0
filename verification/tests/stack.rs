use nerdwm::client::ClientWindow;
use nerdwm::command::{Command, Geometry, PropertyValue};
use nerdwm::config::Config;
use nerdwm::ewmh::EWMHManager;
use nerdwm::layout::{BorderConfig, FloatingLayoutManager, LayoutConfig};
use nerdwm::workspace::{Mode, Workspace};

const ROOT: u32 = 1;
const ATOM_SUPPORTED: u32 = 201;
const ATOM_WM_NAME: u32 = 202;
const ATOM_WM_PID: u32 = 203;
const ATOM_CLIENT_LIST: u32 = 204;
const ATOM_DESKTOP_NAMES: u32 = 205;
const ATOM_NUMBER_OF_DESKTOPS: u32 = 206;
const ATOM_ACTIVE_WINDOW: u32 = 207;
const ATOM_UTF8_STRING: u32 = 208;

fn hints() -> EWMHManager {
    let mut e = EWMHManager::new(ROOT);
    e.record_atom("_NET_SUPPORTED", ATOM_SUPPORTED);
    e.record_atom("_NET_WM_NAME", ATOM_WM_NAME);
    e.record_atom("_NET_WM_PID", ATOM_WM_PID);
    e.record_atom("_NET_CLIENT_LIST", ATOM_CLIENT_LIST);
    e.record_atom("_NET_DESKTOP_NAMES", ATOM_DESKTOP_NAMES);
    e.record_atom("_NET_NUMBER_OF_DESKTOPS", ATOM_NUMBER_OF_DESKTOPS);
    e.record_atom("_NET_ACTIVE_WINDOW", ATOM_ACTIVE_WINDOW);
    e.record_atom("UTF8_STRING", ATOM_UTF8_STRING);
    e
}

fn layout_config() -> LayoutConfig {
    LayoutConfig {
        gap_size: 0,
        border: BorderConfig { width: 3, color: 0x00ff_0000 },
        border_unfocused: BorderConfig { width: 1, color: 0x0033_3333 },
    }
}

fn workspace() -> Workspace<FloatingLayoutManager> {
    Workspace::new(
        "main".to_owned(),
        Config::new(Vec::new(), layout_config()),
        FloatingLayoutManager {},
        ROOT,
        hints(),
    )
}

fn geom(x: i16, y: i16, width: u16, height: u16) -> Geometry {
    Geometry { x, y, width, height }
}

/// The window ids the last published client list carries.
fn last_published_list(cmds: &[Command]) -> Option<Vec<u32>> {
    let mut found = None;
    for c in cmds {
        if let Command::PublishProperty { request } = c {
            if request.property == ATOM_CLIENT_LIST {
                if let PropertyValue::Windows(ids) = &request.value {
                    found = Some(ids.clone());
                }
            }
        }
    }
    found
}

fn internals_of(ws: &Workspace<FloatingLayoutManager>) -> Vec<u32> {
    ws.get_clients().iter().map(|c| c.internal).collect()
}

#[test]
fn push_then_remove_restores_the_stack() {
    let mut ws = workspace();
    ws.push(10, 11, geom(0, 0, 100, 100));
    ws.push(20, 21, geom(5, 5, 50, 50));
    let before: Vec<ClientWindow> = ws.get_clients().clone();

    ws.push(30, 31, geom(7, 7, 70, 70));
    let cmds = ws.remove(30, true);

    assert_eq!(ws.get_clients().as_slice(), before.as_slice());
    assert!(cmds.contains(&Command::ReparentWindow { window: 30, parent: ROOT }));
}

#[test]
fn push_then_remove_on_empty_workspace() {
    let mut ws = workspace();
    ws.push(10, 11, geom(0, 0, 100, 100));
    let cmds = ws.remove(10, true);
    assert!(ws.get_clients().is_empty());
    assert!(cmds.contains(&Command::ReparentWindow { window: 10, parent: ROOT }));
}

#[test]
fn release_order_reparent_unmap_unprotect_destroy() {
    let mut ws = workspace();
    ws.push(10, 11, geom(0, 0, 100, 100));
    let cmds = ws.remove(10, true);
    assert_eq!(cmds[0], Command::ReparentWindow { window: 10, parent: ROOT });
    assert_eq!(cmds[1], Command::UnmapWindow { window: 11 });
    assert_eq!(cmds[2], Command::SetSaveSet { window: 11, enabled: false });
    assert_eq!(cmds[3], Command::DestroyWindow { window: 11 });
}

#[test]
fn ungraceful_release_never_touches_the_dead_window() {
    let mut ws = workspace();
    ws.push(10, 11, geom(0, 0, 100, 100));
    let cmds = ws.on_window_destroy(10);
    assert!(!cmds
        .iter()
        .any(|c| matches!(c, Command::ReparentWindow { window: 10, .. })));
    assert_eq!(cmds[0], Command::UnmapWindow { window: 11 });
}

#[test]
fn focus_invariant_after_pushes_and_focus_updates() {
    let mut ws = workspace();
    ws.push(10, 11, geom(0, 0, 10, 10));
    ws.push(20, 21, geom(0, 0, 10, 10));
    ws.push(30, 31, geom(0, 0, 10, 10));
    ws.focus_update(20);
    ws.focus_update(10);
    ws.focus_update(10);

    let clients = ws.get_clients();
    assert_eq!(internals_of(&ws), vec![10, 20, 30]);
    assert!(clients[0].focused);
    for c in &clients[1..] {
        assert!(!c.focused);
    }
}

#[test]
fn no_duplicate_adoption_on_repeated_map_request() {
    let mut ws = workspace();
    ws.window_map_request(10, 11, geom(0, 0, 100, 100));
    assert_eq!(ws.get_clients().len(), 1);
    let cmds = ws.window_map_request(10, 12, geom(0, 0, 100, 100));
    assert_eq!(ws.get_clients().len(), 1);
    assert!(cmds.is_empty());
    assert_eq!(ws.get_clients()[0].frame, 11);
}

#[test]
fn adoption_wires_frame_and_maps_both() {
    let mut ws = workspace();
    let cmds = ws.push(10, 11, geom(2, 3, 40, 50));
    assert_eq!(cmds[0], Command::SetSaveSet { window: 11, enabled: true });
    assert_eq!(cmds[1], Command::ReparentWindow { window: 10, parent: 11 });
    assert_eq!(cmds[2], Command::MapWindow { window: 11 });
    assert_eq!(cmds[3], Command::MapWindow { window: 10 });
    assert_eq!(ws.get_clients()[0].geometry, geom(2, 3, 40, 50));
}

#[test]
fn hint_consistency_after_push() {
    let mut ws = workspace();
    let cmds = ws.push(10, 11, geom(0, 0, 10, 10));
    assert_eq!(last_published_list(&cmds), Some(internals_of(&ws)));
    let cmds = ws.push(20, 21, geom(0, 0, 10, 10));
    assert_eq!(last_published_list(&cmds), Some(internals_of(&ws)));
    assert_eq!(internals_of(&ws), vec![20, 10]);
}

#[test]
fn hint_consistency_after_remove() {
    let mut ws = workspace();
    ws.push(10, 11, geom(0, 0, 10, 10));
    ws.push(20, 21, geom(0, 0, 10, 10));
    let cmds = ws.remove(20, true);
    assert_eq!(last_published_list(&cmds), Some(vec![10]));
    assert_eq!(internals_of(&ws), vec![10]);
}

#[test]
fn hint_consistency_after_show_and_hide() {
    let mut ws = workspace();
    ws.push(10, 11, geom(0, 0, 10, 10));
    ws.push(20, 21, geom(0, 0, 10, 10));

    let cmds = ws.show();
    // Frames mapped back of the stack first, so the focused client ends on top.
    assert_eq!(cmds[0], Command::MapWindow { window: 11 });
    assert_eq!(cmds[1], Command::MapWindow { window: 21 });
    assert_eq!(last_published_list(&cmds), Some(vec![20, 10]));

    let cmds = ws.hide_all();
    assert_eq!(cmds[0], Command::UnmapWindow { window: 11 });
    assert_eq!(cmds[1], Command::UnmapWindow { window: 21 });
    assert_eq!(last_published_list(&cmds), Some(vec![20, 10]));
}

#[test]
fn removing_the_focused_client_refocuses_the_next() {
    let mut ws = workspace();
    ws.push(10, 11, geom(0, 0, 10, 10));
    ws.push(20, 21, geom(0, 0, 10, 10));
    assert!(ws.get_clients()[0].focused);
    ws.remove(20, true);
    assert_eq!(internals_of(&ws), vec![10]);
    assert!(ws.get_clients()[0].focused);
}

#[test]
fn removing_an_unmanaged_window_is_a_no_op() {
    let mut ws = workspace();
    ws.push(10, 11, geom(0, 0, 10, 10));
    let before = ws.get_clients().clone();
    let cmds = ws.remove(99, true);
    assert!(cmds.is_empty());
    assert_eq!(ws.get_clients().as_slice(), before.as_slice());
}

#[test]
fn configure_request_keeps_frame_in_step() {
    let mut ws = workspace();
    ws.push(10, 11, geom(0, 0, 10, 10));
    let g = geom(30, 40, 300, 200);
    let cmds = ws.window_configure_request(10, g, 2, 0, 0);
    assert_eq!(
        cmds[0],
        Command::ConfigureWindow { window: 11, geometry: g, border_width: 2, sibling: 0, stack_mode: 0 }
    );
    assert_eq!(
        cmds[1],
        Command::ConfigureWindow { window: 10, geometry: g, border_width: 2, sibling: 0, stack_mode: 0 }
    );
    assert_eq!(ws.get_clients()[0].geometry, g);
}

#[test]
fn configure_request_for_unmanaged_window_passes_through() {
    let mut ws = workspace();
    let g = geom(1, 2, 3, 4);
    let cmds = ws.window_configure_request(77, g, 0, 0, 0);
    assert_eq!(cmds.len(), 1);
    assert_eq!(
        cmds[0],
        Command::ConfigureWindow { window: 77, geometry: g, border_width: 0, sibling: 0, stack_mode: 0 }
    );
}

#[test]
fn destroying_the_dragged_client_resets_the_mode() {
    let mut ws = workspace();
    ws.push(10, 11, geom(0, 0, 10, 10));
    ws.mode = Mode::Moving { window: 10 };
    ws.on_window_destroy(10);
    assert_eq!(ws.mode, Mode::Idle);
}

#[test]
fn focus_update_styles_the_displaced_client() {
    let mut ws = workspace();
    ws.push(10, 11, geom(0, 0, 10, 10));
    ws.push(20, 21, geom(0, 0, 10, 10));
    let cmds = ws.focus_update(10);
    assert_eq!(cmds[0], Command::RaiseWindow { window: 11 });
    assert_eq!(cmds[1], Command::SetBorderWidth { window: 11, width: 3 });
    assert_eq!(cmds[2], Command::SetBorderColor { window: 11, color: 0x00ff_0000 });
    assert_eq!(cmds[3], Command::SetBorderWidth { window: 21, width: 1 });
    assert_eq!(cmds[4], Command::SetBorderColor { window: 21, color: 0x0033_3333 });
}
