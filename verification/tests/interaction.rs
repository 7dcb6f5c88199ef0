use nerdwm::actions::ActionType;
use nerdwm::command::{Command, Geometry};
use nerdwm::config::{ActionConfig, Config, MouseBind};
use nerdwm::ewmh::EWMHManager;
use nerdwm::input::{Button, ModMask};
use nerdwm::layout::{BorderConfig, FloatingLayoutManager, LayoutConfig};
use nerdwm::workspace::{clamp_dim, clamp_pos, Mode, Workspace, MIN_WINDOW_DIM};

const ROOT: u32 = 1;
const MOD1_MASK: u16 = 0x8;

fn hints() -> EWMHManager {
    let mut e = EWMHManager::new(ROOT);
    e.record_atom("_NET_SUPPORTED", 201);
    e.record_atom("_NET_WM_NAME", 202);
    e.record_atom("_NET_WM_PID", 203);
    e.record_atom("_NET_CLIENT_LIST", 204);
    e.record_atom("_NET_DESKTOP_NAMES", 205);
    e.record_atom("_NET_NUMBER_OF_DESKTOPS", 206);
    e.record_atom("_NET_ACTIVE_WINDOW", 207);
    e.record_atom("UTF8_STRING", 208);
    e
}

/// Move on Mod1+left button, resize on Mod1+right button.
fn bindings() -> Vec<ActionConfig> {
    vec![
        ActionConfig::new(
            ActionType::FloatingWindowMove,
            None,
            Some(MouseBind::new(Button::Left, vec![ModMask::Mod1])),
        ),
        ActionConfig::new(
            ActionType::FloatingWindowResize,
            None,
            Some(MouseBind::new(Button::Right, vec![ModMask::Mod1])),
        ),
    ]
}

fn workspace_with(actions: Vec<ActionConfig>) -> Workspace<FloatingLayoutManager> {
    let layout = LayoutConfig {
        gap_size: 0,
        border: BorderConfig { width: 3, color: 0xff },
        border_unfocused: BorderConfig { width: 1, color: 0x33 },
    };
    Workspace::new(
        "main".to_owned(),
        Config::new(actions, layout),
        FloatingLayoutManager {},
        ROOT,
        hints(),
    )
}

fn geom(x: i16, y: i16, width: u16, height: u16) -> Geometry {
    Geometry { x, y, width, height }
}

#[test]
fn move_deltas_accumulate_from_the_last_pointer_position() {
    let mut ws = workspace_with(bindings());
    ws.push(10, 11, geom(100, 100, 60, 60));

    // Press Mod1+left at (50, 50) on the frame: enter the moving mode.
    ws.on_button_press(11, 1, MOD1_MASK, 50, 50);
    assert_eq!(ws.mode, Mode::Moving { window: 10 });

    // Motion to (55, 54): the frame moves by (+5, +4) to (105, 104).
    let cmds = ws.on_pointer_move(55, 54);
    assert_eq!(cmds, vec![Command::MoveWindow { window: 11, x: 105, y: 104 }]);

    // Motion to (60, 50): the delta is relative to the previous motion,
    // not the press, so the frame moves to (110, 100).
    let cmds = ws.on_pointer_move(60, 50);
    assert_eq!(cmds, vec![Command::MoveWindow { window: 11, x: 110, y: 100 }]);
}

#[test]
fn resize_is_floored_never_zero_or_negative() {
    let mut ws = workspace_with(bindings());
    ws.push(10, 11, geom(0, 0, 20, 20));

    ws.on_button_press(11, 3, MOD1_MASK, 500, 500);
    assert_eq!(ws.mode, Mode::Resizing { window: 10 });

    let cmds = ws.on_pointer_move(400, 400);
    assert_eq!(
        cmds,
        vec![
            Command::ResizeWindow { window: 11, width: 5, height: 5 },
            Command::ResizeWindow { window: 10, width: 5, height: 5 },
        ]
    );
    assert_eq!(ws.get_clients()[0].geometry.width, MIN_WINDOW_DIM);
    assert_eq!(ws.get_clients()[0].geometry.height, MIN_WINDOW_DIM);
}

#[test]
fn resize_applies_to_both_frame_and_window() {
    let mut ws = workspace_with(bindings());
    ws.push(10, 11, geom(0, 0, 20, 20));
    ws.on_button_press(11, 3, MOD1_MASK, 0, 0);
    let cmds = ws.on_pointer_move(15, 7);
    assert_eq!(
        cmds,
        vec![
            Command::ResizeWindow { window: 11, width: 35, height: 27 },
            Command::ResizeWindow { window: 10, width: 35, height: 27 },
        ]
    );
}

#[test]
fn release_always_exits_the_mode() {
    let mut ws = workspace_with(bindings());
    ws.push(10, 11, geom(0, 0, 20, 20));

    ws.on_button_press(11, 1, MOD1_MASK, 0, 0);
    assert_eq!(ws.mode, Mode::Moving { window: 10 });
    ws.on_button_release();
    assert_eq!(ws.mode, Mode::Idle);

    ws.on_button_press(11, 3, MOD1_MASK, 0, 0);
    assert_eq!(ws.mode, Mode::Resizing { window: 10 });
    ws.on_button_release();
    assert_eq!(ws.mode, Mode::Idle);

    // A stray release while already idle stays idle.
    ws.on_button_release();
    assert_eq!(ws.mode, Mode::Idle);
}

#[test]
fn motion_while_idle_is_ignored() {
    let mut ws = workspace_with(bindings());
    ws.push(10, 11, geom(100, 100, 60, 60));
    let cmds = ws.on_pointer_move(55, 54);
    assert!(cmds.is_empty());
    assert_eq!(ws.mode, Mode::Idle);
}

#[test]
fn press_matching_no_binding_is_ignored() {
    let mut ws = workspace_with(bindings());
    ws.push(10, 11, geom(0, 0, 20, 20));
    // Wrong modifier state: no binding matches.
    let cmds = ws.on_button_press(11, 1, 0, 5, 5);
    assert!(cmds.is_empty());
    assert_eq!(ws.mode, Mode::Idle);
}

#[test]
fn press_on_an_unmanaged_frame_is_ignored() {
    let mut ws = workspace_with(bindings());
    ws.push(10, 11, geom(0, 0, 20, 20));
    let cmds = ws.on_button_press(99, 1, MOD1_MASK, 5, 5);
    assert!(cmds.is_empty());
    assert_eq!(ws.mode, Mode::Idle);
}

#[test]
fn first_matching_binding_wins() {
    // Two bindings on the same button and modifiers: the earlier one, the
    // move, must win.
    let mut actions = Vec::new();
    actions.push(ActionConfig::new(
        ActionType::FloatingWindowMove,
        None,
        Some(MouseBind::new(Button::Left, vec![ModMask::Mod1])),
    ));
    actions.push(ActionConfig::new(
        ActionType::FloatingWindowResize,
        None,
        Some(MouseBind::new(Button::Left, vec![ModMask::Mod1])),
    ));
    let mut ws = workspace_with(actions);
    ws.push(10, 11, geom(0, 0, 20, 20));
    ws.on_button_press(11, 1, MOD1_MASK, 0, 0);
    assert_eq!(ws.mode, Mode::Moving { window: 10 });
}

#[test]
fn press_focuses_the_pressed_client() {
    let mut ws = workspace_with(bindings());
    ws.push(10, 11, geom(0, 0, 20, 20));
    ws.push(20, 21, geom(0, 0, 20, 20));
    // Press on the older client's frame: it takes the focus.
    ws.on_button_press(11, 1, MOD1_MASK, 0, 0);
    assert_eq!(ws.get_clients()[0].internal, 10);
    assert!(ws.get_clients()[0].focused);
    assert!(!ws.get_clients()[1].focused);
}

#[test]
fn motion_with_a_vanished_client_falls_back_to_idle() {
    let mut ws = workspace_with(bindings());
    ws.push(10, 11, geom(0, 0, 20, 20));
    ws.mode = Mode::Moving { window: 99 };
    let cmds = ws.on_pointer_move(5, 5);
    assert!(cmds.is_empty());
    assert_eq!(ws.mode, Mode::Idle);
}

#[test]
fn clamping_bounds() {
    assert_eq!(clamp_dim(-80), MIN_WINDOW_DIM);
    assert_eq!(clamp_dim(0), MIN_WINDOW_DIM);
    assert_eq!(clamp_dim(5), 5);
    assert_eq!(clamp_dim(70000), 0xffff);
    assert_eq!(clamp_pos(40000), 0x7fff);
    assert_eq!(clamp_pos(-40000), -0x8000);
    assert_eq!(clamp_pos(-7), -7);
}

#[test]
fn moves_clamp_at_the_wire_range() {
    let mut ws = workspace_with(bindings());
    ws.push(10, 11, geom(32700, 0, 20, 20));
    ws.on_button_press(11, 1, MOD1_MASK, 0, 0);
    let cmds = ws.on_pointer_move(200, 0);
    assert_eq!(cmds, vec![Command::MoveWindow { window: 11, x: 0x7fff, y: 0 }]);
}
