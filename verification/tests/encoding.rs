use nerdwm::actions::{Action, ActionType};
use nerdwm::atoms::AtomManager;
use nerdwm::command::{GrabSpec, PropertyValue};
use nerdwm::config::{ActionConfig, Config, KeyBind, MouseBind};
use nerdwm::event::{decode, Event, RawEvent, BUTTON_PRESS, CONFIGURE_REQUEST, MAP_REQUEST, MOTION_NOTIFY};
use nerdwm::ewmh::{null_joined, required_atom_names, EWMHManager};
use nerdwm::input::{Button, Key, ModMask};
use nerdwm::layout::{BorderConfig, FloatingLayoutManager, LayoutConfig};
use nerdwm::wm::WindowManager;
use nerdwm::workspace::Workspace;

const ROOT: u32 = 42;

fn hints() -> EWMHManager {
    let mut e = EWMHManager::new(ROOT);
    e.record_atom("_NET_SUPPORTED", 201);
    e.record_atom("_NET_WM_NAME", 202);
    e.record_atom("_NET_WM_PID", 203);
    e.record_atom("_NET_CLIENT_LIST", 204);
    e.record_atom("_NET_DESKTOP_NAMES", 205);
    e.record_atom("_NET_NUMBER_OF_DESKTOPS", 206);
    e.record_atom("_NET_ACTIVE_WINDOW", 207);
    e.record_atom("UTF8_STRING", 208);
    e
}

fn layout_config() -> LayoutConfig {
    LayoutConfig {
        gap_size: 0,
        border: BorderConfig { width: 3, color: 0xff },
        border_unfocused: BorderConfig { width: 1, color: 0x33 },
    }
}

#[test]
fn atom_memoization_returns_the_first_value_both_times() {
    let mut atoms = AtomManager::new();
    // A miss tells the caller an intern request is needed.
    assert_eq!(atoms.get("_NET_WM_NAME"), None);
    // The reply is recorded once ...
    assert_eq!(atoms.record("_NET_WM_NAME", 7), 7);
    // ... and the second lookup hits the cache: no second request.
    assert_eq!(atoms.get("_NET_WM_NAME"), Some(7));
    // Even a conflicting later reply cannot change the recorded atom.
    assert_eq!(atoms.record("_NET_WM_NAME", 9), 7);
    assert_eq!(atoms.get("_NET_WM_NAME"), Some(7));
}

#[test]
fn atoms_are_kept_per_name() {
    let mut atoms = AtomManager::new();
    atoms.record("_NET_WM_NAME", 7);
    atoms.record("_NET_WM_PID", 8);
    assert_eq!(atoms.get("_NET_WM_NAME"), Some(7));
    assert_eq!(atoms.get("_NET_WM_PID"), Some(8));
    assert_eq!(atoms.get("_NET_CLIENT_LIST"), None);
}

#[test]
fn required_names_cover_the_hint_surface() {
    let names = required_atom_names();
    assert_eq!(names.len(), 8);
    assert_eq!(names[0], "_NET_SUPPORTED");
    assert_eq!(names[7], "UTF8_STRING");
}

#[test]
fn decode_dispatches_on_the_tag() {
    let mut raw = RawEvent::default();
    raw.response_type = MAP_REQUEST;
    raw.window = 5;
    assert_eq!(decode(&raw), Event::WindowMapRequest { window: 5 });

    raw.response_type = BUTTON_PRESS;
    raw.child = 9;
    raw.detail = 3;
    raw.state = 0x8;
    raw.root_x = 15;
    raw.root_y = -4;
    assert_eq!(
        decode(&raw),
        Event::ButtonPress { child: 9, detail: 3, state: 0x8, root_x: 15, root_y: -4 }
    );

    raw.response_type = MOTION_NOTIFY;
    assert_eq!(decode(&raw), Event::PointerMotion { child: 9, root_x: 15, root_y: -4 });

    raw.response_type = CONFIGURE_REQUEST;
    raw.x = 1;
    raw.y = 2;
    raw.width = 30;
    raw.height = 40;
    raw.border_width = 2;
    assert_eq!(
        decode(&raw),
        Event::WindowConfigureRequest {
            window: 5,
            x: 1,
            y: 2,
            width: 30,
            height: 40,
            border_width: 2,
            sibling: 0,
            stack_mode: 0,
        }
    );

    raw.response_type = 99;
    assert_eq!(decode(&raw), Event::Unknown);
}

#[test]
fn modifier_masks_combine_by_or() {
    let kb = KeyBind::new(Key::Q, vec![ModMask::Mod1, ModMask::Shift]);
    assert_eq!(kb.get_mask(), 0x9);
    assert_eq!(kb.get_keysym().to_keysym(), 0x51);

    let mb = MouseBind::new(Button::Right, vec![ModMask::Mod4, ModMask::Control]);
    assert_eq!(mb.get_mask(), 0x44);
    assert_eq!(mb.get_button().to_number(), 3);

    let none = KeyBind::new(Key::A, Vec::new());
    assert_eq!(none.get_mask(), 0);
}

#[test]
fn null_joined_encoding() {
    let names = vec!["main".to_owned(), "web".to_owned()];
    assert_eq!(null_joined(&names), b"main\0web\0".to_vec());
    assert_eq!(null_joined(&Vec::new()), Vec::<u8>::new());
}

#[test]
fn client_list_request_carries_the_ids() {
    let e = hints();
    let req = e.update_client_list(&vec![4, 5, 6]);
    assert_eq!(req.window, ROOT);
    assert_eq!(req.property, 204);
    assert_eq!(req.value, PropertyValue::Windows(vec![4, 5, 6]));
}

#[test]
fn desktop_hints_carry_count_and_names() {
    let e = hints();
    let reqs = e.update_desktops(&vec!["main".to_owned()]);
    assert_eq!(reqs.len(), 2);
    assert_eq!(reqs[0].property, 206);
    assert_eq!(reqs[0].value, PropertyValue::Cardinals(vec![1]));
    assert_eq!(reqs[1].property, 205);
    assert_eq!(
        reqs[1].value,
        PropertyValue::Utf8 { type_atom: 208, data: b"main\0".to_vec() }
    );
}

#[test]
fn supported_hint_lists_the_protocol_atoms() {
    let e = hints();
    let req = e.set_supported();
    assert_eq!(req.window, ROOT);
    assert_eq!(req.property, 201);
    assert_eq!(req.value, PropertyValue::Atoms(vec![202, 203, 204, 205, 206, 207]));
}

#[test]
fn active_window_hint_publishes_null_for_none() {
    let e = hints();
    let req = e.update_active_window(None);
    assert_eq!(req.property, 207);
    assert_eq!(req.value, PropertyValue::Windows(vec![0]));
    let req = e.update_active_window(Some(33));
    assert_eq!(req.value, PropertyValue::Windows(vec![33]));
}

#[test]
fn grabs_follow_configuration_order() {
    let actions = vec![
        ActionConfig::new(
            ActionType::FloatingWindowMove,
            Some(KeyBind::new(Key::M, vec![ModMask::Mod1])),
            Some(MouseBind::new(Button::Left, vec![ModMask::Mod1])),
        ),
        ActionConfig::new(
            ActionType::WindowFocus,
            None,
            Some(MouseBind::new(Button::Middle, Vec::new())),
        ),
    ];
    let ws = Workspace::new(
        "main".to_owned(),
        Config::new(actions, layout_config()),
        FloatingLayoutManager {},
        ROOT,
        hints(),
    );
    let wm = WindowManager::new(ws);
    let grabs = wm.grabs();
    assert_eq!(
        grabs,
        vec![
            GrabSpec::Key { keysym: 0x4d, mask: 0x8 },
            GrabSpec::Button { button: 1, mask: 0x8 },
            GrabSpec::Button { button: 2, mask: 0 },
        ]
    );
}

#[test]
fn initial_hints_publish_the_startup_state() {
    let ws = Workspace::new(
        "main".to_owned(),
        Config::new(Vec::new(), layout_config()),
        FloatingLayoutManager {},
        ROOT,
        hints(),
    );
    let wm = WindowManager::new(ws);
    let reqs = wm.initial_hints("nerdwm", 4321);
    assert_eq!(reqs.len(), 6);
    assert_eq!(reqs[0].property, 201);
    assert_eq!(reqs[1].property, 203);
    assert_eq!(reqs[1].value, PropertyValue::Cardinals(vec![4321]));
    assert_eq!(reqs[2].property, 202);
    assert_eq!(
        reqs[2].value,
        PropertyValue::Utf8 { type_atom: 208, data: b"nerdwm\0".to_vec() }
    );
    assert_eq!(reqs[3].property, 207);
    assert_eq!(reqs[3].value, PropertyValue::Windows(vec![0]));
    assert_eq!(reqs[4].value, PropertyValue::Cardinals(vec![1]));
    assert_eq!(
        reqs[5].value,
        PropertyValue::Utf8 { type_atom: 208, data: b"main\0".to_vec() }
    );
}

#[test]
fn actions_pair_a_type_with_its_event() {
    let e = Event::WindowMapRequest { window: 12 };
    let a = Action::new(ActionType::WindowFocus, e);
    assert!(matches!(a.get_type(), ActionType::WindowFocus));
    assert_eq!(*a.get_event(), e);
}

#[test]
fn action_config_exposes_its_bindings() {
    let ac = ActionConfig::new(
        ActionType::FloatingWindowResize,
        Some(KeyBind::new(Key::R, vec![ModMask::Mod4])),
        None,
    );
    assert!(matches!(ac.get_type(), ActionType::FloatingWindowResize));
    assert!(ac.get_keybind().is_some());
    assert!(ac.get_mousebind().is_none());
    let cfg = Config::new(vec![ac], layout_config());
    assert_eq!(cfg.get_actions().len(), 1);
    assert_eq!(cfg.get_layout().border.width, 3);
}

#[test]
fn handle_event_routes_a_map_request_through_adoption() {
    let ws = Workspace::new(
        "main".to_owned(),
        Config::new(Vec::new(), layout_config()),
        FloatingLayoutManager {},
        ROOT,
        hints(),
    );
    let mut wm = WindowManager::new(ws);

    let mut raw = RawEvent::default();
    raw.response_type = MAP_REQUEST;
    raw.window = 10;
    let event = decode(&raw);
    let geometry = nerdwm::command::Geometry { x: 1, y: 2, width: 30, height: 40 };
    let cmds = wm.handle_event(&event, Some((11, geometry)));
    assert_eq!(wm.workspace.get_clients().len(), 1);
    assert_eq!(wm.workspace.get_clients()[0].internal, 10);
    assert_eq!(wm.workspace.get_clients()[0].frame, 11);
    assert!(!cmds.is_empty());

    // The duplicate request is ignored even with a fresh frame offered.
    let cmds = wm.handle_event(&event, Some((12, geometry)));
    assert!(cmds.is_empty());
    assert_eq!(wm.workspace.get_clients().len(), 1);

    // An unmap releases the client again.
    raw.response_type = nerdwm::event::UNMAP_NOTIFY;
    let cmds = wm.handle_event(&decode(&raw), None);
    assert!(wm.workspace.get_clients().is_empty());
    assert!(cmds
        .iter()
        .any(|c| *c == nerdwm::command::Command::ReparentWindow { window: 10, parent: ROOT }));
}
