use egui_macroquad::adapter::EguiMqInteg;
use egui_macroquad::events::Event;
use egui_macroquad::events::KeyMods;
use egui_macroquad::events::MouseButton;
use egui_macroquad::events::Submission;

fn mods(shift: bool, ctrl: bool, alt: bool, logo: bool) -> KeyMods {
    KeyMods { shift, ctrl, alt, logo }
}

#[test]
fn new_adapter_starts_empty() {
    let a = EguiMqInteg::new();
    assert_eq!(a.pending_events(), &Vec::new());
    assert_eq!(a.delivered_events(), &Vec::new());
    assert_eq!(a.submission_log(), &Vec::new());
    assert!(!a.ui_was_built());
}

#[test]
fn default_matches_new() {
    let a = EguiMqInteg::default();
    assert_eq!(a.pending_events(), &Vec::new());
    assert_eq!(a.delivered_events(), &Vec::new());
    assert_eq!(a.submission_log(), &Vec::new());
    assert!(!a.ui_was_built());
}

#[test]
fn recorded_events_stay_buffered_until_build() {
    let mut a = EguiMqInteg::new();
    a.record_event(Event::CharInput { character: 'q' });
    a.record_event(Event::MouseMotion { x_bits: 1, y_bits: 2 });
    assert_eq!(
        a.pending_events(),
        &vec![
            Event::CharInput { character: 'q' },
            Event::MouseMotion { x_bits: 1, y_bits: 2 },
        ]
    );
    assert_eq!(a.delivered_events(), &Vec::new());
}

#[test]
fn build_ui_delivers_all_events_in_order_unchanged() {
    let mut a = EguiMqInteg::new();
    let evs = vec![
        Event::MouseMotion { x_bits: 0x3f800000, y_bits: 0x40000000 },
        Event::MouseWheel { dx_bits: 0, dy_bits: 0xc0490fdb },
        Event::MouseButtonDown { button: MouseButton::Left, x_bits: 10, y_bits: 20 },
        Event::MouseButtonUp { button: MouseButton::Right, x_bits: 10, y_bits: 20 },
        Event::CharInput { character: '€' },
        Event::KeyDown { keycode: 65, mods: mods(true, false, false, false) },
        Event::KeyUp { keycode: 65, mods: mods(false, false, false, false) },
    ];
    for e in &evs {
        a.record_event(*e);
    }
    a.ui();
    assert_eq!(a.delivered_events(), &evs);
    assert_eq!(a.pending_events(), &Vec::new());
    assert!(a.ui_was_built());
}

#[test]
fn second_build_ui_redelivers_nothing() {
    let mut a = EguiMqInteg::new();
    a.record_event(Event::MouseButtonDown { button: MouseButton::Middle, x_bits: 3, y_bits: 4 });
    a.record_event(Event::MouseButtonUp { button: MouseButton::Middle, x_bits: 3, y_bits: 4 });
    a.ui();
    let after_first = a.delivered_events().clone();
    assert_eq!(after_first.len(), 2);
    a.ui();
    assert_eq!(a.delivered_events(), &after_first);
}

#[test]
fn render_without_build_ui_still_flushes_host() {
    let mut a = EguiMqInteg::new();
    a.draw();
    assert_eq!(
        a.submission_log(),
        &vec![Submission::HostFlush, Submission::ToolkitRender]
    );
    assert_eq!(a.delivered_events(), &Vec::new());
}

#[test]
fn events_buffered_between_builds_arrive_in_the_later_build() {
    let mut a = EguiMqInteg::new();
    a.record_event(Event::CharInput { character: 'a' });
    a.ui();
    a.record_event(Event::CharInput { character: 'b' });
    a.record_event(Event::CharInput { character: 'c' });
    a.ui();
    assert_eq!(
        a.delivered_events(),
        &vec![
            Event::CharInput { character: 'a' },
            Event::CharInput { character: 'b' },
            Event::CharInput { character: 'c' },
        ]
    );
}

#[test]
fn each_handler_forwards_its_event_unchanged() {
    let mut a = EguiMqInteg::new();
    a.mouse_motion_event(5, 6);
    a.mouse_wheel_event(7, 8);
    a.mouse_button_down_event(MouseButton::Left, 9, 10);
    a.mouse_button_up_event(MouseButton::Unknown, 11, 12);
    a.char_event('z');
    a.key_down_event(301, mods(false, true, false, true));
    a.key_up_event(301, mods(false, false, true, false));
    assert_eq!(
        a.delivered_events(),
        &vec![
            Event::MouseMotion { x_bits: 5, y_bits: 6 },
            Event::MouseWheel { dx_bits: 7, dy_bits: 8 },
            Event::MouseButtonDown { button: MouseButton::Left, x_bits: 9, y_bits: 10 },
            Event::MouseButtonUp { button: MouseButton::Unknown, x_bits: 11, y_bits: 12 },
            Event::CharInput { character: 'z' },
            Event::KeyDown { keycode: 301, mods: KeyMods { shift: false, ctrl: true, alt: false, logo: true } },
            Event::KeyUp { keycode: 301, mods: KeyMods { shift: false, ctrl: false, alt: true, logo: false } },
        ]
    );
}

#[test]
fn update_hook_changes_nothing() {
    let mut a = EguiMqInteg::new();
    a.record_event(Event::CharInput { character: 'u' });
    a.update();
    assert_eq!(a.pending_events(), &vec![Event::CharInput { character: 'u' }]);
    assert_eq!(a.delivered_events(), &Vec::new());
    assert_eq!(a.submission_log(), &Vec::new());
    assert!(!a.ui_was_built());
}

#[test]
fn full_frame_cycle_builds_then_renders() {
    let mut a = EguiMqInteg::new();
    a.record_event(Event::MouseMotion { x_bits: 100, y_bits: 200 });
    a.ui();
    assert!(a.ui_was_built());
    a.draw();
    assert!(!a.ui_was_built());
    assert_eq!(
        a.submission_log(),
        &vec![Submission::HostFlush, Submission::ToolkitRender]
    );
    // A second full frame: the log gains one more flush-then-render pair.
    a.record_event(Event::MouseMotion { x_bits: 101, y_bits: 201 });
    a.ui();
    a.draw();
    assert_eq!(
        a.submission_log(),
        &vec![
            Submission::HostFlush,
            Submission::ToolkitRender,
            Submission::HostFlush,
            Submission::ToolkitRender,
        ]
    );
    assert_eq!(
        a.delivered_events(),
        &vec![
            Event::MouseMotion { x_bits: 100, y_bits: 200 },
            Event::MouseMotion { x_bits: 101, y_bits: 201 },
        ]
    );
}

#[test]
fn one_host_flush_then_one_toolkit_render_per_frame() {
    let mut a = EguiMqInteg::new();
    a.record_event(Event::CharInput { character: 'w' });
    a.ui();
    a.draw();
    let log = a.submission_log();
    assert_eq!(log.len(), 2);
    assert_eq!(log[0], Submission::HostFlush);
    assert_eq!(log[1], Submission::ToolkitRender);
}
