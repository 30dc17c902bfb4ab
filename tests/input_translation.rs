use amethyst_imgui::input::{map_key, slot, Capture, GuiKey, InputEvent, InputState, MouseButton, VirtualKey};

#[test]
fn wheel_is_consumed_once() {
    let mut s = InputState::new();
    s.translate(InputEvent::MouseWheelMoved(3));
    s.translate(InputEvent::MouseWheelMoved(-1));
    assert_eq!(s.take_wheel(), 2);
    s.translate(InputEvent::MouseMoved { x: 5, y: 6 });
    s.translate(InputEvent::KeyPressed(VirtualKey::Tab));
    assert_eq!(s.take_wheel(), 0);
}

#[test]
fn wheel_saturates() {
    let mut s = InputState::new();
    s.translate(InputEvent::MouseWheelMoved(i32::MAX));
    s.translate(InputEvent::MouseWheelMoved(5));
    assert_eq!(s.wheel(), i32::MAX);
    s.take_wheel();
    s.translate(InputEvent::MouseWheelMoved(i32::MIN));
    s.translate(InputEvent::MouseWheelMoved(-5));
    assert_eq!(s.take_wheel(), i32::MIN);
}

#[test]
fn mouse_position_and_buttons() {
    let mut s = InputState::new();
    s.translate_all(&vec![
        InputEvent::MouseMoved { x: 12, y: -3 },
        InputEvent::MouseButtonPressed(MouseButton::Left),
        InputEvent::MouseButtonPressed(MouseButton::Right),
        InputEvent::MouseButtonPressed(MouseButton::Other(4)),
        InputEvent::MouseButtonReleased(MouseButton::Left),
    ]);
    assert_eq!(s.mouse_position(), (12, -3));
    assert_eq!(s.mouse_buttons(), (false, false, true));
}

#[test]
fn keys_go_through_table() {
    let mut s = InputState::new();
    s.translate(InputEvent::KeyPressed(VirtualKey::Return));
    assert!(s.is_key_down(GuiKey::Enter));
    s.translate(InputEvent::KeyReleased(VirtualKey::NumpadEnter));
    assert!(!s.is_key_down(GuiKey::Enter));
    s.translate(InputEvent::KeyPressed(VirtualKey::RControl));
    assert!(s.is_key_down(GuiKey::Ctrl));
    s.translate(InputEvent::KeyPressed(VirtualKey::Other(77)));
    let held: Vec<bool> = [GuiKey::Tab, GuiKey::A, GuiKey::Shift].iter().map(|k| s.is_key_down(*k)).collect();
    assert_eq!(held, vec![false, false, false]);
}

#[test]
fn key_table_entries() {
    assert_eq!(map_key(VirtualKey::Back), Some(GuiKey::Backspace));
    assert_eq!(map_key(VirtualKey::Left), Some(GuiKey::LeftArrow));
    assert_eq!(map_key(VirtualKey::LWin), Some(GuiKey::Super));
    assert_eq!(map_key(VirtualKey::Other(1)), None);
    assert_eq!(slot(GuiKey::Tab), 0);
    assert_eq!(slot(GuiKey::Super), 24);
}

#[test]
fn capture_filters_events() {
    let events = vec![
        InputEvent::MouseMoved { x: 1, y: 1 },
        InputEvent::KeyPressed(VirtualKey::A),
        InputEvent::Text('a'),
        InputEvent::MouseWheelMoved(1),
        InputEvent::KeyReleased(VirtualKey::A),
        InputEvent::Other,
    ];
    let mut s = InputState::new();
    assert_eq!(s.filter_events(&events), events);
    s.set_capture(Capture { mouse: true, keyboard: false });
    assert_eq!(
        s.filter_events(&events),
        vec![
            InputEvent::KeyPressed(VirtualKey::A),
            InputEvent::Text('a'),
            InputEvent::KeyReleased(VirtualKey::A),
            InputEvent::Other,
        ]
    );
    s.set_capture(Capture { mouse: false, keyboard: true });
    assert_eq!(
        s.filter_events(&events),
        vec![
            InputEvent::MouseMoved { x: 1, y: 1 },
            InputEvent::Text('a'),
            InputEvent::MouseWheelMoved(1),
            InputEvent::Other,
        ]
    );
}

#[test]
fn dpi_is_recorded() {
    let mut s = InputState::new();
    assert_eq!(s.dpi_scale_percent(), 100);
    s.apply_dpi(150);
    assert_eq!(s.dpi_scale_percent(), 150);
    assert_eq!(s.capture(), Capture { mouse: false, keyboard: false });
}
