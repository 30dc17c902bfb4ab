use vstd::prelude::*;

verus! {

#[derive(Clone, Copy, Debug, PartialEq, Eq, Structural)]
pub enum MouseButton {
    Left,
    Middle,
    Right,
    Other(u16),
}

/// Key codes of the engine's windowing layer.
#[derive(Clone, Copy, Debug, PartialEq, Eq, Structural)]
pub enum VirtualKey {
    Tab,
    Left,
    Right,
    Up,
    Down,
    PageUp,
    PageDown,
    Home,
    End,
    Insert,
    Delete,
    Back,
    Space,
    Return,
    NumpadEnter,
    Escape,
    A,
    C,
    V,
    X,
    Y,
    Z,
    LControl,
    RControl,
    LShift,
    RShift,
    LAlt,
    RAlt,
    LWin,
    RWin,
    Other(u32),
}

/// The logical keys that the GUI reads: navigation, editing, the letters of
/// clipboard and undo shortcuts, and the modifiers.
#[derive(Clone, Copy, Debug, PartialEq, Eq, Structural)]
pub enum GuiKey {
    Tab,
    LeftArrow,
    RightArrow,
    UpArrow,
    DownArrow,
    PageUp,
    PageDown,
    Home,
    End,
    Insert,
    Delete,
    Backspace,
    Space,
    Enter,
    Escape,
    A,
    C,
    V,
    X,
    Y,
    Z,
    Ctrl,
    Shift,
    Alt,
    Super,
}

/// Number of `GuiKey`s.
pub const KEY_COUNT: usize = 25;

/// Input events of the engine, as far as the GUI tells them apart.
#[derive(Clone, Copy, Debug, PartialEq, Eq, Structural)]
pub enum InputEvent {
    /// Cursor position in window pixels.
    MouseMoved { x: i32, y: i32 },
    MouseButtonPressed(MouseButton),
    MouseButtonReleased(MouseButton),
    /// Wheel movement in lines, up positive.
    MouseWheelMoved(i32),
    KeyPressed(VirtualKey),
    KeyReleased(VirtualKey),
    Text(char),
    /// Anything the GUI does not read.
    Other,
}

/// What the GUI asked for at the end of the previous frame: the mouse, the
/// keyboard, or neither.
#[derive(Clone, Copy, Debug, PartialEq, Eq, Structural)]
pub struct Capture {
    pub mouse: bool,
    pub keyboard: bool,
}

/// The GUI's pending input state.
pub struct InputState {
    mouse_x: i32,
    mouse_y: i32,
    left: bool,
    middle: bool,
    right: bool,
    wheel: i32,
    keys_down: Vec<bool>,
    dpi_scale_percent: u32,
    capture: Capture,
}

/// The GUI's input state as a value: `keys_down[key_slot(k)]` tells
/// whether `k` is held.
pub struct InputView {
    pub mouse: (i32, i32),
    pub left: bool,
    pub middle: bool,
    pub right: bool,
    pub wheel: i32,
    pub keys_down: Seq<bool>,
    pub dpi_scale_percent: u32,
    pub capture: Capture,
}

impl View for InputState {
    type V = InputView;

    closed spec fn view(&self) -> InputView {
        InputView {
            mouse: (self.mouse_x, self.mouse_y),
            left: self.left,
            middle: self.middle,
            right: self.right,
            wheel: self.wheel,
            keys_down: self.keys_down@,
            dpi_scale_percent: self.dpi_scale_percent,
            capture: self.capture,
        }
    }
}

/// The fixed key table: the GUI key that an engine key stands for.
pub open spec fn key_for(k: VirtualKey) -> Option<GuiKey> {
    match k {
        VirtualKey::Tab => Some(GuiKey::Tab),
        VirtualKey::Left => Some(GuiKey::LeftArrow),
        VirtualKey::Right => Some(GuiKey::RightArrow),
        VirtualKey::Up => Some(GuiKey::UpArrow),
        VirtualKey::Down => Some(GuiKey::DownArrow),
        VirtualKey::PageUp => Some(GuiKey::PageUp),
        VirtualKey::PageDown => Some(GuiKey::PageDown),
        VirtualKey::Home => Some(GuiKey::Home),
        VirtualKey::End => Some(GuiKey::End),
        VirtualKey::Insert => Some(GuiKey::Insert),
        VirtualKey::Delete => Some(GuiKey::Delete),
        VirtualKey::Back => Some(GuiKey::Backspace),
        VirtualKey::Space => Some(GuiKey::Space),
        VirtualKey::Return => Some(GuiKey::Enter),
        VirtualKey::NumpadEnter => Some(GuiKey::Enter),
        VirtualKey::Escape => Some(GuiKey::Escape),
        VirtualKey::A => Some(GuiKey::A),
        VirtualKey::C => Some(GuiKey::C),
        VirtualKey::V => Some(GuiKey::V),
        VirtualKey::X => Some(GuiKey::X),
        VirtualKey::Y => Some(GuiKey::Y),
        VirtualKey::Z => Some(GuiKey::Z),
        VirtualKey::LControl => Some(GuiKey::Ctrl),
        VirtualKey::RControl => Some(GuiKey::Ctrl),
        VirtualKey::LShift => Some(GuiKey::Shift),
        VirtualKey::RShift => Some(GuiKey::Shift),
        VirtualKey::LAlt => Some(GuiKey::Alt),
        VirtualKey::RAlt => Some(GuiKey::Alt),
        VirtualKey::LWin => Some(GuiKey::Super),
        VirtualKey::RWin => Some(GuiKey::Super),
        VirtualKey::Other(_) => None,
    }
}

/// Where the GUI keeps the state of each key.
pub open spec fn key_slot(k: GuiKey) -> int {
    match k {
        GuiKey::Tab => 0,
        GuiKey::LeftArrow => 1,
        GuiKey::RightArrow => 2,
        GuiKey::UpArrow => 3,
        GuiKey::DownArrow => 4,
        GuiKey::PageUp => 5,
        GuiKey::PageDown => 6,
        GuiKey::Home => 7,
        GuiKey::End => 8,
        GuiKey::Insert => 9,
        GuiKey::Delete => 10,
        GuiKey::Backspace => 11,
        GuiKey::Space => 12,
        GuiKey::Enter => 13,
        GuiKey::Escape => 14,
        GuiKey::A => 15,
        GuiKey::C => 16,
        GuiKey::V => 17,
        GuiKey::X => 18,
        GuiKey::Y => 19,
        GuiKey::Z => 20,
        GuiKey::Ctrl => 21,
        GuiKey::Shift => 22,
        GuiKey::Alt => 23,
        GuiKey::Super => 24,
    }
}

pub open spec fn is_mouse_event(e: InputEvent) -> bool {
    match e {
        InputEvent::MouseMoved { .. } | InputEvent::MouseButtonPressed(_)
        | InputEvent::MouseButtonReleased(_) | InputEvent::MouseWheelMoved(_) => true,
        _ => false,
    }
}

pub open spec fn is_key_event(e: InputEvent) -> bool {
    match e {
        InputEvent::KeyPressed(_) | InputEvent::KeyReleased(_) => true,
        _ => false,
    }
}

/// An event reaches the application unless the GUI captured its device.
pub open spec fn passes(e: InputEvent, c: Capture) -> bool {
    if is_mouse_event(e) {
        !c.mouse
    } else if is_key_event(e) {
        !c.keyboard
    } else {
        true
    }
}

pub open spec fn passes_fn(c: Capture) -> spec_fn(InputEvent) -> bool {
    |e: InputEvent| passes(e, c)
}

/// `a + d`, held within the range of `i32`.
pub open spec fn saturating_sum(a: i32, d: i32) -> i32 {
    if a + d > i32::MAX {
        i32::MAX
    } else if a + d < i32::MIN {
        i32::MIN
    } else {
        (a + d) as i32
    }
}

pub open spec fn with_button(s: InputView, b: MouseButton, down: bool) -> InputView {
    match b {
        MouseButton::Left => InputView { left: down, ..s },
        MouseButton::Middle => InputView { middle: down, ..s },
        MouseButton::Right => InputView { right: down, ..s },
        MouseButton::Other(_) => s,
    }
}

pub open spec fn with_key(s: InputView, k: VirtualKey, down: bool) -> InputView {
    match key_for(k) {
        Some(g) => InputView { keys_down: s.keys_down.update(key_slot(g), down), ..s },
        None => s,
    }
}

/// The input state after one event.
pub open spec fn step(s: InputView, e: InputEvent) -> InputView {
    match e {
        InputEvent::MouseMoved { x, y } => InputView { mouse: (x, y), ..s },
        InputEvent::MouseButtonPressed(b) => with_button(s, b, true),
        InputEvent::MouseButtonReleased(b) => with_button(s, b, false),
        InputEvent::MouseWheelMoved(d) => InputView { wheel: saturating_sum(s.wheel, d), ..s },
        InputEvent::KeyPressed(k) => with_key(s, k, true),
        InputEvent::KeyReleased(k) => with_key(s, k, false),
        InputEvent::Text(_) | InputEvent::Other => s,
    }
}

/// The input state after a run of events, in order.
pub open spec fn steps(s: InputView, es: Seq<InputEvent>) -> InputView
    decreases es.len(),
{
    if es.len() == 0 {
        s
    } else {
        step(steps(s, es.drop_last()), es.last())
    }
}

/// The state once the frame has taken the wheel movement.
pub open spec fn wheel_taken(s: InputView) -> InputView {
    InputView { wheel: 0, ..s }
}

pub open spec fn is_wheel_event(e: InputEvent) -> bool {
    e is MouseWheelMoved
}

/// The GUI key for an engine key, if the table has one.
pub fn map_key(k: VirtualKey) -> (r: Option<GuiKey>)
    ensures
        r == key_for(k),
{
    match k {
        VirtualKey::Tab => Some(GuiKey::Tab),
        VirtualKey::Left => Some(GuiKey::LeftArrow),
        VirtualKey::Right => Some(GuiKey::RightArrow),
        VirtualKey::Up => Some(GuiKey::UpArrow),
        VirtualKey::Down => Some(GuiKey::DownArrow),
        VirtualKey::PageUp => Some(GuiKey::PageUp),
        VirtualKey::PageDown => Some(GuiKey::PageDown),
        VirtualKey::Home => Some(GuiKey::Home),
        VirtualKey::End => Some(GuiKey::End),
        VirtualKey::Insert => Some(GuiKey::Insert),
        VirtualKey::Delete => Some(GuiKey::Delete),
        VirtualKey::Back => Some(GuiKey::Backspace),
        VirtualKey::Space => Some(GuiKey::Space),
        VirtualKey::Return => Some(GuiKey::Enter),
        VirtualKey::NumpadEnter => Some(GuiKey::Enter),
        VirtualKey::Escape => Some(GuiKey::Escape),
        VirtualKey::A => Some(GuiKey::A),
        VirtualKey::C => Some(GuiKey::C),
        VirtualKey::V => Some(GuiKey::V),
        VirtualKey::X => Some(GuiKey::X),
        VirtualKey::Y => Some(GuiKey::Y),
        VirtualKey::Z => Some(GuiKey::Z),
        VirtualKey::LControl => Some(GuiKey::Ctrl),
        VirtualKey::RControl => Some(GuiKey::Ctrl),
        VirtualKey::LShift => Some(GuiKey::Shift),
        VirtualKey::RShift => Some(GuiKey::Shift),
        VirtualKey::LAlt => Some(GuiKey::Alt),
        VirtualKey::RAlt => Some(GuiKey::Alt),
        VirtualKey::LWin => Some(GuiKey::Super),
        VirtualKey::RWin => Some(GuiKey::Super),
        VirtualKey::Other(_) => None,
    }
}

/// Index of a key in the GUI's key state.
pub fn slot(k: GuiKey) -> (r: usize)
    ensures
        r == key_slot(k),
        r < KEY_COUNT,
{
    match k {
        GuiKey::Tab => 0,
        GuiKey::LeftArrow => 1,
        GuiKey::RightArrow => 2,
        GuiKey::UpArrow => 3,
        GuiKey::DownArrow => 4,
        GuiKey::PageUp => 5,
        GuiKey::PageDown => 6,
        GuiKey::Home => 7,
        GuiKey::End => 8,
        GuiKey::Insert => 9,
        GuiKey::Delete => 10,
        GuiKey::Backspace => 11,
        GuiKey::Space => 12,
        GuiKey::Enter => 13,
        GuiKey::Escape => 14,
        GuiKey::A => 15,
        GuiKey::C => 16,
        GuiKey::V => 17,
        GuiKey::X => 18,
        GuiKey::Y => 19,
        GuiKey::Z => 20,
        GuiKey::Ctrl => 21,
        GuiKey::Shift => 22,
        GuiKey::Alt => 23,
        GuiKey::Super => 24,
    }
}

/// Whether the event reaches the application, given what the GUI captured.
pub fn passes_through(e: InputEvent, c: Capture) -> (r: bool)
    ensures
        r == passes(e, c),
{
    match e {
        InputEvent::MouseMoved { .. } | InputEvent::MouseButtonPressed(_)
        | InputEvent::MouseButtonReleased(_) | InputEvent::MouseWheelMoved(_) => !c.mouse,
        InputEvent::KeyPressed(_) | InputEvent::KeyReleased(_) => !c.keyboard,
        _ => true,
    }
}

fn add_saturating(a: i32, d: i32) -> (r: i32)
    ensures
        r == saturating_sum(a, d),
{
    let t: i64 = a as i64 + d as i64;
    if t > i32::MAX as i64 {
        i32::MAX
    } else if t < i32::MIN as i64 {
        i32::MIN
    } else {
        t as i32
    }
}

impl InputState {
    pub open spec fn wf(&self) -> bool {
        self@.keys_down.len() == KEY_COUNT
    }

    /// No button or key held, no movement, nothing captured, scale 100%.
    pub fn new() -> (r: InputState)
        ensures
            r.wf(),
            r@.mouse == (0i32, 0i32),
            !r@.left && !r@.middle && !r@.right,
            r@.wheel == 0,
            forall|i: int| 0 <= i < KEY_COUNT ==> !#[trigger] r@.keys_down[i],
            r@.dpi_scale_percent == 100,
            r@.capture == (Capture { mouse: false, keyboard: false }),
    {
        let mut keys_down: Vec<bool> = Vec::new();
        let mut i: usize = 0;
        while i < KEY_COUNT
            invariant
                0 <= i <= KEY_COUNT,
                keys_down@.len() == i,
                forall|k: int| 0 <= k < i ==> !#[trigger] keys_down@[k],
            decreases KEY_COUNT - i,
        {
            keys_down.push(false);
            i = i + 1;
        }
        InputState {
            mouse_x: 0,
            mouse_y: 0,
            left: false,
            middle: false,
            right: false,
            wheel: 0,
            keys_down,
            dpi_scale_percent: 100,
            capture: Capture { mouse: false, keyboard: false },
        }
    }

    /// Feeds one event into the pending state.
    pub fn translate(&mut self, e: InputEvent)
        requires
            old(self).wf(),
        ensures
            final(self).wf(),
            final(self)@ == step(old(self)@, e),
    {
        match e {
            InputEvent::MouseMoved { x, y } => {
                self.mouse_x = x;
                self.mouse_y = y;
            },
            InputEvent::MouseButtonPressed(b) => self.set_button(b, true),
            InputEvent::MouseButtonReleased(b) => self.set_button(b, false),
            InputEvent::MouseWheelMoved(d) => {
                self.wheel = add_saturating(self.wheel, d);
            },
            InputEvent::KeyPressed(k) => self.set_key(k, true),
            InputEvent::KeyReleased(k) => self.set_key(k, false),
            InputEvent::Text(_) | InputEvent::Other => {},
        }
    }

    fn set_button(&mut self, b: MouseButton, down: bool)
        ensures
            final(self)@ == with_button(old(self)@, b, down),
    {
        match b {
            MouseButton::Left => self.left = down,
            MouseButton::Middle => self.middle = down,
            MouseButton::Right => self.right = down,
            MouseButton::Other(_) => {},
        }
    }

    fn set_key(&mut self, k: VirtualKey, down: bool)
        requires
            old(self).wf(),
        ensures
            final(self).wf(),
            final(self)@ == with_key(old(self)@, k, down),
    {
        if let Some(g) = map_key(k) {
            let i = slot(g);
            self.keys_down.set(i, down);
        }
    }

    /// Feeds a run of events into the pending state, in order.
    pub fn translate_all(&mut self, events: &Vec<InputEvent>)
        requires
            old(self).wf(),
        ensures
            final(self).wf(),
            final(self)@ == steps(old(self)@, events@),
    {
        let mut i: usize = 0;
        while i < events.len()
            invariant
                self.wf(),
                0 <= i <= events@.len(),
                self@ == steps(old(self)@, events@.take(i as int)),
            decreases events@.len() - i,
        {
            assert(events@.take(i as int + 1).drop_last() =~= events@.take(i as int));
            self.translate(events[i]);
            i = i + 1;
        }
        assert(events@.take(i as int) =~= events@);
    }

    /// Hands the accumulated wheel movement to the frame and clears it, so
    /// that no movement is counted twice.
    pub fn take_wheel(&mut self) -> (r: i32)
        requires
            old(self).wf(),
        ensures
            final(self).wf(),
            r == old(self)@.wheel,
            final(self)@ == wheel_taken(old(self)@),
    {
        let w = self.wheel;
        self.wheel = 0;
        w
    }

    /// Records the display scale.
    pub fn apply_dpi(&mut self, scale_percent: u32)
        requires
            old(self).wf(),
        ensures
            final(self).wf(),
            final(self)@ == (InputView { dpi_scale_percent: scale_percent, ..old(self)@ }),
    {
        self.dpi_scale_percent = scale_percent;
    }

    /// Records what the GUI captured at the end of a frame; events are
    /// filtered by it until the next frame ends.
    pub fn set_capture(&mut self, c: Capture)
        requires
            old(self).wf(),
        ensures
            final(self).wf(),
            final(self)@ == (InputView { capture: c, ..old(self)@ }),
    {
        self.capture = c;
    }

    pub fn mouse_position(&self) -> (r: (i32, i32))
        ensures
            r == self@.mouse,
    {
        (self.mouse_x, self.mouse_y)
    }

    /// Left, middle and right button.
    pub fn mouse_buttons(&self) -> (r: (bool, bool, bool))
        ensures
            r == (self@.left, self@.middle, self@.right),
    {
        (self.left, self.middle, self.right)
    }

    pub fn wheel(&self) -> (r: i32)
        ensures
            r == self@.wheel,
    {
        self.wheel
    }

    pub fn is_key_down(&self, k: GuiKey) -> (r: bool)
        requires
            self.wf(),
        ensures
            r == self@.keys_down[key_slot(k)],
    {
        self.keys_down[slot(k)]
    }

    pub fn dpi_scale_percent(&self) -> (r: u32)
        ensures
            r == self@.dpi_scale_percent,
    {
        self.dpi_scale_percent
    }

    pub fn capture(&self) -> (r: Capture)
        ensures
            r == self@.capture,
    {
        self.capture
    }

    /// The events that reach the application, in their order: mouse events
    /// unless the GUI captured the mouse, key events unless it captured the
    /// keyboard, and all others.
    pub fn filter_events(&self, events: &Vec<InputEvent>) -> (r: Vec<InputEvent>)
        ensures
            r@ == events@.filter(passes_fn(self@.capture)),
    {
        let c = self.capture;
        let mut out: Vec<InputEvent> = Vec::new();
        let mut i: usize = 0;
        assert(events@.take(0).filter(passes_fn(c)) =~= Seq::<InputEvent>::empty()) by {
            reveal(Seq::filter);
        }
        while i < events.len()
            invariant
                c == self@.capture,
                0 <= i <= events@.len(),
                out@ == events@.take(i as int).filter(passes_fn(c)),
            decreases events@.len() - i,
        {
            let e = events[i];
            assert(events@.take(i as int + 1) =~= events@.take(i as int).push(e));
            proof {
                events@.take(i as int).lemma_filter_push(e, passes_fn(c));
            }
            if passes_through(e, c) {
                out.push(e);
            }
            i = i + 1;
        }
        assert(events@.take(i as int) =~= events@);
        out
    }
}

/// Taking the wheel movement leaves none behind: after it, a run of events
/// without wheel movement hands the next frame zero.
pub proof fn lemma_wheel_taken_once(s: InputView, es: Seq<InputEvent>)
    requires
        forall|i: int| 0 <= i < es.len() ==> !is_wheel_event(#[trigger] es[i]),
    ensures
        steps(wheel_taken(s), es).wheel == 0,
        wheel_taken(steps(wheel_taken(s), es)).wheel == 0,
    decreases es.len(),
{
    if es.len() > 0 {
        let rest = es.drop_last();
        assert forall|i: int| 0 <= i < rest.len() implies !is_wheel_event(#[trigger] rest[i]) by {
            assert(rest[i] == es[i]);
        }
        lemma_wheel_taken_once(s, rest);
        assert(!is_wheel_event(es[es.len() - 1]));
    }
}

} // verus!
