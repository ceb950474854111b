use vstd::prelude::*;

use crate::math::Vector2;

verus! {

/// An input or lifecycle event a window reports, in the order the
/// platform delivered it.
#[derive(Clone, Copy)]
pub enum SurfaceEvent {
    Close,
    Resize(Vector2<usize>),
    KeyPressed(Keycode),
    KeyReleased(Keycode),
    MousePressed(MouseButton, Vector2<isize>),
    MouseReleased(MouseButton, Vector2<isize>),
    MouseMoved(Vector2<isize>),
}

#[derive(Debug, Clone, Copy, PartialEq, Eq, Hash, Structural)]
pub enum MouseButton {
    Left,
    Middle,
    Right,
}

#[derive(Debug, Clone, Copy, PartialEq, Eq, Hash, Structural)]
pub enum Keycode {
    Num0,
    Num1,
    Num2,
    Num3,
    Num4,
    Num5,
    Num6,
    Num7,
    Num8,
    Num9,
    A,
    B,
    C,
    D,
    E,
    F,
    G,
    H,
    I,
    J,
    K,
    L,
    M,
    N,
    O,
    P,
    Q,
    R,
    S,
    T,
    U,
    V,
    W,
    X,
    Y,
    Z,
    Left,
    Up,
    Right,
    Down,
    Control,
    Shift,
    Alt,
}

/// A dense index for each keycode, for the held-key table.
pub open spec fn key_index_m(k: Keycode) -> int {
    match k {
        Keycode::Num0 => 0,
        Keycode::Num1 => 1,
        Keycode::Num2 => 2,
        Keycode::Num3 => 3,
        Keycode::Num4 => 4,
        Keycode::Num5 => 5,
        Keycode::Num6 => 6,
        Keycode::Num7 => 7,
        Keycode::Num8 => 8,
        Keycode::Num9 => 9,
        Keycode::A => 10,
        Keycode::B => 11,
        Keycode::C => 12,
        Keycode::D => 13,
        Keycode::E => 14,
        Keycode::F => 15,
        Keycode::G => 16,
        Keycode::H => 17,
        Keycode::I => 18,
        Keycode::J => 19,
        Keycode::K => 20,
        Keycode::L => 21,
        Keycode::M => 22,
        Keycode::N => 23,
        Keycode::O => 24,
        Keycode::P => 25,
        Keycode::Q => 26,
        Keycode::R => 27,
        Keycode::S => 28,
        Keycode::T => 29,
        Keycode::U => 30,
        Keycode::V => 31,
        Keycode::W => 32,
        Keycode::X => 33,
        Keycode::Y => 34,
        Keycode::Z => 35,
        Keycode::Left => 36,
        Keycode::Up => 37,
        Keycode::Right => 38,
        Keycode::Down => 39,
        Keycode::Control => 40,
        Keycode::Shift => 41,
        Keycode::Alt => 42,
    }
}

/// A dense index for each mouse button, for the held-button table.
pub open spec fn mouse_button_index_m(b: MouseButton) -> int {
    match b {
        MouseButton::Left => 0,
        MouseButton::Middle => 1,
        MouseButton::Right => 2,
    }
}

impl Keycode {
    /// The dense index of this keycode.
    pub fn index(self) -> (r: usize)
        ensures
            r as int == key_index_m(self),
            r < 43,
    {
        match self {
            Keycode::Num0 => 0,
            Keycode::Num1 => 1,
            Keycode::Num2 => 2,
            Keycode::Num3 => 3,
            Keycode::Num4 => 4,
            Keycode::Num5 => 5,
            Keycode::Num6 => 6,
            Keycode::Num7 => 7,
            Keycode::Num8 => 8,
            Keycode::Num9 => 9,
            Keycode::A => 10,
            Keycode::B => 11,
            Keycode::C => 12,
            Keycode::D => 13,
            Keycode::E => 14,
            Keycode::F => 15,
            Keycode::G => 16,
            Keycode::H => 17,
            Keycode::I => 18,
            Keycode::J => 19,
            Keycode::K => 20,
            Keycode::L => 21,
            Keycode::M => 22,
            Keycode::N => 23,
            Keycode::O => 24,
            Keycode::P => 25,
            Keycode::Q => 26,
            Keycode::R => 27,
            Keycode::S => 28,
            Keycode::T => 29,
            Keycode::U => 30,
            Keycode::V => 31,
            Keycode::W => 32,
            Keycode::X => 33,
            Keycode::Y => 34,
            Keycode::Z => 35,
            Keycode::Left => 36,
            Keycode::Up => 37,
            Keycode::Right => 38,
            Keycode::Down => 39,
            Keycode::Control => 40,
            Keycode::Shift => 41,
            Keycode::Alt => 42,
        }
    }
}

impl MouseButton {
    /// The dense index of this button.
    pub fn index(self) -> (r: usize)
        ensures
            r as int == mouse_button_index_m(self),
            r < 3,
    {
        match self {
            MouseButton::Left => 0,
            MouseButton::Middle => 1,
            MouseButton::Right => 2,
        }
    }
}

/// The core's model of a native window: its client size, the held keys
/// and mouse buttons, the pointer position, and the events accumulated
/// since the last drain. A host program owns the native window, feeds
/// platform messages in through the `handle_*` methods, and the
/// application reads the state and drains the events from here.
pub struct Surface {
    pub(crate) size: Vector2<usize>,
    pub(crate) visible: bool,
    pub(crate) key_states: Vec<bool>,
    pub(crate) mouse_button_states: Vec<bool>,
    pub(crate) mouse_position: Vector2<isize>,
    pub(crate) events: Vec<SurfaceEvent>,
}

/// The two held-state tables agree between `pre` and `post`.
pub open spec fn same_tables(pre: Surface, post: Surface) -> bool {
    (forall|k: Keycode| post.key_state_m(k) == pre.key_state_m(k)) && (forall|b: MouseButton|
        post.mouse_state_m(b) == pre.mouse_state_m(b))
}

impl Surface {
    /// The last known client size.
    pub closed spec fn spec_size(self) -> Vector2<usize> {
        self.size
    }

    /// Whether the window is shown.
    pub closed spec fn spec_visible(self) -> bool {
        self.visible
    }

    /// Whether a key is currently held.
    pub closed spec fn key_state_m(self, k: Keycode) -> bool {
        self.key_states@[key_index_m(k)]
    }

    /// Whether a mouse button is currently held.
    pub closed spec fn mouse_state_m(self, b: MouseButton) -> bool {
        self.mouse_button_states@[mouse_button_index_m(b)]
    }

    /// The last reported pointer position.
    pub closed spec fn spec_mouse_position(self) -> Vector2<isize> {
        self.mouse_position
    }

    /// The events accumulated since the last drain.
    pub closed spec fn spec_events(self) -> Seq<SurfaceEvent> {
        self.events@
    }

    /// The state tables have one slot per keycode and button.
    pub closed spec fn wf(self) -> bool {
        self.key_states@.len() == 43 && self.mouse_button_states@.len() == 3
    }

    /// A fresh window model of the given client size: hidden, nothing
    /// held, no events pending.
    pub fn new(size: Vector2<usize>) -> (r: Surface)
        ensures
            r.wf(),
            r.spec_size() == size,
            !r.spec_visible(),
            forall|k: Keycode| !r.key_state_m(k),
            forall|b: MouseButton| !r.mouse_state_m(b),
            r.spec_mouse_position().x == 0 && r.spec_mouse_position().y == 0,
            r.spec_events() == Seq::<SurfaceEvent>::empty(),
    {
        let mut key_states: Vec<bool> = Vec::new();
        let mut i: usize = 0;
        while i < 43
            invariant
                i <= 43,
                key_states@.len() == i,
                forall|k: int| 0 <= k < i ==> !(#[trigger] key_states@[k]),
            decreases 43 - i,
        {
            key_states.push(false);
            i += 1;
        }
        let mut mouse_button_states: Vec<bool> = Vec::new();
        let mut j: usize = 0;
        while j < 3
            invariant
                j <= 3,
                mouse_button_states@.len() == j,
                forall|k: int| 0 <= k < j ==> !(#[trigger] mouse_button_states@[k]),
            decreases 3 - j,
        {
            mouse_button_states.push(false);
            j += 1;
        }
        Surface {
            size,
            visible: false,
            key_states,
            mouse_button_states,
            mouse_position: Vector2::new(0, 0),
            events: Vec::new(),
        }
    }

    /// Marks the window shown (the host program shows the native one).
    pub fn show(&mut self)
        ensures
            final(self).spec_visible(),
            final(self).spec_size() == old(self).spec_size(),
            final(self).spec_mouse_position() == old(self).spec_mouse_position(),
            final(self).spec_events() == old(self).spec_events(),
            same_tables(*old(self), *final(self)),
            old(self).wf() ==> final(self).wf(),
    {
        self.visible = true;
    }

    /// Marks the window hidden.
    pub fn conceal(&mut self)
        ensures
            !final(self).spec_visible(),
            final(self).spec_size() == old(self).spec_size(),
            final(self).spec_mouse_position() == old(self).spec_mouse_position(),
            final(self).spec_events() == old(self).spec_events(),
            same_tables(*old(self), *final(self)),
            old(self).wf() ==> final(self).wf(),
    {
        self.visible = false;
    }

    /// The last known client size.
    pub fn get_size(&self) -> (r: Vector2<usize>)
        ensures
            r == self.spec_size(),
    {
        self.size
    }

    /// Whether a key is currently held.
    pub fn get_key_state(&self, key: Keycode) -> (r: bool)
        requires
            self.wf(),
        ensures
            r == self.key_state_m(key),
    {
        self.key_states[key.index()]
    }

    /// Whether a mouse button is currently held.
    pub fn get_mouse_button_state(&self, button: MouseButton) -> (r: bool)
        requires
            self.wf(),
        ensures
            r == self.mouse_state_m(button),
    {
        self.mouse_button_states[button.index()]
    }

    /// The last reported pointer position.
    pub fn get_mouse_position(&self) -> (r: Vector2<isize>)
        ensures
            r == self.spec_mouse_position(),
    {
        self.mouse_position
    }

    /// Drains the accumulated events: returns everything gathered since
    /// the last call, leaving nothing behind. Draining again yields
    /// nothing until new messages arrive.
    pub fn events(&mut self) -> (r: Vec<SurfaceEvent>)
        ensures
            r@ == old(self).spec_events(),
            final(self).spec_events() == Seq::<SurfaceEvent>::empty(),
            final(self).spec_size() == old(self).spec_size(),
            final(self).spec_visible() == old(self).spec_visible(),
            final(self).spec_mouse_position() == old(self).spec_mouse_position(),
            same_tables(*old(self), *final(self)),
            old(self).wf() ==> final(self).wf(),
    {
        let mut out: Vec<SurfaceEvent> = Vec::new();
        core::mem::swap(&mut out, &mut self.events);
        out
    }

    /// Records a close request.
    pub fn handle_close(&mut self)
        ensures
            final(self).spec_events() == old(self).spec_events().push(SurfaceEvent::Close),
            final(self).spec_size() == old(self).spec_size(),
            final(self).spec_visible() == old(self).spec_visible(),
            final(self).spec_mouse_position() == old(self).spec_mouse_position(),
            same_tables(*old(self), *final(self)),
            old(self).wf() ==> final(self).wf(),
    {
        self.events.push(SurfaceEvent::Close);
    }

    /// Records a client-area resize. Degenerate (zero) sizes are
    /// dropped, as minimized windows report them.
    pub fn handle_resize(&mut self, width: usize, height: usize)
        ensures
            width > 0 && height > 0 ==> final(self).spec_size() == (Vector2::<usize> {
                x: width,
                y: height,
            }) && final(self).spec_events() == old(self).spec_events().push(
                SurfaceEvent::Resize(Vector2::<usize> { x: width, y: height }),
            ),
            !(width > 0 && height > 0) ==> *final(self) == *old(self),
            final(self).spec_visible() == old(self).spec_visible(),
            final(self).spec_mouse_position() == old(self).spec_mouse_position(),
            same_tables(*old(self), *final(self)),
            old(self).wf() ==> final(self).wf(),
    {
        if width > 0 && height > 0 {
            let size = Vector2::new(width, height);
            self.size = size;
            self.events.push(SurfaceEvent::Resize(size));
        }
    }

    /// Records a key transition, with one pressed or released event per
    /// platform-reported repeat.
    pub fn handle_key(&mut self, key: Keycode, pressed: bool, repeats: usize)
        requires
            old(self).wf(),
        ensures
            final(self).wf(),
            final(self).spec_size() == old(self).spec_size(),
            final(self).spec_visible() == old(self).spec_visible(),
            final(self).spec_mouse_position() == old(self).spec_mouse_position(),
            final(self).key_state_m(key) == pressed,
            forall|k: Keycode|
                key_index_m(k) != key_index_m(key) ==> final(self).key_state_m(k) == old(self).key_state_m(k),
            forall|b: MouseButton| final(self).mouse_state_m(b) == old(self).mouse_state_m(b),
            final(self).spec_events() == old(self).spec_events() + Seq::new(
                repeats as nat,
                |i: int| if pressed {
                    SurfaceEvent::KeyPressed(key)
                } else {
                    SurfaceEvent::KeyReleased(key)
                },
            ),
    {
        let idx = key.index();
        self.key_states[idx] = pressed;
        let mut i: usize = 0;
        while i < repeats
            invariant
                i <= repeats,
                self.size == old(self).size,
                self.visible == old(self).visible,
                self.mouse_button_states == old(self).mouse_button_states,
                self.mouse_position == old(self).mouse_position,
                self.key_states@ == old(self).key_states@.update(key_index_m(key), pressed),
                old(self).wf(),
                self.events@ == old(self).events@ + Seq::new(
                    i as nat,
                    |k: int| if pressed {
                        SurfaceEvent::KeyPressed(key)
                    } else {
                        SurfaceEvent::KeyReleased(key)
                    },
                ),
            decreases repeats - i,
        {
            self.events.push(
                if pressed {
                    SurfaceEvent::KeyPressed(key)
                } else {
                    SurfaceEvent::KeyReleased(key)
                },
            );
            proof {
                assert(self.events@ =~= old(self).events@ + Seq::new(
                    (i + 1) as nat,
                    |k: int| if pressed {
                        SurfaceEvent::KeyPressed(key)
                    } else {
                        SurfaceEvent::KeyReleased(key)
                    },
                ));
            }
            i += 1;
        }
    }

    /// Records a mouse button transition at a pointer position.
    pub fn handle_mouse_button(
        &mut self,
        button: MouseButton,
        pressed: bool,
        position: Vector2<isize>,
    )
        requires
            old(self).wf(),
        ensures
            final(self).wf(),
            final(self).spec_size() == old(self).spec_size(),
            final(self).spec_visible() == old(self).spec_visible(),
            final(self).spec_mouse_position() == position,
            final(self).mouse_state_m(button) == pressed,
            forall|b: MouseButton|
                mouse_button_index_m(b) != mouse_button_index_m(button) ==> final(self).mouse_state_m(b) == old(self).mouse_state_m(b),
            forall|k: Keycode| final(self).key_state_m(k) == old(self).key_state_m(k),
            final(self).spec_events() == old(self).spec_events().push(
                if pressed {
                    SurfaceEvent::MousePressed(button, position)
                } else {
                    SurfaceEvent::MouseReleased(button, position)
                },
            ),
    {
        let idx = button.index();
        self.mouse_button_states[idx] = pressed;
        self.mouse_position = position;
        self.events.push(
            if pressed {
                SurfaceEvent::MousePressed(button, position)
            } else {
                SurfaceEvent::MouseReleased(button, position)
            },
        );
    }

    /// Records a pointer move.
    pub fn handle_mouse_move(&mut self, position: Vector2<isize>)
        ensures
            final(self).spec_mouse_position() == position,
            final(self).spec_size() == old(self).spec_size(),
            final(self).spec_visible() == old(self).spec_visible(),
            same_tables(*old(self), *final(self)),
            final(self).spec_events() == old(self).spec_events().push(
                SurfaceEvent::MouseMoved(position),
            ),
            old(self).wf() ==> final(self).wf(),
    {
        self.mouse_position = position;
        self.events.push(SurfaceEvent::MouseMoved(position));
    }
}

} // verus!
