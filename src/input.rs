use vstd::prelude::*;

use crate::geometry::{Point, Rect, DISPLAY_HEIGHT, DISPLAY_WIDTH};

verus! {

/// Side length of each square quit region.
pub const CORNER_SIZE: u32 = 100;

/// The quit region in the bottom-left corner of the display.
pub open spec fn bottom_left() -> Rect {
    Rect { top: (DISPLAY_HEIGHT - CORNER_SIZE) as u32, left: 0, width: CORNER_SIZE, height: CORNER_SIZE }
}

/// The quit region in the bottom-right corner of the display.
pub open spec fn bottom_right() -> Rect {
    Rect {
        top: (DISPLAY_HEIGHT - CORNER_SIZE) as u32,
        left: (DISPLAY_WIDTH - CORNER_SIZE) as u32,
        width: CORNER_SIZE,
        height: CORNER_SIZE,
    }
}

/// The bottom-left quit region.
pub fn corner_bottom_left() -> (r: Rect)
    ensures
        r == bottom_left(),
{
    Rect { top: DISPLAY_HEIGHT - CORNER_SIZE, left: 0, width: CORNER_SIZE, height: CORNER_SIZE }
}

/// The bottom-right quit region.
pub fn corner_bottom_right() -> (r: Rect)
    ensures
        r == bottom_right(),
{
    Rect {
        top: DISPLAY_HEIGHT - CORNER_SIZE,
        left: DISPLAY_WIDTH - CORNER_SIZE,
        width: CORNER_SIZE,
        height: CORNER_SIZE,
    }
}

/// The last known state of one touch point.
#[derive(Clone, Copy, Debug, PartialEq, Eq, Structural)]
pub struct Finger {
    pub id: i32,
    pub pos: Point,
    pub pressed: bool,
}

/// The physical buttons of the device.
#[derive(Clone, Copy, Debug, PartialEq, Eq, Structural)]
pub enum Button {
    Left,
    Middle,
    Right,
    Power,
    WakeUp,
}

/// Press flags of every physical button.
#[derive(Clone, Copy, Debug, PartialEq, Eq, Structural)]
pub struct ButtonFlags {
    pub left: bool,
    pub middle: bool,
    pub right: bool,
    pub power: bool,
    pub wake_up: bool,
}

/// Whether button `b` is held in `flags`.
pub open spec fn held(flags: ButtonFlags, b: Button) -> bool {
    match b {
        Button::Left => flags.left,
        Button::Middle => flags.middle,
        Button::Right => flags.right,
        Button::Power => flags.power,
        Button::WakeUp => flags.wake_up,
    }
}

/// `flags` with button `b` held or released.
pub open spec fn with_button(flags: ButtonFlags, b: Button, pressed: bool) -> ButtonFlags {
    match b {
        Button::Left => ButtonFlags { left: pressed, ..flags },
        Button::Middle => ButtonFlags { middle: pressed, ..flags },
        Button::Right => ButtonFlags { right: pressed, ..flags },
        Button::Power => ButtonFlags { power: pressed, ..flags },
        Button::WakeUp => ButtonFlags { wake_up: pressed, ..flags },
    }
}

impl ButtonFlags {
    /// No button held.
    pub fn released() -> (r: ButtonFlags)
        ensures
            forall|b: Button| !held(r, b),
    {
        ButtonFlags { left: false, middle: false, right: false, power: false, wake_up: false }
    }

    /// Whether button `b` is held.
    pub fn is_held(&self, b: Button) -> (r: bool)
        ensures
            r == held(*self, b),
    {
        match b {
            Button::Left => self.left,
            Button::Middle => self.middle,
            Button::Right => self.right,
            Button::Power => self.power,
            Button::WakeUp => self.wake_up,
        }
    }

    /// Marks button `b` as held or released.
    pub fn set(&mut self, b: Button, pressed: bool)
        ensures
            *final(self) == with_button(*old(self), b, pressed),
    {
        match b {
            Button::Left => self.left = pressed,
            Button::Middle => self.middle = pressed,
            Button::Right => self.right = pressed,
            Button::Power => self.power = pressed,
            Button::WakeUp => self.wake_up = pressed,
        }
    }
}

/// One decoded input event.
#[derive(Clone, Copy, Debug, PartialEq, Eq, Structural)]
pub enum InputEvent {
    /// New state of the touch point `finger.id`.
    Touch { finger: Finger },
    /// A button went down (`pressed`) or up.
    Press { button: Button, pressed: bool },
}

/// No two entries describe the same touch point.
pub open spec fn unique_ids(s: Seq<Finger>) -> bool {
    forall|i: int, j: int|
        0 <= i < s.len() && 0 <= j < s.len() && s[i].id == s[j].id ==> i == j
}

/// Whether some entry of `s` describes the touch point `id`.
pub open spec fn tracks(s: Seq<Finger>, id: i32) -> bool {
    exists|i: int| 0 <= i < s.len() && s[i].id == id
}

/// The entry of `s` that describes the touch point `id`.
pub open spec fn slot_of(s: Seq<Finger>, id: i32) -> int {
    choose|i: int| 0 <= i < s.len() && s[i].id == id
}

/// `s` with the entry of `f.id` replaced by `f`, or `f` added if the point is new.
pub open spec fn with_finger(s: Seq<Finger>, f: Finger) -> Seq<Finger> {
    if tracks(s, f.id) {
        s.update(slot_of(s, f.id), f)
    } else {
        s.push(f)
    }
}

/// The input state after one event.
pub open spec fn apply_event(v: (Seq<Finger>, ButtonFlags), e: InputEvent) -> (Seq<Finger>, ButtonFlags) {
    match e {
        InputEvent::Touch { finger } => (with_finger(v.0, finger), v.1),
        InputEvent::Press { button, pressed } => (v.0, with_button(v.1, button, pressed)),
    }
}

/// The input state after the events `es`, in order.
pub open spec fn apply_events(v: (Seq<Finger>, ButtonFlags), es: Seq<InputEvent>) -> (Seq<Finger>, ButtonFlags)
    decreases es.len(),
{
    if es.len() == 0 {
        v
    } else {
        apply_event(apply_events(v, es.drop_last()), es.last())
    }
}

/// The current known state of the touch points and buttons.
pub struct InputState {
    fingers: Vec<Finger>,
    buttons: ButtonFlags,
}

impl View for InputState {
    type V = (Seq<Finger>, ButtonFlags);

    closed spec fn view(&self) -> (Seq<Finger>, ButtonFlags) {
        (self.fingers@, self.buttons)
    }
}

impl InputState {
    /// Each touch point has at most one entry.
    pub closed spec fn wf(&self) -> bool {
        unique_ids(self.fingers@)
    }

    /// No touch point known, no button held.
    pub fn new() -> (r: InputState)
        ensures
            r.wf(),
            r@.0 == Seq::<Finger>::empty(),
            forall|b: Button| !held(r@.1, b),
    {
        InputState { fingers: Vec::new(), buttons: ButtonFlags::released() }
    }

    /// The known touch points, in the order in which they first appeared.
    pub fn fingers(&self) -> (r: &Vec<Finger>)
        ensures
            r@ == self@.0,
    {
        &self.fingers
    }

    /// The press flags of the buttons.
    pub fn buttons(&self) -> (r: ButtonFlags)
        ensures
            r == self@.1,
    {
        self.buttons
    }

    /// Records one event: the newest state of a touch point or button wins.
    pub fn apply(&mut self, e: InputEvent)
        requires
            old(self).wf(),
        ensures
            final(self).wf(),
            final(self)@ == apply_event(old(self)@, e),
    {
        match e {
            InputEvent::Touch { finger } => self.put_finger(finger),
            InputEvent::Press { button, pressed } => self.buttons.set(button, pressed),
        }
    }

    fn put_finger(&mut self, f: Finger)
        requires
            old(self).wf(),
        ensures
            final(self).wf(),
            final(self).fingers@ == with_finger(old(self).fingers@, f),
            final(self).buttons == old(self).buttons,
    {
        let ghost s = self.fingers@;
        let n = self.fingers.len();
        let mut i: usize = 0;
        while i < n && self.fingers[i].id != f.id
            invariant
                self.fingers@ == s,
                n == s.len(),
                i <= n,
                forall|j: int| 0 <= j < i ==> s[j].id != f.id,
            decreases n - i,
        {
            i = i + 1;
        }
        if i < n {
            proof {
                assert(tracks(s, f.id));
                let k = slot_of(s, f.id);
                assert(s[k].id == s[i as int].id);
            }
            self.fingers.set(i, f);
            proof {
                let t = self.fingers@;
                assert forall|a: int| 0 <= a < t.len() implies t[a].id == s[a].id by {}
            }
        } else {
            self.fingers.push(f);
            proof {
                let t = self.fingers@;
                assert forall|a: int| 0 <= a < s.len() implies t[a] == s[a] by {}
            }
        }
    }

    /// Records the events `es` in the order given.
    pub fn update(&mut self, es: &Vec<InputEvent>)
        requires
            old(self).wf(),
        ensures
            final(self).wf(),
            final(self)@ == apply_events(old(self)@, es@),
    {
        let ghost v0 = self@;
        let mut i: usize = 0;
        while i < es.len()
            invariant
                self.wf(),
                i <= es.len(),
                self@ == apply_events(v0, es@.subrange(0, i as int)),
            decreases es.len() - i,
        {
            proof {
                assert(es@.subrange(0, i + 1).drop_last() =~= es@.subrange(0, i as int));
            }
            self.apply(es[i]);
            i = i + 1;
        }
        proof {
            assert(es@.subrange(0, es.len() as int) =~= es@);
        }
    }
}


/// Recording a touch point is last-write-wins per identifier: afterwards the
/// point's entry is the new one, every other point keeps its entry, and no
/// identifier appears twice.
pub proof fn lemma_last_write_wins(s: Seq<Finger>, f: Finger, id: i32)
    requires
        unique_ids(s),
    ensures
        unique_ids(with_finger(s, f)),
        tracks(with_finger(s, f), f.id),
        with_finger(s, f)[slot_of(with_finger(s, f), f.id)] == f,
        id != f.id ==> tracks(with_finger(s, f), id) == tracks(s, id),
        id != f.id && tracks(s, id) ==> with_finger(s, f)[slot_of(with_finger(s, f), id)] == s[slot_of(s, id)],
{
    let t = with_finger(s, f);
    if tracks(s, f.id) {
        let k = slot_of(s, f.id);
        assert forall|a: int| 0 <= a < t.len() implies t[a].id == s[a].id by {}
        assert(t[k].id == f.id);
        if id != f.id && tracks(s, id) {
            let j = slot_of(s, id);
            assert(t[j].id == id);
        }
        if id != f.id && tracks(t, id) {
            let j = slot_of(t, id);
            assert(s[j].id == id);
        }
    } else {
        assert forall|a: int| 0 <= a < s.len() implies t[a] == s[a] by {}
        assert(t[s.len() as int] == f);
        if id != f.id && tracks(s, id) {
            let j = slot_of(s, id);
            assert(t[j].id == id);
        }
        if id != f.id && tracks(t, id) {
            let j = slot_of(t, id);
            assert(j < s.len());
            assert(s[j].id == id);
        }
    }
}


/// Two distinct touch points recorded on a fresh state are its only entries,
/// in the order recorded.
pub proof fn lemma_two_new_touches(a: Finger, b: Finger)
    requires
        a.id != b.id,
    ensures
        with_finger(with_finger(Seq::<Finger>::empty(), a), b) == seq![a, b],
{
    let none = Seq::<Finger>::empty();
    assert(!tracks(none, a.id));
    assert(with_finger(none, a) =~= seq![a]);
    assert(!tracks(seq![a], b.id));
    assert(seq![a].push(b) =~= seq![a, b]);
}

} // verus!
