use vstd::prelude::*;

use crate::geometry::{contains, is_hitting, Rect};
use crate::input::{
    bottom_left, bottom_right, corner_bottom_left, corner_bottom_right, held, with_button,
    Button, ButtonFlags, Finger, InputState,
};

verus! {

/// Number of entries of `s` that are pressed.
pub open spec fn pressed_count(s: Seq<Finger>) -> nat
    decreases s.len(),
{
    if s.len() == 0 {
        0
    } else {
        pressed_count(s.drop_last()) + if s.last().pressed { 1nat } else { 0nat }
    }
}

/// Some pressed entry of `s` lies in `r`.
pub open spec fn pressed_in(s: Seq<Finger>, r: Rect) -> bool {
    exists|i: int| 0 <= i < s.len() && s[i].pressed && contains(r, s[i].pos)
}

/// Exactly two touch points are down, one of them in each bottom corner.
pub open spec fn corners_touched(s: Seq<Finger>) -> bool {
    &&& pressed_count(s) == 2
    &&& pressed_in(s, bottom_left())
    &&& pressed_in(s, bottom_right())
}

/// How a user asks to quit; one strategy is chosen per run from the hardware.
#[derive(Clone, Copy, Debug, PartialEq, Eq, Structural)]
pub enum QuitTrigger {
    /// Two fingers, one in each bottom corner of the screen.
    TouchCorners,
    /// Two physical buttons held at once.
    ButtonCombo { first: Button, second: Button },
}

/// Whether the quit condition holds in the input state `v`.
pub open spec fn quit_requested(t: QuitTrigger, v: (Seq<Finger>, ButtonFlags)) -> bool {
    match t {
        QuitTrigger::TouchCorners => corners_touched(v.0),
        QuitTrigger::ButtonCombo { first, second } => held(v.1, first) && held(v.1, second),
    }
}

/// Evaluates the touch strategy on the known touch points.
pub fn corners_touched_by(fingers: &Vec<Finger>) -> (r: bool)
    ensures
        r == corners_touched(fingers@),
{
    let s = Ghost(fingers@);
    let bl = corner_bottom_left();
    let br = corner_bottom_right();
    let mut count: usize = 0;
    let mut in_bl = false;
    let mut in_br = false;
    let mut i: usize = 0;
    while i < fingers.len()
        invariant
            s@ == fingers@,
            bl == bottom_left(),
            br == bottom_right(),
            i <= fingers.len(),
            count == pressed_count(s@.subrange(0, i as int)),
            count <= i,
            in_bl == exists|j: int| 0 <= j < i && s@[j].pressed && contains(bl, s@[j].pos),
            in_br == exists|j: int| 0 <= j < i && s@[j].pressed && contains(br, s@[j].pos),
        decreases fingers.len() - i,
    {
        let f = fingers[i];
        proof {
            assert(s@.subrange(0, i + 1).drop_last() =~= s@.subrange(0, i as int));
        }
        if f.pressed {
            count = count + 1;
            if is_hitting(f.pos, bl) {
                in_bl = true;
            }
            if is_hitting(f.pos, br) {
                in_br = true;
            }
        }
        i = i + 1;
    }
    proof {
        assert(s@.subrange(0, fingers.len() as int) =~= s@);
    }
    count == 2 && in_bl && in_br
}

impl QuitTrigger {
    /// Whether the quit condition holds now; re-evaluated fresh each cycle.
    pub fn evaluate(&self, state: &InputState) -> (r: bool)
        ensures
            r == quit_requested(*self, state@),
    {
        match *self {
            QuitTrigger::TouchCorners => corners_touched_by(state.fingers()),
            QuitTrigger::ButtonCombo { first, second } => {
                let flags = state.buttons();
                flags.is_held(first) && flags.is_held(second)
            },
        }
    }
}

/// Two pressed touch points, one inside each bottom corner, request quitting.
/// One pressed point in a corner with nothing in the other does not, and neither
/// do two pressed points in the same corner.
pub proof fn lemma_corner_gesture(a: Finger, b: Finger, flags: ButtonFlags)
    requires
        a.pressed,
        b.pressed,
    ensures
        contains(bottom_left(), a.pos) && contains(bottom_right(), b.pos)
            ==> quit_requested(QuitTrigger::TouchCorners, (seq![a, b], flags)),
        !quit_requested(QuitTrigger::TouchCorners, (seq![a], flags)),
        contains(bottom_left(), a.pos) && contains(bottom_left(), b.pos)
            ==> !quit_requested(QuitTrigger::TouchCorners, (seq![a, b], flags)),
        contains(bottom_right(), a.pos) && contains(bottom_right(), b.pos)
            ==> !quit_requested(QuitTrigger::TouchCorners, (seq![a, b], flags)),
{
    let one = seq![a];
    let two = seq![a, b];
    assert(one.drop_last() =~= Seq::<Finger>::empty());
    assert(two.drop_last() =~= one);
    assert(pressed_count(Seq::<Finger>::empty()) == 0);
    assert(pressed_count(one) == 1);
    assert(pressed_count(two) == 2);
    if contains(bottom_left(), a.pos) && contains(bottom_right(), b.pos) {
        assert(two[0] == a && two[1] == b);
        assert(pressed_in(two, bottom_left()));
        assert(pressed_in(two, bottom_right()));
    }
    if contains(bottom_left(), a.pos) && contains(bottom_left(), b.pos) {
        assert(!pressed_in(two, bottom_right()));
    }
    if contains(bottom_right(), a.pos) && contains(bottom_right(), b.pos) {
        assert(!pressed_in(two, bottom_left()));
    }
}

/// Holding both designated buttons requests quitting; holding only one of
/// them does not; releasing either one ends the request.
pub proof fn lemma_button_combo(s: Seq<Finger>, flags: ButtonFlags, first: Button, second: Button)
    requires
        first != second,
    ensures
        quit_requested(
            QuitTrigger::ButtonCombo { first, second },
            (s, with_button(with_button(flags, first, true), second, true)),
        ),
        !held(flags, second) ==> !quit_requested(
            QuitTrigger::ButtonCombo { first, second },
            (s, with_button(flags, first, true)),
        ),
        !held(flags, first) ==> !quit_requested(
            QuitTrigger::ButtonCombo { first, second },
            (s, with_button(flags, second, true)),
        ),
        !quit_requested(QuitTrigger::ButtonCombo { first, second }, (s, with_button(flags, first, false))),
        !quit_requested(QuitTrigger::ButtonCombo { first, second }, (s, with_button(flags, second, false))),
{
    lemma_with_button(flags, first, true);
    lemma_with_button(with_button(flags, first, true), second, true);
    lemma_with_button(flags, second, true);
    lemma_with_button(flags, first, false);
    lemma_with_button(flags, second, false);
}

/// Setting one button leaves the others as they were.
pub proof fn lemma_with_button(flags: ButtonFlags, b: Button, pressed: bool)
    ensures
        forall|c: Button| #[trigger] held(with_button(flags, b, pressed), c)
            == if c == b { pressed } else { held(flags, c) },
{
    assert forall|c: Button| #[trigger] held(with_button(flags, b, pressed), c)
        == if c == b { pressed } else { held(flags, c) } by {
        match b {
            Button::Left => {},
            Button::Middle => {},
            Button::Right => {},
            Button::Power => {},
            Button::WakeUp => {},
        }
        match c {
            Button::Left => {},
            Button::Middle => {},
            Button::Right => {},
            Button::Power => {},
            Button::WakeUp => {},
        }
    }
}

} // verus!
