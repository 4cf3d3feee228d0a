use vstd::prelude::*;

verus! {

/// The global wireframe rendering switch.
///
/// The switch flips once for each press of the toggle key; a frame without a
/// fresh press (the key idle or held down) leaves it as it was.
pub struct WireframeSwitch {
    pub global: bool,
}

/// The value of the switch after one frame, given whether the toggle key was
/// pressed during that frame.
pub open spec fn switch_step(global: bool, just_pressed: bool) -> bool {
    if just_pressed {
        !global
    } else {
        global
    }
}

/// The value of the switch after a run of frames, one press flag per frame.
pub open spec fn switch_after(global: bool, presses: Seq<bool>) -> bool
    decreases presses.len(),
{
    if presses.len() == 0 {
        global
    } else {
        switch_step(switch_after(global, presses.drop_last()), presses.last())
    }
}

/// How many frames of a run saw a fresh press.
pub open spec fn press_count(presses: Seq<bool>) -> nat
    decreases presses.len(),
{
    if presses.len() == 0 {
        0
    } else {
        press_count(presses.drop_last()) + if presses.last() {
            1nat
        } else {
            0nat
        }
    }
}

impl WireframeSwitch {
    /// The switch as a scene starts: wireframe drawing on.
    pub fn new() -> (r: WireframeSwitch)
        ensures
            r.global,
    {
        WireframeSwitch { global: true }
    }

    /// Runs one frame of the switch: flips it exactly when the toggle key was
    /// pressed during the frame.
    pub fn toggle_wireframe(&mut self, just_pressed: bool)
        ensures
            final(self).global == switch_step(old(self).global, just_pressed),
            final(self).global == (old(self).global != just_pressed),
    {
        if just_pressed {
            self.global = !self.global;
        }
    }
}

/// Two presses in a row bring the switch back to where it was.
pub proof fn lemma_two_presses_restore(global: bool)
    ensures
        switch_step(switch_step(global, true), true) == global,
        switch_step(global, true) != global,
{
}

/// Over any run of frames the switch has flipped once per press: it ends where
/// it started exactly when the number of presses is even.
pub proof fn lemma_switch_after_presses(global: bool, presses: Seq<bool>)
    ensures
        switch_after(global, presses) == (global == (press_count(presses) % 2 == 0)),
    decreases presses.len(),
{
    if presses.len() > 0 {
        lemma_switch_after_presses(global, presses.drop_last());
    }
}

/// Frames without a fresh press, however many (a key held down, or no key),
/// never flip the switch.
pub proof fn lemma_no_press_no_toggle(global: bool, presses: Seq<bool>)
    requires
        forall|i: int| 0 <= i < presses.len() ==> !presses[i],
    ensures
        switch_after(global, presses) == global,
    decreases presses.len(),
{
    if presses.len() > 0 {
        lemma_no_press_no_toggle(global, presses.drop_last());
    }
}

} // verus!
