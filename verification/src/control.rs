//! The decisions of the outer emulator loop: which control actions a poll
//! of the input layer produced, how they change the loop's mode flags,
//! whether a cycle runs this iteration, key-press aging, and the beep
//! countdown. The host performs the I/O these decisions steer.

use vstd::prelude::*;

verus! {

/// The emulator-control actions decoded from one poll of the input layer.
#[derive(Clone, Copy, Debug, PartialEq, Eq, Structural)]
pub struct KeyActions {
    /// Leave the emulator.
    pub exit: bool,
    /// In step mode, run one more instruction.
    pub next_step: bool,
    /// Toggle step mode.
    pub step: bool,
    /// Toggle the debug display.
    pub debug: bool,
    /// Dump memory to a file.
    pub mem_dump: bool,
}

/// The mode flags the outer loop carries between iterations.
#[derive(Clone, Copy, Debug, PartialEq, Eq, Structural)]
pub struct LoopControl {
    /// Leave the loop after this iteration.
    pub exit: bool,
    /// Step mode: run an instruction only on request.
    pub step: bool,
    /// One instruction was requested in step mode.
    pub next_step: bool,
    /// The debug display is shown.
    pub debug: bool,
    /// The info area must be redrawn.
    pub info_redraw: bool,
}

/// Fold one poll's actions into the loop flags: exit and next-step are
/// taken as they are, step and debug toggle their modes, and either
/// toggle forces an info redraw.
pub fn apply_key_actions(ctl: &mut LoopControl, ka: &KeyActions)
    ensures
        final(ctl).exit == ka.exit,
        final(ctl).next_step == ka.next_step,
        final(ctl).step == (old(ctl).step != ka.step),
        final(ctl).debug == (old(ctl).debug != ka.debug),
        final(ctl).info_redraw == (old(ctl).info_redraw || ka.step || ka.debug),
{
    ctl.exit = ka.exit;
    ctl.next_step = ka.next_step;
    if ka.step {
        ctl.step = !ctl.step;
        ctl.info_redraw = true;
    }
    if ka.debug {
        ctl.debug = !ctl.debug;
        ctl.info_redraw = true;
    }
}

/// Whether this loop iteration runs a machine cycle: not while a redraw
/// is pending, and in step mode only when one step was requested.
pub fn should_cycle(ctl: &LoopControl, draw_pending: bool) -> (r: bool)
    ensures
        r == ((!ctl.step || ctl.next_step) && !draw_pending),
{
    (!ctl.step || ctl.next_step) && !draw_pending
}

/// Age the key-press timers by one iteration: each running timer counts
/// down, and a key whose timer just ran out is released.
pub fn tick_key_timers(key_timer: &mut [u8; 16], keypad: &mut [u8; 16])
    ensures
        forall|k: int|
            0 <= k < 16 ==> #[trigger] final(key_timer)@[k] == (if old(key_timer)@[k] > 0 {
                (old(key_timer)@[k] - 1) as u8
            } else {
                old(key_timer)@[k]
            }),
        forall|k: int|
            0 <= k < 16 ==> #[trigger] final(keypad)@[k] == (if old(key_timer)@[k] == 1 {
                0u8
            } else {
                old(keypad)@[k]
            }),
{
    let mut k: usize = 0;
    while k < 16
        invariant
            k <= 16,
            forall|j: int|
                0 <= j < k ==> #[trigger] key_timer@[j] == (if old(key_timer)@[j] > 0 {
                    (old(key_timer)@[j] - 1) as u8
                } else {
                    old(key_timer)@[j]
                }),
            forall|j: int|
                0 <= j < k ==> #[trigger] keypad@[j] == (if old(key_timer)@[j] == 1 {
                    0u8
                } else {
                    old(keypad)@[j]
                }),
            forall|j: int| k <= j < 16 ==> #[trigger] key_timer@[j] == old(key_timer)@[j],
            forall|j: int| k <= j < 16 ==> #[trigger] keypad@[j] == old(keypad)@[j],
        decreases 16 - k,
    {
        if key_timer[k] > 0 {
            key_timer[k] = key_timer[k] - 1;
            if key_timer[k] == 0 {
                keypad[k] = 0;
            }
        }
        k = k + 1;
    }
}

/// Register a typed character: every machine key whose binding matches is
/// pressed and its timer rearmed, all other keys untouched.
#[verifier::loop_isolation(false)]
pub fn press_matching(keypad: &mut [u8; 16], key_timer: &mut [u8; 16], keys: &[char; 16], c: char)
    ensures
        forall|k: int| 0 <= k < 16 && keys@[k] == c ==> #[trigger] final(keypad)@[k] == 1u8,
        forall|k: int| 0 <= k < 16 && keys@[k] == c ==> #[trigger] final(key_timer)@[k] == 25u8,
        forall|k: int|
            0 <= k < 16 && keys@[k] != c ==> #[trigger] final(keypad)@[k] == old(keypad)@[k],
        forall|k: int|
            0 <= k < 16 && keys@[k] != c ==> #[trigger] final(key_timer)@[k] == old(key_timer)@[k],
{
    let mut k: usize = 0;
    while k < 16
        invariant
            k <= 16,
            forall|j: int| 0 <= j < k && keys@[j] == c ==> #[trigger] keypad@[j] == 1u8,
            forall|j: int| 0 <= j < k && keys@[j] == c ==> #[trigger] key_timer@[j] == 25u8,
            forall|j: int|
                0 <= j < k && keys@[j] != c ==> #[trigger] keypad@[j] == old(keypad)@[j],
            forall|j: int|
                0 <= j < k && keys@[j] != c ==> #[trigger] key_timer@[j] == old(key_timer)@[j],
            forall|j: int| k <= j < 16 ==> #[trigger] keypad@[j] == old(keypad)@[j],
            forall|j: int| k <= j < 16 ==> #[trigger] key_timer@[j] == old(key_timer)@[j],
        decreases 16 - k,
    {
        if keys[k] == c {
            keypad[k] = 1;
            key_timer[k] = 25;
        }
        k = k + 1;
    }
}

/// What the audio layer is told to do on one loop iteration.
#[derive(Clone, Copy, Debug, PartialEq, Eq, Structural)]
pub struct SoundAction {
    /// Start sounding the tone.
    pub play: bool,
    /// Stop sounding the tone.
    pub pause: bool,
}

/// One iteration of the beep countdown: a pending tone request starts the
/// tone and arms a 25-iteration timer; when the timer runs out the tone
/// is paused. The tone request flag is always consumed.
pub fn sound_step(beep: &mut bool, beep_timer: &mut u8) -> (r: SoundAction)
    ensures
        r.play == *old(beep),
        *final(beep) == false,
        ({
            let armed: u8 = if *old(beep) {
                25u8
            } else {
                *old(beep_timer)
            };
            &&& *final(beep_timer) == (if armed > 0 {
                (armed - 1) as u8
            } else {
                armed
            })
            &&& r.pause == (armed == 1)
        }),
{
    let mut play = false;
    let mut pause = false;
    if *beep {
        play = true;
        *beep_timer = 25;
        *beep = false;
    }
    if *beep_timer > 0 {
        *beep_timer = *beep_timer - 1;
        if *beep_timer == 0 {
            pause = true;
        }
    }
    SoundAction { play, pause }
}

} // verus!
