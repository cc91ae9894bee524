//! Playback control signals: the decoded commands of the input listener and
//! the state machines of the quit flag, the reset and flip flags, the pause
//! gate and the speed scale.
//!
//! These types hold the pure signal states and their transitions; the
//! process-wide sharing (atomics, the blocking wait of the pause gate and
//! the listener thread) wraps them outside the library, one field mutated
//! per input event.

use vstd::arithmetic::power2::pow2;
use vstd::prelude::*;

verus! {

/// The largest speed-scale exponent.
pub const MAX_EXPONENT: i8 = 10;

/// The smallest speed-scale exponent.
pub const MIN_EXPONENT: i8 = -10;

/// One recognized control request from the input listener.
#[derive(Clone, Copy, Debug, PartialEq, Eq, Structural)]
pub enum Command {
    /// Raise the speed-scale exponent.
    SpeedUp,
    /// Lower the speed-scale exponent.
    SlowDown,
    /// Flip the pause gate.
    TogglePause,
    /// Request one round of random cell flips.
    Flip,
    /// Request a rebuild from the genesis grid.
    Reset,
    /// Request a terminal, irreversible shutdown.
    Quit,
}

/// The command that one key press decodes to, if any: the letter keys in
/// either case select their command, and `ctrl`+`c` quits.
pub open spec fn spec_from_key(key: char, ctrl: bool) -> Option<Command> {
    if key == 'j' || key == 'J' {
        Some(Command::SpeedUp)
    } else if key == 'k' || key == 'K' {
        Some(Command::SlowDown)
    } else if key == 'p' || key == 'P' {
        Some(Command::TogglePause)
    } else if key == 'f' || key == 'F' {
        Some(Command::Flip)
    } else if key == 'q' || key == 'Q' {
        Some(Command::Quit)
    } else if key == 'r' || key == 'R' {
        Some(Command::Reset)
    } else if (key == 'c' || key == 'C') && ctrl {
        Some(Command::Quit)
    } else {
        None
    }
}

impl Command {
    /// Decodes one pressed key, with its control-modifier state, into a
    /// command; an unrecognized key decodes to nothing.
    pub fn from_key(key: char, ctrl: bool) -> (r: Option<Command>)
        ensures
            r == spec_from_key(key, ctrl),
    {
        match key {
            'j' | 'J' => Some(Command::SpeedUp),
            'k' | 'K' => Some(Command::SlowDown),
            'p' | 'P' => Some(Command::TogglePause),
            'f' | 'F' => Some(Command::Flip),
            'q' | 'Q' => Some(Command::Quit),
            'r' | 'R' => Some(Command::Reset),
            'c' | 'C' => if ctrl {
                Some(Command::Quit)
            } else {
                None
            },
            _ => None,
        }
    }
}

/// The clamped step up from a speed-scale exponent: one more, except at the
/// upper bound, where it stays put.
pub open spec fn spec_increment(e: int) -> int {
    if e < MAX_EXPONENT {
        e + 1
    } else {
        e
    }
}

/// The clamped step down from a speed-scale exponent: one less, except at
/// the lower bound, where it stays put.
pub open spec fn spec_decrement(e: int) -> int {
    if e > MIN_EXPONENT {
        e - 1
    } else {
        e
    }
}

/// Clamping holds under repetition: however often the exponent is
/// stepped, it never leaves its bounds, and a step taken at a bound
/// leaves the exponent exactly there.
pub proof fn lemma_time_scale_clamped(e: int)
    requires
        MIN_EXPONENT <= e <= MAX_EXPONENT,
    ensures
        MIN_EXPONENT <= spec_increment(e) <= MAX_EXPONENT,
        MIN_EXPONENT <= spec_decrement(e) <= MAX_EXPONENT,
        e == MAX_EXPONENT ==> spec_increment(e) == MAX_EXPONENT,
        e == MIN_EXPONENT ==> spec_decrement(e) == MIN_EXPONENT,
{
}

/// The speed scale of the playback loop: an integer exponent bounded to
/// `[MIN_EXPONENT, MAX_EXPONENT]`, interpreted as the factor `2^exponent`.
#[derive(Debug)]
pub struct TimeScale {
    exponent: i8,
}

impl TimeScale {
    pub closed spec fn spec_exponent(&self) -> int {
        self.exponent as int
    }

    /// The exponent never leaves its bounds.
    pub open spec fn wf(&self) -> bool {
        MIN_EXPONENT <= self.spec_exponent() <= MAX_EXPONENT
    }

    /// The neutral scale: exponent zero, factor one.
    pub fn new() -> (r: Self)
        ensures
            r.wf(),
            r.spec_exponent() == 0,
    {
        TimeScale { exponent: 0 }
    }

    /// The current exponent.
    pub fn exponent(&self) -> (r: i8)
        ensures
            r == self.spec_exponent(),
    {
        self.exponent
    }

    /// Raises the exponent by one; at the upper bound this is a no-op,
    /// never a wrap or an error.
    pub fn increment(&mut self)
        requires
            old(self).wf(),
        ensures
            final(self).wf(),
            final(self).spec_exponent() == spec_increment(old(self).spec_exponent()),
    {
        if self.exponent < MAX_EXPONENT {
            self.exponent = self.exponent + 1;
        }
    }

    /// Lowers the exponent by one; at the lower bound this is a no-op,
    /// never a wrap or an error.
    pub fn decrement(&mut self)
        requires
            old(self).wf(),
        ensures
            final(self).wf(),
            final(self).spec_exponent() == spec_decrement(old(self).spec_exponent()),
    {
        if self.exponent > MIN_EXPONENT {
            self.exponent = self.exponent - 1;
        }
    }

    /// The scale factor `2^exponent`, as an exact rational
    /// `(numerator, denominator)`: a nonnegative exponent yields
    /// `(2^exponent, 1)` and a negative one yields `(1, 2^-exponent)`.
    pub fn scale(&self) -> (r: (u64, u64))
        requires
            self.wf(),
        ensures
            self.spec_exponent() >= 0 ==> r == (
                pow2(self.spec_exponent() as nat) as u64,
                1u64,
            ),
            self.spec_exponent() < 0 ==> r == (
                1u64,
                pow2((-self.spec_exponent()) as nat) as u64,
            ),
    {
        if self.exponent >= 0 {
            (pow2_u64(self.exponent as u32), 1)
        } else {
            (1, pow2_u64((-self.exponent) as u32))
        }
    }
}

/// Two raised to a small power, exactly.
pub fn pow2_u64(e: u32) -> (r: u64)
    requires
        e <= 10,
    ensures
        r == pow2(e as nat),
{
    proof {
        vstd::arithmetic::power2::lemma2_to64();
    }
    let mut r: u64 = 1;
    let mut i: u32 = 0;
    while i < e
        invariant
            i <= e,
            e <= 10,
            r == pow2(i as nat),
            r <= 1024,
        decreases e - i,
    {
        proof {
            vstd::arithmetic::power2::lemma_pow2_unfold((i + 1) as nat);
            vstd::arithmetic::power2::lemma2_to64();
            if i + 1 < 10 {
                vstd::arithmetic::power2::lemma_pow2_strictly_increases((i + 1) as nat, 10);
            }
            assert(pow2((i + 1) as nat) == 2 * pow2(i as nat));
        }
        r = r * 2;
        i = i + 1;
    }
    r
}

/// The pause gate's state: paused or running. Toggling it flips the state;
/// the blocking wait on it belongs to the surrounding process, which blocks
/// while `should_wait` holds and is woken on every transition to running.
#[derive(Debug)]
pub struct Pause {
    paused: bool,
}

impl Pause {
    pub closed spec fn is_paused(&self) -> bool {
        self.paused
    }

    /// A fresh gate is not paused.
    pub fn new() -> (r: Self)
        ensures
            !r.is_paused(),
    {
        Pause { paused: false }
    }

    /// Inverts the paused state.
    pub fn toggle(&mut self)
        ensures
            final(self).is_paused() == !old(self).is_paused(),
    {
        self.paused = !self.paused;
    }

    /// Clears the paused state unconditionally: used on quit, so a
    /// paused playback loop cannot hang the shutdown path.
    pub fn unset(&mut self)
        ensures
            !final(self).is_paused(),
    {
        self.paused = false;
    }

    /// Whether a caller about to advance the playback loop must wait. It is
    /// safe to consult while running: the answer is then `false` and the
    /// caller proceeds immediately.
    pub fn should_wait(&self) -> (r: bool)
        ensures
            r == self.is_paused(),
    {
        self.paused
    }
}

/// Toggling the pause gate twice returns it to its original state.
pub proof fn lemma_pause_toggle_twice(p0: Pause, p1: Pause, p2: Pause)
    requires
        p1.is_paused() == !p0.is_paused(),
        p2.is_paused() == !p1.is_paused(),
    ensures
        p2.is_paused() == p0.is_paused(),
{
}

/// What taking an edge-triggered flag yields and leaves behind: the flag's
/// old state comes out, and the flag is cleared.
pub open spec fn spec_take(s: bool) -> (bool, bool) {
    (s, false)
}

/// Once taken, a flag yields `false` to every further take until it is set
/// again; a new set makes the next take yield `true` once more.
pub proof fn lemma_take_twice(s: bool)
    ensures
        spec_take(spec_take(s).1).0 == false,
        spec_take(true).0 == true,
{
}

/// The edge-triggered flip request: set by the listener, consumed exactly
/// once by the playback loop.
#[derive(Debug)]
pub struct Flip {
    state: bool,
}

impl Flip {
    pub closed spec fn is_set(&self) -> bool {
        self.state
    }

    /// The flag starts out clear.
    pub fn new() -> (r: Self)
        ensures
            !r.is_set(),
    {
        Flip { state: false }
    }

    /// Raises the flag.
    pub fn set(&mut self)
        ensures
            final(self).is_set(),
    {
        self.state = true;
    }

    /// Reads and clears the flag in one step, so that a request is consumed
    /// exactly once.
    pub fn take(&mut self) -> (r: bool)
        ensures
            (r, final(self).is_set()) == spec_take(old(self).is_set()),
    {
        let r: bool = self.state;
        self.state = false;
        r
    }
}

/// The edge-triggered reset request: set by the listener, consumed exactly
/// once by the playback loop.
#[derive(Debug)]
pub struct Reset {
    state: bool,
}

impl Reset {
    pub closed spec fn is_set(&self) -> bool {
        self.state
    }

    /// The flag starts out clear.
    pub fn new() -> (r: Self)
        ensures
            !r.is_set(),
    {
        Reset { state: false }
    }

    /// Raises the flag.
    pub fn set(&mut self)
        ensures
            final(self).is_set(),
    {
        self.state = true;
    }

    /// Reads and clears the flag in one step, so that a request is consumed
    /// exactly once.
    pub fn take(&mut self) -> (r: bool)
        ensures
            (r, final(self).is_set()) == spec_take(old(self).is_set()),
    {
        let r: bool = self.state;
        self.state = false;
        r
    }
}

/// The one-way quit flag: once set it is never cleared; no transition of
/// this type writes `false`.
#[derive(Debug)]
pub struct Quit {
    state: bool,
}

impl Quit {
    pub closed spec fn is_set(&self) -> bool {
        self.state
    }

    /// The flag starts out clear.
    pub fn new() -> (r: Self)
        ensures
            !r.is_set(),
    {
        Quit { state: false }
    }

    /// Raises the flag, terminally.
    pub fn set(&mut self)
        ensures
            final(self).is_set(),
    {
        self.state = true;
    }

    /// Reads the flag without consuming it.
    pub fn get(&self) -> (r: bool)
        ensures
            r == self.is_set(),
    {
        self.state
    }
}

/// All control signals of one playback session, each field with its own
/// discipline. One value of this type stands behind the process-wide
/// sharing, so independent sessions in one process never share state.
#[derive(Debug)]
pub struct SignalHub {
    pub time_scale: TimeScale,
    pub pause: Pause,
    pub flip: Flip,
    pub reset: Reset,
    pub quit: Quit,
}

impl SignalHub {
    pub open spec fn wf(&self) -> bool {
        self.time_scale.wf()
    }

    /// All signals in their initial states: neutral scale, running, no
    /// pending request.
    pub fn new() -> (r: Self)
        ensures
            r.wf(),
            r.time_scale.spec_exponent() == 0,
            !r.pause.is_paused(),
            !r.flip.is_set(),
            !r.reset.is_set(),
            !r.quit.is_set(),
    {
        SignalHub {
            time_scale: TimeScale::new(),
            pause: Pause::new(),
            flip: Flip::new(),
            reset: Reset::new(),
            quit: Quit::new(),
        }
    }

    /// Applies one decoded listener command to exactly the signals it
    /// addresses and leaves every other signal as it was. `Quit` also
    /// forces the pause gate open, so a paused loop can observe the flag
    /// and shut down.
    pub fn apply(&mut self, command: Command)
        requires
            old(self).wf(),
        ensures
            final(self).wf(),
            final(self).time_scale.spec_exponent() == (match command {
                Command::SpeedUp => spec_increment(old(self).time_scale.spec_exponent()),
                Command::SlowDown => spec_decrement(old(self).time_scale.spec_exponent()),
                _ => old(self).time_scale.spec_exponent(),
            }),
            final(self).pause.is_paused() == (match command {
                Command::TogglePause => !old(self).pause.is_paused(),
                Command::Quit => false,
                _ => old(self).pause.is_paused(),
            }),
            final(self).flip.is_set() == (match command {
                Command::Flip => true,
                _ => old(self).flip.is_set(),
            }),
            final(self).reset.is_set() == (match command {
                Command::Reset => true,
                _ => old(self).reset.is_set(),
            }),
            final(self).quit.is_set() == (match command {
                Command::Quit => true,
                _ => old(self).quit.is_set(),
            }),
    {
        match command {
            Command::SpeedUp => self.time_scale.increment(),
            Command::SlowDown => self.time_scale.decrement(),
            Command::TogglePause => self.pause.toggle(),
            Command::Flip => self.flip.set(),
            Command::Reset => self.reset.set(),
            Command::Quit => {
                self.pause.unset();
                self.quit.set();
            },
        }
    }
}

} // verus!
