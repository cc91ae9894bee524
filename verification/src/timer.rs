//! The frame pacer's wall-clock bookkeeping, over explicit monotonic
//! nanosecond readings: per-frame and global elapsed times, and a pause
//! handle that rewinds the frame-start reference so paused time is
//! invisible to the pacer. The readings themselves come from the
//! surrounding process's clock.

use crate::text::{char_repeat, dec_str, u128_to_string};
use vstd::prelude::*;

verus! {

/// Nanoseconds per second.
pub const NANOS_PER_SEC: u128 = 1_000_000_000;

/// Nanoseconds per millisecond.
pub const NANOS_PER_MILLI: u128 = 1_000_000;

/// Nanoseconds per microsecond.
pub const NANOS_PER_MICRO: u128 = 1_000;

/// Frame timing state: the fixed start instant, the start of the frame in
/// progress, and the duration of the most recently completed frame, all in
/// nanoseconds of one monotonic clock.
#[derive(Clone, Copy, Debug)]
pub struct Timer {
    global_start: u64,
    frame_start: u64,
    last_frame: u64,
}

impl Timer {
    pub closed spec fn spec_global_start(&self) -> int {
        self.global_start as int
    }

    pub closed spec fn spec_frame_start(&self) -> int {
        self.frame_start as int
    }

    pub closed spec fn spec_last_frame(&self) -> int {
        self.last_frame as int
    }

    /// The frame-start reference never precedes the global start.
    pub open spec fn wf(&self) -> bool {
        self.spec_global_start() <= self.spec_frame_start()
    }

    /// Starts both references at the given clock reading, with no completed
    /// frame yet.
    pub fn start(now: u64) -> (r: Self)
        ensures
            r.wf(),
            r.spec_global_start() == now,
            r.spec_frame_start() == now,
            r.spec_last_frame() == 0,
    {
        Timer { global_start: now, frame_start: now, last_frame: 0 }
    }

    /// Nanoseconds elapsed since the timer started.
    pub fn global(&self, now: u64) -> (r: u64)
        requires
            now >= self.spec_global_start(),
        ensures
            r == now - self.spec_global_start(),
    {
        now - self.global_start
    }

    /// Nanoseconds elapsed in the frame in progress.
    pub fn frame(&self, now: u64) -> (r: u64)
        requires
            now >= self.spec_frame_start(),
        ensures
            r == now - self.spec_frame_start(),
    {
        now - self.frame_start
    }

    /// The duration of the most recently completed frame.
    pub fn last_frame(&self) -> (r: u64)
        ensures
            r == self.spec_last_frame(),
    {
        self.last_frame
    }

    /// Completes the frame in progress: records its duration and makes the
    /// given reading the new frame-start reference.
    pub fn tick(&mut self, now: u64)
        requires
            old(self).wf(),
            now >= old(self).spec_frame_start(),
        ensures
            final(self).wf(),
            final(self).spec_global_start() == old(self).spec_global_start(),
            final(self).spec_frame_start() == now,
            final(self).spec_last_frame() == now - old(self).spec_frame_start(),
    {
        self.last_frame = now - self.frame_start;
        self.frame_start = now;
    }

    /// Opens a paused span at the given reading; `resume` closes it.
    pub fn pause(&self, now: u64) -> (r: PausedTimer)
        ensures
            r.spec_start() == now,
    {
        PausedTimer { start: now }
    }

    /// Closes a paused span: the span's duration is added to the
    /// frame-start reference, so elapsed-time queries made after the pause
    /// exclude it.
    pub fn resume(&mut self, paused: PausedTimer, now: u64)
        requires
            old(self).wf(),
            old(self).spec_frame_start() <= paused.spec_start(),
            paused.spec_start() <= now,
        ensures
            final(self).wf(),
            final(self).spec_global_start() == old(self).spec_global_start(),
            final(self).spec_last_frame() == old(self).spec_last_frame(),
            final(self).spec_frame_start() == old(self).spec_frame_start() + (now
                - paused.spec_start()),
    {
        self.frame_start = self.frame_start + (now - paused.start);
    }
}

/// An open paused span of a timer: holds the reading at which the pause
/// began.
#[derive(Clone, Copy, Debug)]
pub struct PausedTimer {
    start: u64,
}

impl PausedTimer {
    pub closed spec fn spec_start(&self) -> int {
        self.start as int
    }

    /// Nanoseconds this span has been open.
    pub fn elapsed(&self, now: u64) -> (r: u64)
        requires
            now >= self.spec_start(),
        ensures
            r == now - self.spec_start(),
    {
        now - self.start
    }
}

/// Pausing rewinds: after a span paused from `pause_start` to `resume_at`
/// is closed, the elapsed frame time at any later reading is exactly the
/// paused duration shorter than it would have been, so paused time counts
/// neither toward the completed frame nor toward the next frame's pacing
/// budget.
pub proof fn lemma_pause_excluded(
    before: Timer,
    after: Timer,
    pause_start: int,
    resume_at: int,
    now: int,
)
    requires
        before.spec_frame_start() <= pause_start <= resume_at <= now,
        after.spec_frame_start() == before.spec_frame_start() + (resume_at - pause_start),
        after.spec_global_start() == before.spec_global_start(),
    ensures
        now - after.spec_frame_start() == (now - before.spec_frame_start()) - (resume_at
            - pause_start),
{
}

/// The decimal digit string of a nonnegative value, zero-padded on the
/// left to at least three digits.
pub open spec fn zero_padded3(n: int) -> Seq<char>
    recommends
        n >= 0,
{
    if dec_str(n).len() >= 3 {
        dec_str(n)
    } else {
        char_repeat('0', (3 - dec_str(n).len()) as nat) + dec_str(n)
    }
}

/// A value up to nine prints as one digit, up to ninety-nine as two, and
/// up to nine hundred ninety-nine as three.
pub proof fn lemma_dec_str_len(n: int)
    requires
        0 <= n,
    ensures
        n <= 9 ==> dec_str(n).len() == 1,
        10 <= n <= 99 ==> dec_str(n).len() == 2,
        100 <= n <= 999 ==> dec_str(n).len() == 3,
        n >= 100 ==> dec_str(n).len() >= 3,
    decreases n,
{
    if n > 9 {
        lemma_dec_str_len(n / 10);
    }
}

/// Renders a value below one thousand in decimal, zero-padded on the left
/// to three digits.
pub fn fmt_padded3(n: u128) -> (s: String)
    requires
        n <= 999,
    ensures
        s@ == zero_padded3(n as int),
{
    proof {
        lemma_dec_str_len(n as int);
        reveal_strlit("00");
        reveal_strlit("0");
        reveal_strlit("");
    }
    let mut s: String = if n <= 9 {
        String::from_str("00")
    } else if n <= 99 {
        String::from_str("0")
    } else {
        String::from_str("")
    };
    let digits: String = u128_to_string(n);
    s.append(digits.as_str());
    proof {
        assert(s@ =~= zero_padded3(n as int));
    }
    s
}

/// The text of a duration given in nanoseconds: whole seconds, then the
/// millisecond, microsecond and nanosecond remainders, each zero-padded to
/// three digits and labeled with its unit.
pub open spec fn spec_fmt_duration(total: int) -> Seq<char> {
    let secs = total / (NANOS_PER_SEC as int);
    let after_secs = total % (NANOS_PER_SEC as int);
    let millis = after_secs / (NANOS_PER_MILLI as int);
    let after_millis = after_secs % (NANOS_PER_MILLI as int);
    let micros = after_millis / (NANOS_PER_MICRO as int);
    let ns = after_millis % (NANOS_PER_MICRO as int);
    dec_str(secs) + " s "@ + zero_padded3(millis) + " ms "@ + zero_padded3(micros) + " μs "@
        + zero_padded3(ns) + " ns"@
}

/// Renders a duration of nanoseconds as seconds with millisecond,
/// microsecond and nanosecond remainders.
#[verifier::rlimit(60)]
pub fn fmt_duration(duration_nanos: u128) -> (s: String)
    ensures
        s@ == spec_fmt_duration(duration_nanos as int),
{
    let mut nanos: u128 = duration_nanos;

    let secs: u128 = nanos / NANOS_PER_SEC;
    nanos = nanos % NANOS_PER_SEC;

    let millis: u128 = nanos / NANOS_PER_MILLI;
    nanos = nanos % NANOS_PER_MILLI;

    let micros: u128 = nanos / NANOS_PER_MICRO;
    nanos = nanos % NANOS_PER_MICRO;

    let mut s: String = u128_to_string(secs);
    let part_millis: String = fmt_padded3(millis);
    let part_micros: String = fmt_padded3(micros);
    let part_nanos: String = fmt_padded3(nanos);
    s.append(" s ");
    s.append(part_millis.as_str());
    s.append(" ms ");
    s.append(part_micros.as_str());
    s.append(" μs ");
    s.append(part_nanos.as_str());
    s.append(" ns");
    proof {
        assert(s@ =~= spec_fmt_duration(duration_nanos as int));
    }
    s
}

} // verus!
