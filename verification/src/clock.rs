use vstd::prelude::*;

verus! {

/// Mathematical image of a [`Clock`]: the task label and the two counters,
/// widened to unbounded integers.
pub ghost struct ClockView {
    pub task: Seq<char>,
    pub slices: int,
    pub progress: int,
}

impl ClockView {
    /// A clock is well formed when its progress lies in `[0, slices]`.
    pub open spec fn wf(self) -> bool {
        0 <= self.progress <= self.slices
    }
}

/// A bounded counter that tracks progress on a task: `progress` moves
/// between `0` and `slices`, saturating at both ends.
#[derive(Clone, Debug)]
pub struct Clock {
    pub task: String,
    pub slices: u8,
    pub progress: u8,
}

impl View for Clock {
    type V = ClockView;

    open spec fn view(&self) -> ClockView {
        ClockView {
            task: self.task@,
            slices: self.slices as int,
            progress: self.progress as int,
        }
    }
}

/// One step of progress, saturating at `slices`.
pub open spec fn clock_inc(c: ClockView) -> ClockView {
    ClockView {
        task: c.task,
        slices: c.slices,
        progress: if c.progress + 1 <= c.slices {
            c.progress + 1
        } else {
            c.slices
        },
    }
}

/// One step of regress, saturating at `0`.
pub open spec fn clock_dec(c: ClockView) -> ClockView {
    ClockView {
        task: c.task,
        slices: c.slices,
        progress: if c.progress > 0 {
            c.progress - 1
        } else {
            0
        },
    }
}

impl Clock {
    /// An owned copy with the same task and counters.
    pub fn duplicate(&self) -> (c: Clock)
        ensures
            c@ == self@,
    {
        Clock { task: self.task.clone(), slices: self.slices, progress: self.progress }
    }

    /// A fresh clock starts with no progress.
    pub fn new(task: String, slices: u8) -> (c: Clock)
        ensures
            c@ == (ClockView { task: task@, slices: slices as int, progress: 0 }),
    {
        Clock { task, slices, progress: 0 }
    }

    /// Advance progress by one, saturating at `slices`.
    pub fn increment(&mut self)
        ensures
            final(self)@ == clock_inc(old(self)@),
    {
        self.progress = if self.progress < self.slices {
            self.progress + 1
        } else {
            self.slices
        };
    }

    /// Take one step of progress back, saturating at `0`.
    pub fn decrement(&mut self)
        ensures
            final(self)@ == clock_dec(old(self)@),
    {
        self.progress = if self.progress > 0 {
            self.progress - 1
        } else {
            0
        };
    }
}

/// The two operations a client can ask of a clock.
#[derive(Clone, Copy, Debug, PartialEq, Eq, Structural)]
pub enum ClockOp {
    Increment,
    Decrement,
}

/// One call applied to a clock's mathematical image.
pub open spec fn clock_step(c: ClockView, op: ClockOp) -> ClockView {
    match op {
        ClockOp::Increment => clock_inc(c),
        ClockOp::Decrement => clock_dec(c),
    }
}

/// The image of a clock after a whole sequence of calls, first call first.
pub open spec fn clock_run(c: ClockView, ops: Seq<ClockOp>) -> ClockView
    decreases ops.len(),
{
    if ops.len() == 0 {
        c
    } else {
        clock_run(clock_step(c, ops[0]), ops.drop_first())
    }
}

/// A well-formed clock stays well formed under any run of calls, and its
/// `slices` never moves.
proof fn lemma_clock_run_wf(c: ClockView, ops: Seq<ClockOp>)
    requires
        c.wf(),
    ensures
        clock_run(c, ops).wf(),
        clock_run(c, ops).slices == c.slices,
    decreases ops.len(),
{
    if ops.len() > 0 {
        lemma_clock_run_wf(clock_step(c, ops[0]), ops.drop_first());
    }
}

/// Saturation law: for every `slices` in `[1, 255]` and every sequence of
/// increment and decrement calls on a fresh clock, `0 <= progress <= slices`
/// holds after every call — that is, after every prefix of the sequence.
pub proof fn lemma_clock_saturation(c: ClockView, ops: Seq<ClockOp>, i: int)
    requires
        1 <= c.slices <= 255,
        c.progress == 0,
        0 <= i <= ops.len(),
    ensures
        clock_run(c, ops.take(i)).wf(),
        clock_run(c, ops.take(i)).slices == c.slices,
{
    lemma_clock_run_wf(c, ops.take(i));
}

/// The image of a clock after `n` increments.
pub open spec fn clock_inc_n(c: ClockView, n: nat) -> ClockView
    decreases n,
{
    if n == 0 {
        c
    } else {
        clock_inc(clock_inc_n(c, (n - 1) as nat))
    }
}

/// The image of a clock after `n` decrements.
pub open spec fn clock_dec_n(c: ClockView, n: nat) -> ClockView
    decreases n,
{
    if n == 0 {
        c
    } else {
        clock_dec(clock_dec_n(c, (n - 1) as nat))
    }
}

/// While there is room, each increment adds exactly one.
proof fn lemma_inc_n_exact(c: ClockView, n: nat)
    requires
        0 <= c.progress,
        c.progress + n <= c.slices,
    ensures
        clock_inc_n(c, n) == (ClockView {
            task: c.task,
            slices: c.slices,
            progress: c.progress + n,
        }),
    decreases n,
{
    if n > 0 {
        lemma_inc_n_exact(c, (n - 1) as nat);
    }
}

/// While progress remains, each decrement takes exactly one.
proof fn lemma_dec_n_exact(c: ClockView, n: nat)
    requires
        n <= c.progress,
    ensures
        clock_dec_n(c, n) == (ClockView {
            task: c.task,
            slices: c.slices,
            progress: c.progress - n,
        }),
    decreases n,
{
    if n > 0 {
        lemma_dec_n_exact(c, (n - 1) as nat);
    }
}

/// Round-trip law: on a fresh clock, `n` increments followed by `n`
/// decrements, with `n <= slices`, return progress to its original value.
pub proof fn lemma_clock_round_trip(c: ClockView, n: nat)
    requires
        c.progress == 0,
        1 <= c.slices <= 255,
        n <= c.slices,
    ensures
        clock_dec_n(clock_inc_n(c, n), n) == c,
{
    lemma_inc_n_exact(c, n);
    lemma_dec_n_exact(clock_inc_n(c, n), n);
}

/// Decrementing a clock that stands at `0` leaves it unchanged.
pub proof fn lemma_decrement_at_zero(c: ClockView)
    requires
        c.progress == 0,
    ensures
        clock_dec(c) == c,
{
}

/// Incrementing a clock that stands at `slices` leaves it unchanged.
pub proof fn lemma_increment_at_slices(c: ClockView)
    requires
        c.progress == c.slices,
    ensures
        clock_inc(c) == c,
{
}

} // verus!
