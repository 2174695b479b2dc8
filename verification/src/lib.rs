//! Platform-agnostic driver for a 28BYJ-48 class stepper motor behind a
//! ULN2003 driver chip.
//!
//! The driver is a synchronous phase-sequencing state machine: it owns the
//! motor's position in a fixed nine-state cycle and the active rotation
//! direction, and on each step request it advances or retreats through the
//! cycle and writes the corresponding four-line coil pattern to the output
//! lines. The lines and the optional delay source are supplied by the caller
//! through the [`OutputLine`] and [`Delay`] capability traits, so any
//! concrete hardware binding (or a test double) can be plugged in.

use vstd::prelude::*;

verus! {

/// The motor's position in the phase cycle.
///
/// `State1` through `State8` form the eight-entry half-step rotation cycle;
/// `State0` is the idle, all-coils-low marker that sits outside the cycle.
/// Depending on the state, different wires have to be driven high:
///
/// |wire | 0 | 1 | 2 | 3 | 4 | 5 | 6 | 7 | 8 |
/// | --- | - | - | - | - | - | - | - | - | - |
/// |  1  |   |   |   |   |   |   | x | x | x |
/// |  2  |   |   |   |   | x | x | x |   |   |
/// |  3  |   |   | x | x | x |   |   |   |   |
/// |  4  |   | x | x |   |   |   |   |   | x |
#[derive(Clone, Copy, Debug, PartialEq, Eq, Structural)]
pub enum State {
    /// Idle marker outside the rotation cycle; all coils low.
    State0,
    /// First entry of the rotation cycle.
    State1,
    /// Second entry of the rotation cycle.
    State2,
    /// Third entry of the rotation cycle.
    State3,
    /// Fourth entry of the rotation cycle.
    State4,
    /// Fifth entry of the rotation cycle.
    State5,
    /// Sixth entry of the rotation cycle.
    State6,
    /// Seventh entry of the rotation cycle.
    State7,
    /// Eighth entry of the rotation cycle.
    State8,
}

/// Direction the motor turns in. Reverse just walks the phase cycle backwards.
#[derive(Clone, Copy, Debug, PartialEq, Eq, Structural)]
pub enum Direction {
    /// Default direction: each step follows [`spec_next`].
    Normal,
    /// Reversed direction: each step follows [`spec_prev`].
    Reverse,
}

/// The coil pattern for a position: the four levels to drive onto wires 1..4,
/// as a sequence indexed 0..3 (index 0 is wire 1), `true` meaning high.
pub open spec fn spec_pattern(s: State) -> Seq<bool> {
    match s {
        State::State0 => seq![false, false, false, false],
        State::State1 => seq![false, false, false, true],
        State::State2 => seq![false, false, true, true],
        State::State3 => seq![false, false, true, false],
        State::State4 => seq![false, true, true, false],
        State::State5 => seq![false, true, false, false],
        State::State6 => seq![true, true, false, false],
        State::State7 => seq![true, false, false, false],
        State::State8 => seq![true, false, false, true],
    }
}

/// The successor of a position: cyclic over `State1..State8`, with the idle
/// `State0` routed into the cycle at `State1`.
pub open spec fn spec_next(s: State) -> State {
    match s {
        State::State0 => State::State1,
        State::State1 => State::State2,
        State::State2 => State::State3,
        State::State3 => State::State4,
        State::State4 => State::State5,
        State::State5 => State::State6,
        State::State6 => State::State7,
        State::State7 => State::State8,
        State::State8 => State::State1,
    }
}

/// The predecessor of a position: the exact inverse of [`spec_next`] except
/// at the boundary, where `State0` and `State1` share `State8` as
/// predecessor (stepping back from the start of the cycle skips the idle
/// marker).
pub open spec fn spec_prev(s: State) -> State {
    match s {
        State::State0 => State::State8,
        State::State1 => State::State8,
        State::State2 => State::State1,
        State::State3 => State::State2,
        State::State4 => State::State3,
        State::State5 => State::State4,
        State::State6 => State::State5,
        State::State7 => State::State6,
        State::State8 => State::State7,
    }
}

/// The step applied by a single step request: the successor under
/// [`Direction::Normal`], the predecessor under [`Direction::Reverse`].
pub open spec fn spec_stepped(s: State, d: Direction) -> State {
    match d {
        Direction::Normal => spec_next(s),
        Direction::Reverse => spec_prev(s),
    }
}

/// The position reached after `n` step requests from `s`, all in direction
/// `d`.
pub open spec fn spec_run(s: State, d: Direction, n: nat) -> State
    decreases n,
{
    if n == 0 {
        s
    } else {
        spec_stepped(spec_run(s, d, (n - 1) as nat), d)
    }
}

/// The levels written to one wire (indexed 0..3, wire order) by `n` fully
/// successful step requests from `s` in direction `d`: the wire's slice of
/// the patterns of the positions visited, in visiting order.
pub open spec fn spec_trace(s: State, d: Direction, n: nat, wire: int) -> Seq<bool>
    decreases n,
{
    if n == 0 {
        Seq::empty()
    } else {
        spec_trace(s, d, (n - 1) as nat, wire).push(spec_pattern(spec_run(s, d, n))[wire])
    }
}

/// The pin pattern for a position, one level per wire in wire order 1..4.
pub fn get_pin_states(s: State) -> (r: [bool; 4])
    ensures
        r@ == spec_pattern(s),
{
    let r: [bool; 4] = match s {
        State::State0 => [false, false, false, false],
        State::State1 => [false, false, false, true],
        State::State2 => [false, false, true, true],
        State::State3 => [false, false, true, false],
        State::State4 => [false, true, true, false],
        State::State5 => [false, true, false, false],
        State::State6 => [true, true, false, false],
        State::State7 => [true, false, false, false],
        State::State8 => [true, false, false, true],
    };
    proof {
        assert(r@ =~= spec_pattern(s));
    }
    r
}

/// The position one step forward in the cycle.
pub fn get_next_state(s: State) -> (r: State)
    ensures
        r == spec_next(s),
{
    match s {
        State::State0 => State::State1,
        State::State1 => State::State2,
        State::State2 => State::State3,
        State::State3 => State::State4,
        State::State4 => State::State5,
        State::State5 => State::State6,
        State::State6 => State::State7,
        State::State7 => State::State8,
        State::State8 => State::State1,
    }
}

/// The position one step backward in the cycle.
pub fn get_prev_state(s: State) -> (r: State)
    ensures
        r == spec_prev(s),
{
    match s {
        State::State0 => State::State8,
        State::State1 => State::State8,
        State::State2 => State::State1,
        State::State3 => State::State2,
        State::State4 => State::State3,
        State::State5 => State::State4,
        State::State6 => State::State5,
        State::State7 => State::State6,
        State::State8 => State::State7,
    }
}

/// Stepping forward after stepping back returns to the same position
/// everywhere in the rotation cycle: `next` and `prev` are exact inverses on
/// `State1..State8`.
pub proof fn lemma_next_prev_inverse(p: State)
    requires
        p != State::State0,
    ensures
        spec_next(spec_prev(p)) == p,
{
}

/// The `next`-after-`prev` round trip preserves the coil pattern for every
/// position except the idle `State0`: both `State0` and `State1` have
/// `State8` as predecessor, so from `State0` the round trip lands on
/// `State1`, whose pattern differs from the all-low idle pattern.
pub proof fn lemma_pattern_round_trip(p: State)
    ensures
        p != State::State0 ==> spec_pattern(spec_next(spec_prev(p))) == spec_pattern(p),
        spec_next(spec_prev(State::State0)) == State::State1,
        spec_pattern(spec_next(spec_prev(State::State0))) != spec_pattern(State::State0),
{
    if p != State::State0 {
        lemma_next_prev_inverse(p);
    }
    assert(spec_pattern(State::State1)[3] != spec_pattern(State::State0)[3]);
}

/// A step taken from the idle `State0` under `Direction::Normal` always
/// enters the rotation cycle at `State1`: after a stop, the next forward
/// step starts the sequence over. (Under `Direction::Reverse` the table
/// routes `State0` to its predecessor `State8` instead.)
pub proof fn lemma_step_after_stop(d: Direction)
    requires
        d == Direction::Normal,
    ensures
        spec_stepped(State::State0, d) == State::State1,
{
}

/// A settable digital output line driving one coil wire.
///
/// Implementations are supplied by the caller: a hardware pin binding, or a
/// test double recording writes. A write may fail; the failure is opaque to
/// the driver.
pub trait OutputLine {
    /// The implementation's own error type for a failed write; the driver
    /// discards it and reports an opaque [`StepError`].
    type Error;

    /// Drive the line high (`true`) or low (`false`).
    fn set(&mut self, high: bool) -> Result<(), Self::Error>;
}

/// A blocking millisecond-granularity delay source, assumed infallible.
///
/// Implementations are supplied by the caller; the driver uses the delay
/// only between the steps of [`StepperMotor::step_for`].
pub trait Delay {
    /// Block the calling thread for `ms` milliseconds.
    fn delay_ms(&mut self, ms: u32);
}

/// Gets returned if an error happens while stepping: some underlying line
/// write failed, or a delay source was needed but not configured. The
/// underlying cause is deliberately discarded.
#[derive(Debug)]
pub struct StepError;

/// The line history `after` extends `before` by exactly the accepted level.
pub open spec fn wrote(after: Seq<bool>, before: Seq<bool>, level: bool) -> bool {
    after == before.push(level)
}

/// A best-effort write: the line either accepted the level or failed and
/// kept its history unchanged.
pub open spec fn wrote_or_kept(after: Seq<bool>, before: Seq<bool>, level: bool) -> bool {
    after == before.push(level) || after == before
}

/// One coil wire as the driver sees it: the caller's output line together
/// with the ghost record of the levels the line has accepted so far, oldest
/// first, `true` meaning high. A level is recorded exactly when the line's
/// `set` call returned success, so the record is the write history of the
/// wire as far as the line reported it.
struct Wire<L: OutputLine> {
    line: L,
    accepted: Ghost<Seq<bool>>,
}

impl<L: OutputLine> Wire<L> {
    /// The levels this wire's line has accepted so far.
    spec fn written(&self) -> Seq<bool> {
        self.accepted@
    }

    /// Take ownership of a line; nothing has been written through this
    /// wire yet.
    fn new(line: L) -> (r: Self)
        ensures
            r.written() == Seq::<bool>::empty(),
    {
        Wire { line, accepted: Ghost(Seq::empty()) }
    }

    /// Hand one level to the line, recording it if the line accepts it, and
    /// map the line's own error onto the driver's opaque one.
    fn set_state(&mut self, level: bool) -> (r: Result<(), StepError>)
        ensures
            r is Ok ==> wrote(final(self).written(), old(self).written(), level),
            r is Err ==> final(self).written() == old(self).written(),
    {
        match self.line.set(level) {
            Ok(_) => {
                self.accepted = Ghost(self.accepted@.push(level));
                Ok(())
            },
            Err(_) => Err(StepError),
        }
    }
}

/// Struct representing a stepper motor with the 4 driver lines.
///
/// It owns one [`OutputLine`] per coil wire, the current position in the
/// phase cycle, the active direction, and optionally a [`Delay`] source,
/// which is needed only by [`StepperMotor::step_for`]. Construction performs
/// no I/O; nothing is written to the lines until a stepping operation asks
/// for it.
pub struct ULN2003<L1, L2, L3, L4, D> where
    L1: OutputLine,
    L2: OutputLine,
    L3: OutputLine,
    L4: OutputLine,
    D: Delay,
 {
    in1: Wire<L1>,
    in2: Wire<L2>,
    in3: Wire<L3>,
    in4: Wire<L4>,
    state: State,
    dir: Direction,
    delay: Option<D>,
}

impl<L1: OutputLine, L2: OutputLine, L3: OutputLine, L4: OutputLine, D: Delay> ULN2003<
    L1,
    L2,
    L3,
    L4,
    D,
> {
    /// The motor's current position in the phase cycle.
    pub closed spec fn position(&self) -> State {
        self.state
    }

    /// The active rotation direction.
    pub closed spec fn direction(&self) -> Direction {
        self.dir
    }

    /// Whether a delay source was supplied at construction.
    pub closed spec fn has_delay(&self) -> bool {
        self.delay is Some
    }

    /// The write history of the line on wire 1.
    pub closed spec fn written1(&self) -> Seq<bool> {
        self.in1.written()
    }

    /// The write history of the line on wire 2.
    pub closed spec fn written2(&self) -> Seq<bool> {
        self.in2.written()
    }

    /// The write history of the line on wire 3.
    pub closed spec fn written3(&self) -> Seq<bool> {
        self.in3.written()
    }

    /// The write history of the line on wire 4.
    pub closed spec fn written4(&self) -> Seq<bool> {
        self.in4.written()
    }

    /// Every line accepted its level of the pattern of position `s`, on top
    /// of the histories in `from`.
    pub open spec fn wrote_pattern(self, from: Self, s: State) -> bool {
        wrote(self.written1(), from.written1(), spec_pattern(s)[0]) && wrote(
            self.written2(),
            from.written2(),
            spec_pattern(s)[1],
        ) && wrote(self.written3(), from.written3(), spec_pattern(s)[2]) && wrote(
            self.written4(),
            from.written4(),
            spec_pattern(s)[3],
        )
    }

    /// Every line was handed its level of the pattern of position `s`, on
    /// top of the histories in `from`, each accepting or failing on its own
    /// (best effort).
    pub open spec fn attempted_pattern(self, from: Self, s: State) -> bool {
        wrote_or_kept(self.written1(), from.written1(), spec_pattern(s)[0]) && wrote_or_kept(
            self.written2(),
            from.written2(),
            spec_pattern(s)[1],
        ) && wrote_or_kept(self.written3(), from.written3(), spec_pattern(s)[2]) && wrote_or_kept(
            self.written4(),
            from.written4(),
            spec_pattern(s)[3],
        )
    }

    /// A fully successful multi-step run: `n` step requests from the state
    /// in `from` all succeeded, so the position ran `n` steps along the
    /// direction, which never changed, and every wire accepted exactly its
    /// trace of the visited patterns.
    pub open spec fn completed_run(self, from: Self, n: nat) -> bool {
        let d = from.direction();
        self.position() == spec_run(from.position(), d, n) && self.direction() == d
            && self.written1() == from.written1() + spec_trace(from.position(), d, n, 0)
            && self.written2() == from.written2() + spec_trace(from.position(), d, n, 1)
            && self.written3() == from.written3() + spec_trace(from.position(), d, n, 2)
            && self.written4() == from.written4() + spec_trace(from.position(), d, n, 3)
    }

    /// A multi-step run that aborted on its next step request after `k`
    /// fully successful ones: the failing request still advanced the
    /// position and handed every line its level of the new pattern, but at
    /// least one line failed to accept it.
    pub open spec fn aborted_run(self, from: Self, k: nat) -> bool {
        let d = from.direction();
        let done1 = from.written1() + spec_trace(from.position(), d, k, 0);
        let done2 = from.written2() + spec_trace(from.position(), d, k, 1);
        let done3 = from.written3() + spec_trace(from.position(), d, k, 2);
        let done4 = from.written4() + spec_trace(from.position(), d, k, 3);
        let p = spec_pattern(spec_run(from.position(), d, (k + 1) as nat));
        self.position() == spec_run(from.position(), d, (k + 1) as nat) && self.direction() == d
            && wrote_or_kept(self.written1(), done1, p[0]) && wrote_or_kept(
            self.written2(),
            done2,
            p[1],
        ) && wrote_or_kept(self.written3(), done3, p[2]) && wrote_or_kept(
            self.written4(),
            done4,
            p[3],
        ) && !(wrote(self.written1(), done1, p[0]) && wrote(self.written2(), done2, p[1]) && wrote(
            self.written3(),
            done3,
            p[2],
        ) && wrote(self.written4(), done4, p[3]))
    }

    /// Create a new stepper motor from the 4 lines connected to the ULN2003
    /// driver. The delay parameter is needed if you want to use the
    /// `step_for` function. No level is written to the lines yet.
    pub fn new(in1: L1, in2: L2, in3: L3, in4: L4, delay: Option<D>) -> (r: Self)
        ensures
            r.position() == State::State0,
            r.direction() == Direction::Normal,
            r.has_delay() == (delay is Some),
            r.written1() == Seq::<bool>::empty(),
            r.written2() == Seq::<bool>::empty(),
            r.written3() == Seq::<bool>::empty(),
            r.written4() == Seq::<bool>::empty(),
    {
        Self {
            in1: Wire::new(in1),
            in2: Wire::new(in2),
            in3: Wire::new(in3),
            in4: Wire::new(in4),
            state: State::State0,
            dir: Direction::Normal,
            delay,
        }
    }

    /// Write the pattern of the current position to the four lines, in wire
    /// order, attempting every line even after a failure.
    fn apply_state(&mut self) -> (r: Result<(), StepError>)
        ensures
            final(self).position() == old(self).position(),
            final(self).direction() == old(self).direction(),
            final(self).has_delay() == old(self).has_delay(),
            final(self).attempted_pattern(*old(self), old(self).position()),
            r is Ok <==> final(self).wrote_pattern(*old(self), old(self).position()),
    {
        let levels = get_pin_states(self.state);
        let r1 = self.in1.set_state(levels[0]);
        let r2 = self.in2.set_state(levels[1]);
        let r3 = self.in3.set_state(levels[2]);
        let r4 = self.in4.set_state(levels[3]);
        proof {
            // a failed line kept its history, which is shorter than any
            // pushed one, so a failure rules out `wrote_pattern`
            assert(old(self).written1().push(spec_pattern(old(self).position())[0]).len() == old(
                self,
            ).written1().len() + 1);
            assert(old(self).written2().push(spec_pattern(old(self).position())[1]).len() == old(
                self,
            ).written2().len() + 1);
            assert(old(self).written3().push(spec_pattern(old(self).position())[2]).len() == old(
                self,
            ).written3().len() + 1);
            assert(old(self).written4().push(spec_pattern(old(self).position())[3]).len() == old(
                self,
            ).written4().len() + 1);
        }
        if r1.is_ok() && r2.is_ok() && r3.is_ok() && r4.is_ok() {
            Ok(())
        } else {
            Err(StepError)
        }
    }
}

/// An empty trace contributes nothing to a wire's history.
proof fn lemma_add_empty(s: Seq<bool>)
    ensures
        s + Seq::<bool>::empty() == s,
{
    assert(s + Seq::<bool>::empty() =~= s);
}

/// Accepting one more level on top of an already appended trace is the same
/// as appending the trace extended by that level.
proof fn lemma_push_through_add(a: Seq<bool>, b: Seq<bool>, x: bool)
    ensures
        (a + b).push(x) == a + b.push(x),
{
    assert((a + b).push(x) =~= a + b.push(x));
}

/// Trait to prevent having to pass around the struct with all the generic
/// arguments.
pub trait StepperMotor {
    /// Do a single step.
    fn step(&mut self) -> Result<(), StepError>;

    /// Do multiple steps with a given delay in ms after each of them.
    fn step_for(&mut self, steps: i32, ms: u32) -> Result<(), StepError>;

    /// Set the stepping direction; takes effect from the next step on.
    fn set_direction(&mut self, dir: Direction);

    /// Set all lines low and reset the position to the idle marker.
    fn stop(&mut self) -> Result<(), StepError>;

    /// Set all lines low but keep the position, so that a later step
    /// continues the sequence where it left off.
    fn power_off(&mut self) -> Result<(), StepError>;
}

impl<L1: OutputLine, L2: OutputLine, L3: OutputLine, L4: OutputLine, D: Delay> StepperMotor for ULN2003<
    L1,
    L2,
    L3,
    L4,
    D,
> {
    /// Advance the position one step along the current direction and write
    /// the new position's pattern to the four lines, best effort. The
    /// position advances even when a write fails; a caller that needs the
    /// physical output back in a known state must follow a failure with
    /// `stop`.
    fn step(&mut self) -> (r: Result<(), StepError>)
        ensures
            final(self).position() == spec_stepped(old(self).position(), old(self).direction()),
            final(self).direction() == old(self).direction(),
            final(self).has_delay() == old(self).has_delay(),
            final(self).attempted_pattern(*old(self), final(self).position()),
            r is Ok <==> final(self).wrote_pattern(*old(self), final(self).position()),
    {
        self.state = match self.dir {
            Direction::Normal => get_next_state(self.state),
            Direction::Reverse => get_prev_state(self.state),
        };
        self.apply_state()
    }

    /// Call `step` `steps` times, sleeping `ms` milliseconds through the
    /// owned delay source after each step. Without a delay source the call
    /// fails at once, before any write; a failing step aborts the run with
    /// no further steps or sleeps, the partial progress not rolled back.
    fn step_for(&mut self, steps: i32, ms: u32) -> (r: Result<(), StepError>)
        ensures
            final(self).direction() == old(self).direction(),
            final(self).has_delay() == old(self).has_delay(),
            !old(self).has_delay() ==> r is Err && *final(self) == *old(self),
            old(self).has_delay() && steps <= 0 ==> r is Ok && *final(self) == *old(self),
            old(self).has_delay() && steps >= 0 && r is Ok ==> final(self).completed_run(
                *old(self),
                steps as nat,
            ),
            old(self).has_delay() && r is Err ==> steps > 0 && (exists|k: nat|
                k < steps && #[trigger] final(self).aborted_run(*old(self), k)),
    {
        if self.delay.is_none() {
            return Err(StepError);
        }
        proof {
            lemma_add_empty(self.written1());
            lemma_add_empty(self.written2());
            lemma_add_empty(self.written3());
            lemma_add_empty(self.written4());
        }
        let mut i: i32 = 0;
        while i < steps
            invariant
                0 <= i,
                steps >= 0 ==> i <= steps,
                steps <= 0 ==> i == 0,
                i == 0 ==> *self == *old(self),
                old(self).has_delay(),
                self.has_delay(),
                self.completed_run(*old(self), i as nat),
            decreases steps - i,
        {
            match self.step() {
                Ok(_) => {},
                Err(e) => {
                    proof {
                        assert(self.aborted_run(*old(self), i as nat));
                    }
                    return Err(e);
                },
            }
            match &mut self.delay {
                Some(d) => d.delay_ms(ms),
                None => {},
            }
            proof {
                let d = old(self).direction();
                let s0 = old(self).position();
                let p = spec_pattern(spec_run(s0, d, (i + 1) as nat));
                lemma_push_through_add(old(self).written1(), spec_trace(s0, d, i as nat, 0), p[0]);
                lemma_push_through_add(old(self).written2(), spec_trace(s0, d, i as nat, 1), p[1]);
                lemma_push_through_add(old(self).written3(), spec_trace(s0, d, i as nat, 2), p[2]);
                lemma_push_through_add(old(self).written4(), spec_trace(s0, d, i as nat, 3), p[3]);
            }
            i = i + 1;
        }
        Ok(())
    }

    /// Pure state mutation: no line is written, and the change governs the
    /// next step, never a past one.
    fn set_direction(&mut self, dir: Direction)
        ensures
            final(self).direction() == dir,
            final(self).position() == old(self).position(),
            final(self).has_delay() == old(self).has_delay(),
            final(self).written1() == old(self).written1(),
            final(self).written2() == old(self).written2(),
            final(self).written3() == old(self).written3(),
            final(self).written4() == old(self).written4(),
    {
        self.dir = dir;
    }

    /// Reset the position to the idle `State0` and write its all-low
    /// pattern, best effort. The direction is left alone; note that because
    /// `State0` sits outside the rotation cycle, the next step from it moves
    /// to `State1` under `Normal` and to `State8` under `Reverse`.
    fn stop(&mut self) -> (r: Result<(), StepError>)
        ensures
            final(self).position() == State::State0,
            final(self).direction() == old(self).direction(),
            final(self).has_delay() == old(self).has_delay(),
            final(self).attempted_pattern(*old(self), State::State0),
            r is Ok <==> final(self).wrote_pattern(*old(self), State::State0),
    {
        self.state = State::State0;
        self.apply_state()
    }

    /// De-energize the coils: write all four lines low, best effort, without
    /// touching the position or the direction, so that a later step resumes
    /// the sequence from where it was.
    fn power_off(&mut self) -> (r: Result<(), StepError>)
        ensures
            final(self).position() == old(self).position(),
            final(self).direction() == old(self).direction(),
            final(self).has_delay() == old(self).has_delay(),
            final(self).attempted_pattern(*old(self), State::State0),
            r is Ok <==> final(self).wrote_pattern(*old(self), State::State0),
    {
        let r1 = self.in1.set_state(false);
        let r2 = self.in2.set_state(false);
        let r3 = self.in3.set_state(false);
        let r4 = self.in4.set_state(false);
        proof {
            assert(old(self).written1().push(spec_pattern(State::State0)[0]).len() == old(
                self,
            ).written1().len() + 1);
            assert(old(self).written2().push(spec_pattern(State::State0)[1]).len() == old(
                self,
            ).written2().len() + 1);
            assert(old(self).written3().push(spec_pattern(State::State0)[2]).len() == old(
                self,
            ).written3().len() + 1);
            assert(old(self).written4().push(spec_pattern(State::State0)[3]).len() == old(
                self,
            ).written4().len() + 1);
        }
        if r1.is_ok() && r2.is_ok() && r3.is_ok() && r4.is_ok() {
            Ok(())
        } else {
            Err(StepError)
        }
    }
}

} // verus!
