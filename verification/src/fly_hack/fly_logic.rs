//! The fly controller: the double-tap detector on the space bar, the fly
//! state, and what each tick asks the memory side to do.
use vstd::prelude::*;

use crate::fly_hack::keybinds::{next_key_state, KeyState, KeyStates};

verus! {

/// Ticks after which the tick counter starts again at zero.
pub const TICK_WRAP: usize = 10000;

/// Ticks during which the detector is idle after it toggled the controller.
pub const TOGGLE_COOLDOWN: usize = 200;

/// A double tap must be completed within this many ticks of its first press.
pub const DOUBLE_TAP_WINDOW: usize = 200;

/// While flying, the height moves on every tick that is a multiple of this.
pub const MOVE_PERIOD: usize = 10;

/// While idle or off, the saved height is read again on every tick that is a
/// multiple of this.
pub const RESAVE_PERIOD: usize = 100;

/// Progress of a double tap on the space bar.
#[derive(Clone, Copy, Debug, PartialEq, Eq, Structural)]
pub enum SpaceStateMachine {
    Entry,
    Pressed,
    PressedAndReleased,
    DoublePressed,
}

/// The detector's next state after one sample of the space bar.
pub open spec fn next_space_state(s: SpaceStateMachine, key: KeyState) -> SpaceStateMachine {
    match s {
        SpaceStateMachine::Entry => if key.spec_is_down() {
            SpaceStateMachine::Pressed
        } else {
            s
        },
        SpaceStateMachine::Pressed => if key is Released {
            SpaceStateMachine::PressedAndReleased
        } else {
            s
        },
        SpaceStateMachine::PressedAndReleased => if key.spec_is_down() {
            SpaceStateMachine::DoublePressed
        } else {
            s
        },
        SpaceStateMachine::DoublePressed => SpaceStateMachine::Entry,
    }
}

impl SpaceStateMachine {
    /// Advances the detector by one sample of the space bar.
    pub fn update_state(&mut self, keybind: KeyState)
        ensures
            *final(self) == next_space_state(*old(self), keybind),
    {
        let next = match (*self, keybind) {
            (SpaceStateMachine::Entry, KeyState::Pressed)
            | (SpaceStateMachine::Entry, KeyState::Holding) => SpaceStateMachine::Pressed,
            (SpaceStateMachine::Pressed, KeyState::Released) => SpaceStateMachine::PressedAndReleased,
            (SpaceStateMachine::PressedAndReleased, KeyState::Pressed)
            | (SpaceStateMachine::PressedAndReleased, KeyState::Holding) => {
                SpaceStateMachine::DoublePressed
            },
            (SpaceStateMachine::DoublePressed, _) => SpaceStateMachine::Entry,
            _ => *self,
        };
        *self = next;
    }
}

impl Default for SpaceStateMachine {
    fn default() -> (r: SpaceStateMachine)
        ensures
            r == SpaceStateMachine::Entry,
    {
        SpaceStateMachine::Entry
    }
}

/// What the controller is doing with the player's height.
#[derive(Clone, Copy, Debug, PartialEq, Eq, Structural)]
pub enum State {
    /// Not interfering: the height is only re-read now and then.
    Off,
    /// Holding the player at the saved height.
    Idle,
    /// Raising the saved height.
    Ascending,
    /// Lowering the saved height.
    Descending,
}

/// The state that `toggle` leaves behind.
pub open spec fn toggled(s: State) -> State {
    if s is Off {
        State::Idle
    } else {
        State::Off
    }
}

/// The name under which a state is shown.
pub open spec fn state_name(s: State) -> Seq<char> {
    match s {
        State::Off => "Off"@,
        State::Idle => "Idle"@,
        State::Ascending => "Ascending"@,
        State::Descending => "Descending"@,
    }
}

impl State {
    pub fn off(&mut self)
        ensures
            *final(self) == State::Off,
    {
        *self = State::Off;
    }

    pub fn idle(&mut self)
        ensures
            *final(self) == State::Idle,
    {
        *self = State::Idle;
    }

    pub fn ascending(&mut self)
        ensures
            *final(self) == State::Ascending,
    {
        *self = State::Ascending;
    }

    pub fn descending(&mut self)
        ensures
            *final(self) == State::Descending,
    {
        *self = State::Descending;
    }

    /// Switches the controller on (to `Idle`) when it is off, and off otherwise.
    pub fn toggle(&mut self)
        ensures
            *final(self) == toggled(*old(self)),
    {
        if matches!(*self, State::Off) {
            self.idle();
        } else {
            self.off();
        }
    }

    /// The name under which the state is shown.
    pub fn name(&self) -> (r: &'static str)
        ensures
            r@ == state_name(*self),
    {
        match *self {
            State::Off => "Off",
            State::Idle => "Idle",
            State::Ascending => "Ascending",
            State::Descending => "Descending",
        }
    }
}

/// What one tick asks of the side that holds the saved heights and the
/// game's memory.
#[derive(Clone, Copy, Debug, PartialEq, Eq, Structural)]
pub enum MemoryAction {
    /// Nothing to do.
    Nothing,
    /// Read the current heights into the saved values.
    PopulateSave,
    /// Write the saved heights back into the game.
    Keep,
    /// Write the saved heights back, then read the current heights into them.
    KeepThenPopulateSave,
    /// Add the speed to the saved heights and write them back.
    SumUp,
    /// Subtract the speed from the saved heights and write them back.
    SumDown,
}

/// Does the action write into the game's memory?
pub open spec fn writes_memory(a: MemoryAction) -> bool {
    a is Keep || a is KeepThenPopulateSave || a is SumUp || a is SumDown
}

/// The controller's state, as plain values.
pub struct FlyView {
    pub state: State,
    pub iteration: usize,
    pub key_states: KeyStates,
    pub space: SpaceStateMachine,
    pub cooldown: usize,
    pub space_start: usize,
}

/// Has the double-tap window that opened at `start` closed by tick `now`?
/// The elapsed time is `now - start` counted in machine words, so a window
/// that spans the wrap of the tick counter counts as closed.
pub open spec fn window_closed(now: usize, start: usize) -> bool {
    now < start || now - start > DOUBLE_TAP_WINDOW
}

/// The double-tap detector's part of a tick, after the keys were sampled.
pub open spec fn detect(v: FlyView) -> FlyView {
    let cooldown: usize = if v.cooldown == 0 { 0 } else { (v.cooldown - 1) as usize };
    if cooldown != 0 {
        FlyView { cooldown, ..v }
    } else {
        let start = if v.space is Entry { v.iteration } else { v.space_start };
        let from = if !(v.space is Entry) && window_closed(v.iteration, start) {
            SpaceStateMachine::Entry
        } else {
            v.space
        };
        let space = next_space_state(from, v.key_states.space);
        if space is DoublePressed {
            FlyView {
                state: toggled(v.state),
                cooldown: TOGGLE_COOLDOWN,
                space,
                space_start: start,
                ..v
            }
        } else {
            FlyView { cooldown: 0, space, space_start: start, ..v }
        }
    }
}

/// The state after the idle step from state `s`: shift starts a descent,
/// space an ascent, space wins when both are down, and with neither down
/// the state stays as it was.
pub open spec fn idle_next(keys: KeyStates, s: State) -> State {
    if keys.space.spec_is_down() {
        State::Ascending
    } else if keys.shift.spec_is_down() {
        State::Descending
    } else {
        s
    }
}

/// The state part of a tick after the detector: what happens to the fly
/// state and which memory action the tick asks for.
pub open spec fn act(v: FlyView) -> (State, MemoryAction) {
    let move_tick = v.iteration % MOVE_PERIOD == 0;
    let resave_tick = v.iteration % RESAVE_PERIOD == 0;
    match v.state {
        State::Idle => (
            idle_next(v.key_states, State::Idle),
            if resave_tick {
                MemoryAction::KeepThenPopulateSave
            } else {
                MemoryAction::Keep
            },
        ),
        State::Ascending => if move_tick {
            (
                if v.key_states.space is Released {
                    State::Idle
                } else {
                    State::Ascending
                },
                MemoryAction::SumUp,
            )
        } else {
            (v.state, MemoryAction::Nothing)
        },
        State::Descending => if move_tick {
            (
                if v.key_states.shift is Released {
                    State::Idle
                } else {
                    State::Descending
                },
                MemoryAction::SumDown,
            )
        } else {
            (v.state, MemoryAction::Nothing)
        },
        State::Off => if resave_tick {
            (v.state, MemoryAction::PopulateSave)
        } else {
            (v.state, MemoryAction::Nothing)
        },
    }
}

/// The tick after `i`.
pub open spec fn next_iteration(i: usize) -> usize {
    if i + 1 >= TICK_WRAP {
        0
    } else {
        (i + 1) as usize
    }
}

/// One whole tick: sample the keys (both count as released when the game
/// window is not focused), run the detector, act on the fly state, and
/// advance the tick counter.
pub open spec fn tick(v: FlyView, focused: bool, shift_down: bool, space_down: bool) -> (
    FlyView,
    MemoryAction,
) {
    let keys = KeyStates {
        shift: next_key_state(v.key_states.shift, focused && shift_down),
        space: next_key_state(v.key_states.space, focused && space_down),
    };
    let d = detect(FlyView { key_states: keys, ..v });
    let (state, action) = act(d);
    (FlyView { state, iteration: next_iteration(d.iteration), ..d }, action)
}

/// The invariant of a running controller.
pub open spec fn view_wf(v: FlyView) -> bool {
    v.iteration < TICK_WRAP && v.cooldown <= TOGGLE_COOLDOWN
}

/// The decision part of the fly hack: it holds the four height addresses
/// it was made for and everything the main loop decides with, and tells
/// the memory side what to do on each tick.
pub struct FlyHack {
    addresses: [usize; 4],
    state: State,
    iteration_number: usize,
    key_states: KeyStates,
    space_state_machine: SpaceStateMachine,
    cooldown: usize,
    space_start: usize,
}

impl View for FlyHack {
    type V = FlyView;

    closed spec fn view(&self) -> FlyView {
        FlyView {
            state: self.state,
            iteration: self.iteration_number,
            key_states: self.key_states,
            space: self.space_state_machine,
            cooldown: self.cooldown,
            space_start: self.space_start,
        }
    }
}

impl FlyHack {
    /// The four addresses the controller was made for.
    pub closed spec fn spec_addresses(&self) -> [usize; 4] {
        self.addresses
    }

    pub open spec fn wf(&self) -> bool {
        view_wf(self@)
    }

    /// A controller that is off, at tick zero, with both keys released and
    /// the detector waiting for a first press.
    pub fn new(addresses: [usize; 4]) -> (r: FlyHack)
        ensures
            r.wf(),
            r.spec_addresses() == addresses,
            r@.state == State::Off,
            r@.iteration == 0,
            r@.key_states.space == KeyState::Released,
            r@.key_states.shift == KeyState::Released,
            r@.space == SpaceStateMachine::Entry,
            r@.cooldown == 0,
            r@.space_start == 0,
    {
        FlyHack {
            addresses,
            state: State::Off,
            iteration_number: 0,
            key_states: KeyStates::new(),
            space_state_machine: SpaceStateMachine::Entry,
            cooldown: 0,
            space_start: 0,
        }
    }

    /// Opens the main loop: the double-tap window starts at the current
    /// tick, and the heights are read once before the first tick.
    pub fn begin(&mut self) -> (a: MemoryAction)
        ensures
            a == MemoryAction::PopulateSave,
            final(self)@ == (FlyView { space_start: old(self)@.iteration, ..old(self)@ }),
            final(self).spec_addresses() == old(self).spec_addresses(),
    {
        self.space_start = self.iteration_number;
        MemoryAction::PopulateSave
    }

    /// One tick of the main loop, given whether the game window has the
    /// focus and whether shift and space are down.
    pub fn step(&mut self, focused: bool, shift_down: bool, space_down: bool) -> (a: MemoryAction)
        requires
            old(self).wf(),
        ensures
            final(self).wf(),
            (final(self)@, a) == tick(old(self)@, focused, shift_down, space_down),
            final(self).spec_addresses() == old(self).spec_addresses(),
    {
        let mul_10_frame = self.iteration_number.is_multiple_of(MOVE_PERIOD);
        self.key_states.update(focused, shift_down, space_down);

        self.double_tap_space_bar_detector();

        let action = match self.state {
            State::Idle => {
                let kept = self.idle();
                if self.iteration_number.is_multiple_of(RESAVE_PERIOD) {
                    MemoryAction::KeepThenPopulateSave
                } else {
                    kept
                }
            },
            State::Ascending if mul_10_frame => self.ascending(),
            State::Descending if mul_10_frame => self.descending(),
            State::Off if self.iteration_number.is_multiple_of(RESAVE_PERIOD) => {
                MemoryAction::PopulateSave
            },
            _ => MemoryAction::Nothing,
        };

        let next = self.iteration_number + 1;
        self.iteration_number = if next >= TICK_WRAP {
            0
        } else {
            next
        };
        action
    }

    fn double_tap_space_bar_detector(&mut self)
        ensures
            final(self)@ == detect(old(self)@),
            final(self).addresses == old(self).addresses,
    {
        self.cooldown = self.cooldown.saturating_sub(1);
        if self.cooldown != 0 {
            return;
        }
        if matches!(self.space_state_machine, SpaceStateMachine::Entry) {
            self.space_start = self.iteration_number;
        }
        if !matches!(self.space_state_machine, SpaceStateMachine::Entry) && (self.iteration_number
            < self.space_start || self.iteration_number - self.space_start > DOUBLE_TAP_WINDOW) {
            self.space_state_machine = SpaceStateMachine::Entry;
        }
        self.space_state_machine.update_state(self.key_states.space);
        if matches!(self.space_state_machine, SpaceStateMachine::DoublePressed) {
            self.state.toggle();
            self.cooldown = TOGGLE_COOLDOWN;
        }
    }

    fn ascending(&mut self) -> (a: MemoryAction)
        ensures
            a == MemoryAction::SumUp,
            final(self)@ == (FlyView {
                state: if old(self)@.key_states.space is Released {
                    State::Idle
                } else {
                    old(self)@.state
                },
                ..old(self)@
            }),
            final(self).addresses == old(self).addresses,
    {
        if matches!(self.key_states.space, KeyState::Released) {
            self.state.idle();
        }
        MemoryAction::SumUp
    }

    fn descending(&mut self) -> (a: MemoryAction)
        ensures
            a == MemoryAction::SumDown,
            final(self)@ == (FlyView {
                state: if old(self)@.key_states.shift is Released {
                    State::Idle
                } else {
                    old(self)@.state
                },
                ..old(self)@
            }),
            final(self).addresses == old(self).addresses,
    {
        if matches!(self.key_states.shift, KeyState::Released) {
            self.state.idle();
        }
        MemoryAction::SumDown
    }

    fn idle(&mut self) -> (a: MemoryAction)
        ensures
            a == MemoryAction::Keep,
            final(self)@ == (FlyView {
                state: idle_next(old(self)@.key_states, old(self)@.state),
                ..old(self)@
            }),
            final(self).addresses == old(self).addresses,
    {
        if self.key_states.shift.is_down() {
            self.state.descending();
        }
        if self.key_states.space.is_down() {
            self.state.ascending();
        }
        MemoryAction::Keep
    }

    /// The current fly state.
    pub fn state(&self) -> (r: State)
        ensures
            r == self@.state,
    {
        self.state
    }

    /// The four addresses the controller was made for.
    pub fn addresses(&self) -> (r: [usize; 4])
        ensures
            r == self.spec_addresses(),
    {
        self.addresses
    }
}

/// A key that is up reads as released, whatever it did before.
pub proof fn law_key_up_is_released(prev: KeyState)
    ensures
        next_key_state(prev, false) == KeyState::Released,
{
}

/// A key reads as pressed exactly on the first sample at which it is down;
/// while it stays down it reads as held.
pub proof fn law_press_is_an_edge(prev: KeyState)
    ensures
        (next_key_state(prev, true) == KeyState::Pressed) <==> (prev == KeyState::Released),
        prev.spec_is_down() ==> next_key_state(prev, true) == KeyState::Holding,
        next_key_state(prev, true).spec_is_down(),
{
}

/// The detector reports a double press only when the space bar goes down
/// again after a press and a release, and it starts over on the next sample.
pub proof fn law_double_press_needs_second_press(s: SpaceStateMachine, key: KeyState)
    ensures
        next_space_state(s, key) == SpaceStateMachine::DoublePressed <==> (s
            == SpaceStateMachine::PressedAndReleased && key.spec_is_down()),
        s == SpaceStateMachine::DoublePressed ==> next_space_state(s, key)
            == SpaceStateMachine::Entry,
{
}

/// Toggling switches between off and on (idle): it turns off exactly what
/// was on, and toggling twice from off or idle gives back the same state.
pub proof fn law_toggle(s: State)
    ensures
        (toggled(s) == State::Off) <==> (s != State::Off),
        toggled(s) == State::Off || toggled(s) == State::Idle,
        (s == State::Off || s == State::Idle) ==> toggled(toggled(s)) == s,
{
}

/// Every tick keeps the controller's invariant: the tick counter stays
/// below its wrap and the cooldown never exceeds its length.
pub proof fn law_tick_keeps_invariant(v: FlyView, focused: bool, shift_down: bool, space_down: bool)
    requires
        view_wf(v),
    ensures
        view_wf(tick(v, focused, shift_down, space_down).0),
{
}

/// The tick counter counts up by one and wraps to zero at its limit.
pub proof fn law_tick_counter(v: FlyView, focused: bool, shift_down: bool, space_down: bool)
    requires
        view_wf(v),
    ensures
        tick(v, focused, shift_down, space_down).0.iteration == (v.iteration + 1) % (
        TICK_WRAP as int),
{
}

/// While the cooldown runs, a tick neither switches the controller on or
/// off nor moves the double-tap detector.
pub proof fn law_no_toggle_during_cooldown(
    v: FlyView,
    focused: bool,
    shift_down: bool,
    space_down: bool,
)
    requires
        v.cooldown > 1,
    ensures
        (tick(v, focused, shift_down, space_down).0.state == State::Off) <==> (v.state
            == State::Off),
        tick(v, focused, shift_down, space_down).0.space == v.space,
        tick(v, focused, shift_down, space_down).0.cooldown == v.cooldown - 1,
{
}

/// A controller that is off never writes into the game's memory, and it
/// only comes on through a double tap, which starts the cooldown.
pub proof fn law_off_never_writes(v: FlyView, focused: bool, shift_down: bool, space_down: bool)
    requires
        v.state == State::Off,
    ensures
        tick(v, focused, shift_down, space_down).0.state == State::Off ==> !writes_memory(
            tick(v, focused, shift_down, space_down).1,
        ),
        tick(v, focused, shift_down, space_down).0.state != State::Off ==> tick(
            v,
            focused,
            shift_down,
            space_down,
        ).0.cooldown == TOGGLE_COOLDOWN,
{
}

/// The height moves only on every tenth tick, and the saved height is read
/// again only on every hundredth.
pub proof fn law_action_periods(v: FlyView, focused: bool, shift_down: bool, space_down: bool)
    ensures
        (tick(v, focused, shift_down, space_down).1 is SumUp || tick(
            v,
            focused,
            shift_down,
            space_down,
        ).1 is SumDown) ==> v.iteration % MOVE_PERIOD == 0,
        (tick(v, focused, shift_down, space_down).1 is PopulateSave || tick(
            v,
            focused,
            shift_down,
            space_down,
        ).1 is KeepThenPopulateSave) ==> v.iteration % RESAVE_PERIOD == 0,
{
}

/// A controller that is on and not moving holds the player: every tick in
/// which it stays idle writes the saved height back.
pub proof fn law_idle_holds(v: FlyView, focused: bool, shift_down: bool, space_down: bool)
    requires
        v.state == State::Idle,
        v.cooldown > 1,
    ensures
        tick(v, focused, shift_down, space_down).1 is Keep || tick(
            v,
            focused,
            shift_down,
            space_down,
        ).1 is KeepThenPopulateSave,
{
}

/// Once out of the cooldown, space down, up, down on three ticks in a
/// row, starting from a detector that waits for a first press, toggles the
/// controller on the third tick (the game window having the focus), as
/// long as the three ticks do not straddle the wrap of the tick counter.
pub proof fn law_double_tap_toggles(v: FlyView)
    requires
        view_wf(v),
        v.iteration + 2 < TICK_WRAP,
        v.cooldown <= 1,
        v.space == SpaceStateMachine::Entry,
    ensures
        ({
            let t1 = tick(v, true, false, true).0;
            let t2 = tick(t1, true, false, false).0;
            let t3 = tick(t2, true, false, true).0;
            &&& t3.cooldown == TOGGLE_COOLDOWN
            &&& (t3.state == State::Off) <==> (v.state != State::Off)
        }),
{
    let t1 = tick(v, true, false, true).0;
    let t2 = tick(t1, true, false, false).0;
    assert(t1.space == SpaceStateMachine::Pressed);
    assert(t2.space == SpaceStateMachine::PressedAndReleased);
    assert((t2.state == State::Off) <==> (v.state == State::Off));
}

/// A second press that comes after the double-tap window has closed does
/// not toggle the controller: the detector starts over instead.
pub proof fn law_late_second_press_no_toggle(
    v: FlyView,
    focused: bool,
    shift_down: bool,
    space_down: bool,
)
    requires
        v.cooldown <= 1,
        v.space == SpaceStateMachine::PressedAndReleased,
        window_closed(v.iteration, v.space_start),
    ensures
        (tick(v, focused, shift_down, space_down).0.state == State::Off) <==> (v.state
            == State::Off),
        tick(v, focused, shift_down, space_down).0.space != SpaceStateMachine::DoublePressed,
{
}

/// The detector's state after the samples `keys`, one after the other.
pub open spec fn run_space(s: SpaceStateMachine, keys: Seq<KeyState>) -> SpaceStateMachine
    decreases keys.len(),
{
    if keys.len() == 0 {
        s
    } else {
        run_space(next_space_state(s, keys[0]), keys.drop_first())
    }
}

/// Holding the space bar never counts as a double tap: from a detector
/// waiting for a first press, any run of samples in which the key is down
/// leaves it at `Pressed` (or still waiting, when there were none), never
/// at `DoublePressed`.
pub proof fn law_holding_is_no_double_tap(keys: Seq<KeyState>)
    requires
        forall|i: int| 0 <= i < keys.len() ==> (#[trigger] keys[i]).spec_is_down(),
    ensures
        run_space(SpaceStateMachine::Entry, keys) != SpaceStateMachine::DoublePressed,
        keys.len() > 0 ==> run_space(SpaceStateMachine::Entry, keys) == SpaceStateMachine::Pressed,
{
    if keys.len() > 0 {
        assert(keys[0].spec_is_down());
        lemma_pressed_stays_while_held(keys.drop_first());
    }
}

/// While the key stays down, a pressed detector stays pressed.
proof fn lemma_pressed_stays_while_held(keys: Seq<KeyState>)
    requires
        forall|i: int| 0 <= i < keys.len() ==> (#[trigger] keys[i]).spec_is_down(),
    ensures
        run_space(SpaceStateMachine::Pressed, keys) == SpaceStateMachine::Pressed,
    decreases keys.len(),
{
    if keys.len() > 0 {
        assert(keys[0].spec_is_down());
        assert forall|i: int| 0 <= i < keys.drop_first().len() implies (#[trigger] keys.drop_first()[i]).spec_is_down() by {
            assert(keys.drop_first()[i] == keys[i + 1]);
        }
        lemma_pressed_stays_while_held(keys.drop_first());
    }
}

/// The timing of the controller: the tick counter wraps at 10000, a toggle
/// is followed by 200 ticks of cooldown, a double tap must be completed
/// within 200 ticks of its first press, the height moves every 10 ticks and
/// is read again every 100.
pub proof fn law_timing_constants()
    ensures
        TICK_WRAP == 10000,
        TOGGLE_COOLDOWN == 200,
        DOUBLE_TAP_WINDOW == 200,
        MOVE_PERIOD == 10,
        RESAVE_PERIOD == 100,
{
}

/// While the controller is idle and stays on through a tick, that tick
/// writes the saved height back, whatever the cooldown; it also reads the
/// heights again exactly on every hundredth tick.
pub proof fn law_idle_writes_back(v: FlyView, focused: bool, shift_down: bool, space_down: bool)
    requires
        v.state == State::Idle,
        tick(v, focused, shift_down, space_down).0.state != State::Off,
    ensures
        tick(v, focused, shift_down, space_down).1 == (if v.iteration % 100 == 0 {
            MemoryAction::KeepThenPopulateSave
        } else {
            MemoryAction::Keep
        }),
{
}

/// While descending and staying on, a tick never raises the height: on
/// every tenth tick it lowers it, and otherwise it does nothing; the
/// descent ends (to idle) only on such a tick, once shift is up.
pub proof fn law_descending_lowers(v: FlyView, focused: bool, shift_down: bool, space_down: bool)
    requires
        v.state == State::Descending,
        tick(v, focused, shift_down, space_down).0.state != State::Off,
    ensures
        tick(v, focused, shift_down, space_down).1 != MemoryAction::SumUp,
        v.iteration % 10 == 0 ==> tick(v, focused, shift_down, space_down).1
            == MemoryAction::SumDown,
        v.iteration % 10 != 0 ==> tick(v, focused, shift_down, space_down).1
            == MemoryAction::Nothing,
        tick(v, focused, shift_down, space_down).0.state == (if v.iteration % 10 == 0 && !(
        focused && shift_down) {
            State::Idle
        } else {
            State::Descending
        }),
{
}

/// While ascending and staying on, a tick never lowers the height: on
/// every tenth tick it raises it, and otherwise it does nothing; the ascent
/// ends (to idle) only on such a tick, once space is up.
pub proof fn law_ascending_raises(v: FlyView, focused: bool, shift_down: bool, space_down: bool)
    requires
        v.state == State::Ascending,
        tick(v, focused, shift_down, space_down).0.state != State::Off,
    ensures
        tick(v, focused, shift_down, space_down).1 != MemoryAction::SumDown,
        v.iteration % 10 == 0 ==> tick(v, focused, shift_down, space_down).1
            == MemoryAction::SumUp,
        v.iteration % 10 != 0 ==> tick(v, focused, shift_down, space_down).1
            == MemoryAction::Nothing,
        tick(v, focused, shift_down, space_down).0.state == (if v.iteration % 10 == 0 && !(
        focused && space_down) {
            State::Idle
        } else {
            State::Ascending
        }),
{
}

/// Out of the cooldown, while the double-tap window that opened at
/// `space_start` is still open (at most 200 ticks ago, without a wrap of
/// the counter in between), the detector is not reset: it keeps its start
/// and advances on the space bar's new sample.
pub proof fn law_open_window_keeps_progress(
    v: FlyView,
    focused: bool,
    shift_down: bool,
    space_down: bool,
)
    requires
        v.cooldown <= 1,
        v.space != SpaceStateMachine::Entry,
        v.space_start <= v.iteration <= v.space_start + 200,
    ensures
        tick(v, focused, shift_down, space_down).0.space == next_space_state(
            v.space,
            next_key_state(v.key_states.space, focused && space_down),
        ),
        tick(v, focused, shift_down, space_down).0.space_start == v.space_start,
{
}

/// The controller after `n` ticks in which the game window has the focus
/// and the keys are held as given.
pub open spec fn run_ticks(v: FlyView, n: nat, shift_down: bool, space_down: bool) -> FlyView
    decreases n,
{
    if n == 0 {
        v
    } else {
        run_ticks(tick(v, true, shift_down, space_down).0, (n - 1) as nat, shift_down, space_down)
    }
}

/// Holding space after the first press keeps the detector at `Pressed`
/// with the same start, while the window is open and the counter does not
/// wrap.
proof fn lemma_hold_keeps_pressed(w: FlyView, n: nat)
    requires
        w.cooldown == 0,
        w.space == SpaceStateMachine::Pressed,
        w.space_start <= w.iteration,
        w.iteration + n < TICK_WRAP,
        w.iteration + n <= w.space_start + 200,
    ensures
        run_ticks(w, n, false, true).cooldown == 0,
        run_ticks(w, n, false, true).space == SpaceStateMachine::Pressed,
        run_ticks(w, n, false, true).space_start == w.space_start,
        run_ticks(w, n, false, true).iteration == w.iteration + n,
        (run_ticks(w, n, false, true).state == State::Off) <==> (w.state == State::Off),
    decreases n,
{
    if n > 0 {
        let t = tick(w, true, false, true).0;
        assert(t.iteration == w.iteration + 1);
        lemma_hold_keeps_pressed(t, (n - 1) as nat);
    }
}

/// Releasing space after a press brings the detector to
/// `PressedAndReleased` with the same start, while the window is open and
/// the counter does not wrap.
proof fn lemma_release_after_press(w: FlyView, n: nat)
    requires
        w.cooldown == 0,
        w.space == SpaceStateMachine::Pressed || w.space == SpaceStateMachine::PressedAndReleased,
        w.space_start <= w.iteration,
        w.iteration + n < TICK_WRAP,
        w.iteration + n <= w.space_start + 200,
    ensures
        run_ticks(w, n, false, false).cooldown == 0,
        n > 0 ==> run_ticks(w, n, false, false).space == SpaceStateMachine::PressedAndReleased,
        n > 0 ==> run_ticks(w, n, false, false).key_states.space == KeyState::Released,
        n == 0 ==> run_ticks(w, n, false, false) == w,
        run_ticks(w, n, false, false).space_start == w.space_start,
        run_ticks(w, n, false, false).iteration == w.iteration + n,
        (run_ticks(w, n, false, false).state == State::Off) <==> (w.state == State::Off),
    decreases n,
{
    if n > 0 {
        let t = tick(w, true, false, false).0;
        assert(t.iteration == w.iteration + 1);
        assert(t.space == SpaceStateMachine::PressedAndReleased);
        lemma_release_after_press(t, (n - 1) as nat);
    }
}

/// A double tap at any speed within the window toggles the controller:
/// out of the cooldown and from a detector waiting for a first press,
/// pressing space, holding it for `h` ticks in all, releasing it for `k`
/// ticks and pressing it again, with the second press at most 200 ticks
/// after the first and no wrap of the tick counter in between, switches
/// the controller on or off and starts the cooldown.
pub proof fn law_double_tap_within_window(v: FlyView, h: nat, k: nat)
    requires
        view_wf(v),
        v.cooldown <= 1,
        v.space == SpaceStateMachine::Entry,
        h >= 1,
        k >= 1,
        h + k <= 200,
        v.iteration + h + k < TICK_WRAP,
    ensures
        ({
            let pressed = tick(v, true, false, true).0;
            let held = run_ticks(pressed, (h - 1) as nat, false, true);
            let released = run_ticks(held, k, false, false);
            let again = tick(released, true, false, true).0;
            &&& again.cooldown == TOGGLE_COOLDOWN
            &&& (again.state == State::Off) <==> (v.state != State::Off)
        }),
{
    let pressed = tick(v, true, false, true).0;
    assert(pressed.space == SpaceStateMachine::Pressed);
    assert(pressed.space_start == v.iteration);
    assert(pressed.iteration == v.iteration + 1);
    assert(pressed.cooldown == 0);
    assert((pressed.state == State::Off) <==> (v.state == State::Off));
    lemma_hold_keeps_pressed(pressed, (h - 1) as nat);
    let held = run_ticks(pressed, (h - 1) as nat, false, true);
    lemma_release_after_press(held, k);
    let released = run_ticks(held, k, false, false);
    assert(released.space == SpaceStateMachine::PressedAndReleased);
    assert(released.iteration == v.iteration + h + k);
}

/// While the controller is off and stays off through a tick, that tick
/// writes nothing and reads the heights again exactly on every hundredth
/// tick.
pub proof fn law_off_resaves(v: FlyView, focused: bool, shift_down: bool, space_down: bool)
    requires
        v.state == State::Off,
        tick(v, focused, shift_down, space_down).0.state == State::Off,
    ensures
        tick(v, focused, shift_down, space_down).1 == (if v.iteration % 100 == 0 {
            MemoryAction::PopulateSave
        } else {
            MemoryAction::Nothing
        }),
{
}

} // verus!
