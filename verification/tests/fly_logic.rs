use rd_fly::fly_hack::fly_logic::{FlyHack, MemoryAction, SpaceStateMachine, State};
use rd_fly::fly_hack::keybinds::KeyState;

#[test]
fn space_machine_double_tap() {
    let mut s = SpaceStateMachine::default();
    assert_eq!(s, SpaceStateMachine::Entry);
    s.update_state(KeyState::Pressed);
    assert_eq!(s, SpaceStateMachine::Pressed);
    s.update_state(KeyState::Holding);
    assert_eq!(s, SpaceStateMachine::Pressed);
    s.update_state(KeyState::Released);
    assert_eq!(s, SpaceStateMachine::PressedAndReleased);
    s.update_state(KeyState::Released);
    assert_eq!(s, SpaceStateMachine::PressedAndReleased);
    s.update_state(KeyState::Pressed);
    assert_eq!(s, SpaceStateMachine::DoublePressed);
    s.update_state(KeyState::Holding);
    assert_eq!(s, SpaceStateMachine::Entry);
}

#[test]
fn space_machine_double_pressed_resets_on_any_key() {
    for k in [KeyState::Pressed, KeyState::Holding, KeyState::Released] {
        let mut s = SpaceStateMachine::DoublePressed;
        s.update_state(k);
        assert_eq!(s, SpaceStateMachine::Entry);
    }
}

#[test]
fn holding_space_is_no_double_tap() {
    let mut s = SpaceStateMachine::Entry;
    s.update_state(KeyState::Pressed);
    for _ in 0..1000 {
        s.update_state(KeyState::Holding);
        assert_eq!(s, SpaceStateMachine::Pressed);
    }
}

#[test]
fn space_machine_entry_waits_for_press() {
    let mut s = SpaceStateMachine::Entry;
    s.update_state(KeyState::Released);
    assert_eq!(s, SpaceStateMachine::Entry);
    s.update_state(KeyState::Holding);
    assert_eq!(s, SpaceStateMachine::Pressed);
}

#[test]
fn state_setters() {
    let mut s = State::Off;
    s.idle();
    assert_eq!(s, State::Idle);
    s.ascending();
    assert_eq!(s, State::Ascending);
    s.descending();
    assert_eq!(s, State::Descending);
    s.off();
    assert_eq!(s, State::Off);
}

#[test]
fn state_toggle() {
    let mut s = State::Off;
    s.toggle();
    assert_eq!(s, State::Idle);
    s.toggle();
    assert_eq!(s, State::Off);
    let mut a = State::Ascending;
    a.toggle();
    assert_eq!(a, State::Off);
    let mut d = State::Descending;
    d.toggle();
    assert_eq!(d, State::Off);
}

#[test]
fn state_names() {
    assert_eq!(State::Off.name(), "Off");
    assert_eq!(State::Idle.name(), "Idle");
    assert_eq!(State::Ascending.name(), "Ascending");
    assert_eq!(State::Descending.name(), "Descending");
}

fn double_tap(fly: &mut FlyHack) -> Vec<MemoryAction> {
    vec![
        fly.step(true, false, true),
        fly.step(true, false, false),
        fly.step(true, false, true),
    ]
}

#[test]
fn new_fly_hack_is_off() {
    let mut fly = FlyHack::new([1, 2, 3, 4]);
    assert_eq!(fly.state(), State::Off);
    assert_eq!(fly.addresses(), [1, 2, 3, 4]);
    assert_eq!(fly.begin(), MemoryAction::PopulateSave);
    assert_eq!(fly.state(), State::Off);
}

#[test]
fn off_resaves_every_hundred_ticks() {
    let mut fly = FlyHack::new([0; 4]);
    fly.begin();
    for tick in 0..300usize {
        let a = fly.step(true, false, false);
        if tick % 100 == 0 {
            assert_eq!(a, MemoryAction::PopulateSave);
        } else {
            assert_eq!(a, MemoryAction::Nothing);
        }
        assert_eq!(fly.state(), State::Off);
    }
}

#[test]
fn double_tap_turns_on_and_holds() {
    let mut fly = FlyHack::new([0; 4]);
    fly.begin();
    let actions = double_tap(&mut fly);
    assert_eq!(actions[0], MemoryAction::PopulateSave);
    assert_eq!(actions[1], MemoryAction::Nothing);
    // toggled on at the third tick, then space is down: start ascending
    assert_eq!(actions[2], MemoryAction::Keep);
    assert_eq!(fly.state(), State::Ascending);
}

#[test]
fn idle_keeps_and_resaves_on_hundredth_tick() {
    let mut fly = FlyHack::new([0; 4]);
    fly.begin();
    double_tap(&mut fly);
    // space released: ascending ends on the next move tick
    let mut seen_idle = false;
    for _ in 3..100usize {
        let a = fly.step(true, false, false);
        if fly.state() == State::Idle && seen_idle {
            assert_eq!(a, MemoryAction::Keep);
        }
        if fly.state() == State::Idle {
            seen_idle = true;
        }
    }
    assert!(seen_idle);
    // tick 100 is a resave tick
    assert_eq!(fly.step(true, false, false), MemoryAction::KeepThenPopulateSave);
    assert_eq!(fly.state(), State::Idle);
}

#[test]
fn ascending_moves_every_tenth_tick() {
    let mut fly = FlyHack::new([0; 4]);
    fly.begin();
    double_tap(&mut fly); // ticks 0, 1, 2; now ascending with space held
    for tick in 3..40usize {
        let a = fly.step(true, false, true);
        if tick % 10 == 0 {
            assert_eq!(a, MemoryAction::SumUp);
        } else {
            assert_eq!(a, MemoryAction::Nothing);
        }
        assert_eq!(fly.state(), State::Ascending);
    }
    // tick 40: space released, one last move, then idle
    assert_eq!(fly.step(true, false, false), MemoryAction::SumUp);
    assert_eq!(fly.state(), State::Idle);
}

#[test]
fn shift_descends_until_released() {
    let mut fly = FlyHack::new([0; 4]);
    fly.begin();
    double_tap(&mut fly);
    for _ in 3..10usize {
        fly.step(true, false, false);
    }
    // tick 10: space released -> idle
    assert_eq!(fly.step(true, false, false), MemoryAction::SumUp);
    assert_eq!(fly.state(), State::Idle);
    // tick 11: shift down while idle
    assert_eq!(fly.step(true, true, false), MemoryAction::Keep);
    assert_eq!(fly.state(), State::Descending);
    for tick in 12..20usize {
        assert_eq!(fly.step(true, true, false), MemoryAction::Nothing, "tick {tick}");
    }
    assert_eq!(fly.step(true, true, false), MemoryAction::SumDown);
    assert_eq!(fly.state(), State::Descending);
    for _ in 21..30usize {
        fly.step(true, false, false);
    }
    assert_eq!(fly.step(true, false, false), MemoryAction::SumDown);
    assert_eq!(fly.state(), State::Idle);
}

#[test]
fn space_wins_over_shift_when_idle() {
    let mut fly = FlyHack::new([0; 4]);
    fly.begin();
    double_tap(&mut fly);
    for _ in 3..11usize {
        fly.step(true, false, false);
    }
    assert_eq!(fly.state(), State::Idle);
    fly.step(true, true, true);
    assert_eq!(fly.state(), State::Ascending);
}

#[test]
fn no_toggle_during_cooldown() {
    let mut fly = FlyHack::new([0; 4]);
    fly.begin();
    double_tap(&mut fly);
    assert_ne!(fly.state(), State::Off);
    // another double tap right away is ignored
    for _ in 0..60 {
        double_tap(&mut fly);
        assert_ne!(fly.state(), State::Off);
    }
}

#[test]
fn double_tap_after_cooldown_turns_off() {
    let mut fly = FlyHack::new([0; 4]);
    fly.begin();
    double_tap(&mut fly);
    for _ in 0..200 {
        fly.step(true, false, false);
    }
    assert_eq!(fly.state(), State::Idle);
    double_tap(&mut fly);
    assert_eq!(fly.state(), State::Off);
}

#[test]
fn slow_double_tap_does_not_toggle() {
    let mut fly = FlyHack::new([0; 4]);
    fly.begin();
    fly.step(true, false, true);
    for _ in 0..210 {
        fly.step(true, false, false);
    }
    let a = fly.step(true, false, true);
    assert_eq!(fly.state(), State::Off);
    assert!(a == MemoryAction::Nothing || a == MemoryAction::PopulateSave);
}

#[test]
fn unfocused_window_ignores_keys() {
    let mut fly = FlyHack::new([0; 4]);
    fly.begin();
    fly.step(false, false, true);
    fly.step(false, false, false);
    fly.step(false, false, true);
    assert_eq!(fly.state(), State::Off);
}

#[test]
fn tick_counter_wraps() {
    let mut fly = FlyHack::new([0; 4]);
    fly.begin();
    let mut saves = 0;
    for _ in 0..10001usize {
        if fly.step(true, false, false) == MemoryAction::PopulateSave {
            saves += 1;
        }
    }
    // ticks 0, 100, ..., 9900, then tick 0 again
    assert_eq!(saves, 101);
}

#[test]
fn off_never_writes_memory() {
    let mut fly = FlyHack::new([0; 4]);
    fly.begin();
    for i in 0..1000usize {
        let shift = i % 3 == 0;
        let a = fly.step(true, shift, false);
        assert!(a == MemoryAction::Nothing || a == MemoryAction::PopulateSave);
    }
}
