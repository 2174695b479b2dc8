use uln2003::{get_next_state, get_pin_states, get_prev_state, State};

fn all_states() -> [State; 9] {
    [
        State::State0,
        State::State1,
        State::State2,
        State::State3,
        State::State4,
        State::State5,
        State::State6,
        State::State7,
        State::State8,
    ]
}

#[test]
fn next_follows_table() {
    assert_eq!(get_next_state(State::State0), State::State1);
    assert_eq!(get_next_state(State::State1), State::State2);
    assert_eq!(get_next_state(State::State2), State::State3);
    assert_eq!(get_next_state(State::State3), State::State4);
    assert_eq!(get_next_state(State::State4), State::State5);
    assert_eq!(get_next_state(State::State5), State::State6);
    assert_eq!(get_next_state(State::State6), State::State7);
    assert_eq!(get_next_state(State::State7), State::State8);
    assert_eq!(get_next_state(State::State8), State::State1);
}

#[test]
fn prev_follows_table() {
    assert_eq!(get_prev_state(State::State0), State::State8);
    assert_eq!(get_prev_state(State::State1), State::State8);
    assert_eq!(get_prev_state(State::State2), State::State1);
    assert_eq!(get_prev_state(State::State3), State::State2);
    assert_eq!(get_prev_state(State::State4), State::State3);
    assert_eq!(get_prev_state(State::State5), State::State4);
    assert_eq!(get_prev_state(State::State6), State::State5);
    assert_eq!(get_prev_state(State::State7), State::State6);
    assert_eq!(get_prev_state(State::State8), State::State7);
}

#[test]
fn patterns_follow_table() {
    assert_eq!(get_pin_states(State::State0), [false, false, false, false]);
    assert_eq!(get_pin_states(State::State1), [false, false, false, true]);
    assert_eq!(get_pin_states(State::State2), [false, false, true, true]);
    assert_eq!(get_pin_states(State::State3), [false, false, true, false]);
    assert_eq!(get_pin_states(State::State4), [false, true, true, false]);
    assert_eq!(get_pin_states(State::State5), [false, true, false, false]);
    assert_eq!(get_pin_states(State::State6), [true, true, false, false]);
    assert_eq!(get_pin_states(State::State7), [true, false, false, false]);
    assert_eq!(get_pin_states(State::State8), [true, false, false, true]);
}

#[test]
fn next_prev_inverse_in_cycle() {
    for s in all_states() {
        if s != State::State0 {
            assert_eq!(get_next_state(get_prev_state(s)), s);
        }
    }
}

#[test]
fn pattern_round_trip_fails_only_at_idle() {
    for s in all_states() {
        let round = get_next_state(get_prev_state(s));
        if s == State::State0 {
            // both State0 and State1 have State8 as predecessor, so the
            // round trip from the idle marker lands on State1 instead
            assert_eq!(round, State::State1);
            assert_ne!(get_pin_states(round), get_pin_states(s));
        } else {
            assert_eq!(get_pin_states(round), get_pin_states(s));
        }
    }
}
