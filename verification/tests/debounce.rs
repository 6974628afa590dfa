use morse_i2s::clock::deadline_after;
use morse_i2s::debounce::{
    adjust_speed, Buttons, DebounceState, Recheck, DEFAULT_SPEED, MAX_SPEED, MIN_SPEED,
    SETTLE_DELAY, SPEED_STEP,
};
use morse_i2s::symbol::PinLevel;

const RELEASED: Buttons = Buttons { slower: PinLevel::High, faster: PinLevel::High };
const FASTER: Buttons = Buttons { slower: PinLevel::High, faster: PinLevel::Low };
const SLOWER: Buttons = Buttons { slower: PinLevel::Low, faster: PinLevel::High };
const BOTH: Buttons = Buttons { slower: PinLevel::Low, faster: PinLevel::Low };

#[test]
fn constants_of_the_speed_control() {
    assert_eq!(SETTLE_DELAY, 3_000_000);
    assert_eq!(SPEED_STEP, 600_000);
    assert_eq!(DEFAULT_SPEED, 5_000_000);
    assert_eq!(MIN_SPEED, 600_000);
    assert_eq!(MAX_SPEED, 2_147_483_647);
}

#[test]
fn deadline_is_instant_plus_cycles() {
    assert_eq!(deadline_after(1_000, 3_000_000), 3_001_000);
    assert_eq!(deadline_after(0, 0), 0);
}

#[test]
fn deadline_wraps_at_the_end_of_the_counter() {
    assert_eq!(deadline_after(u32::MAX, 1), 0);
    assert_eq!(deadline_after(0xffff_0000, 3_000_000), 3_000_000 - 0x1_0000);
}

#[test]
fn released_buttons_leave_the_speed() {
    assert_eq!(adjust_speed(5_000_000, RELEASED), 5_000_000);
}

#[test]
fn faster_shortens_the_period_by_one_step() {
    assert_eq!(adjust_speed(5_000_000, FASTER), 4_400_000);
}

#[test]
fn slower_lengthens_the_period_by_one_step() {
    assert_eq!(adjust_speed(5_000_000, SLOWER), 5_600_000);
}

#[test]
fn both_buttons_cancel() {
    assert_eq!(adjust_speed(5_000_000, BOTH), 5_000_000);
}

#[test]
fn faster_stops_at_the_floor() {
    assert_eq!(adjust_speed(1_200_000, FASTER), 600_000);
    assert_eq!(adjust_speed(1_199_999, FASTER), 1_199_999);
    assert_eq!(adjust_speed(800_000, FASTER), 800_000);
    assert_eq!(adjust_speed(600_000, FASTER), 600_000);
    assert_eq!(adjust_speed(0, FASTER), 0);
}

#[test]
fn slower_stops_at_the_ceiling() {
    assert_eq!(adjust_speed(MAX_SPEED - 600_000, SLOWER), MAX_SPEED);
    assert_eq!(adjust_speed(MAX_SPEED - 599_999, SLOWER), MAX_SPEED - 599_999);
    assert_eq!(adjust_speed(MAX_SPEED, SLOWER), MAX_SPEED);
    assert_eq!(adjust_speed(u32::MAX, SLOWER), u32::MAX);
}

#[test]
fn both_buttons_at_the_floor_step_up_and_back() {
    assert_eq!(adjust_speed(600_000, BOTH), 600_000);
    assert_eq!(adjust_speed(MAX_SPEED, BOTH), MAX_SPEED - 600_000);
}

#[test]
fn faster_held_through_three_rechecks() {
    let mut state = DebounceState::Armed;
    let mut speed = DEFAULT_SPEED;
    let mut now = 10_000u32;
    for _ in 0..3 {
        let deadline = state.on_edge(now).unwrap();
        assert_eq!(deadline, now + 3_000_000);
        assert_eq!(state.on_recheck(deadline), Recheck::Sample);
        speed = adjust_speed(speed, FASTER);
        now = deadline + 50;
    }
    assert_eq!(speed, 5_000_000 - 3 * 600_000);
    assert_eq!(state, DebounceState::Armed);
}

#[test]
fn edge_arms_one_recheck() {
    let mut state = DebounceState::Armed;
    assert_eq!(state.on_edge(500), Some(3_000_500));
    assert_eq!(state, DebounceState::Pending { deadline: 3_000_500 });
    assert_eq!(state.on_recheck(3_000_500), Recheck::Sample);
    assert_eq!(state, DebounceState::Armed);
}

#[test]
fn recheck_without_an_edge_is_ignored() {
    let mut state = DebounceState::Armed;
    assert_eq!(state.on_recheck(3_000_000), Recheck::Ignore);
    assert_eq!(state, DebounceState::Armed);
}

#[test]
fn a_second_recheck_is_ignored() {
    let mut state = DebounceState::Armed;
    let deadline = state.on_edge(0).unwrap();
    assert_eq!(state.on_recheck(deadline), Recheck::Sample);
    assert_eq!(state.on_recheck(deadline), Recheck::Ignore);
    assert_eq!(state, DebounceState::Armed);
}

#[test]
fn only_the_first_edge_of_a_burst_sets_the_timer() {
    let mut state = DebounceState::Armed;
    assert_eq!(state.on_edge(1_000), Some(3_001_000));
    assert_eq!(state.on_edge(2_000), None);
    assert_eq!(state.on_edge(900_000), None);
    assert_eq!(state, DebounceState::Pending { deadline: 3_900_000 });
}

#[test]
fn a_burst_of_edges_leads_to_one_sampling() {
    let mut state = DebounceState::Armed;
    let edges = [1_000u32, 2_000, 900_000, 2_500_000, 5_000_000];
    let mut timer = None;
    let mut timers_set = 0;
    for now in edges {
        if let Some(deadline) = state.on_edge(now) {
            timer = Some(deadline);
            timers_set += 1;
        }
    }
    assert_eq!(timers_set, 1);
    assert_eq!(timer, Some(3_001_000));
    let mut sampled = 0;
    let mut speed = DEFAULT_SPEED;
    let mut fired = Vec::new();
    while let Some(scheduled) = timer.take() {
        fired.push(scheduled);
        match state.on_recheck(scheduled) {
            Recheck::Sample => {
                sampled += 1;
                speed = adjust_speed(speed, FASTER);
            }
            Recheck::Postpone { deadline } => timer = Some(deadline),
            Recheck::Ignore => {}
        }
    }
    assert_eq!(fired, vec![3_001_000, 8_000_000]);
    assert_eq!(sampled, 1);
    assert_eq!(speed, 4_400_000);
    assert_eq!(state, DebounceState::Armed);
}

#[test]
fn the_last_edge_decides_the_deadline() {
    let mut state = DebounceState::Armed;
    let first = state.on_edge(100).unwrap();
    assert_eq!(state.on_edge(200), None);
    assert_eq!(state, DebounceState::Pending { deadline: 3_000_200 });
    assert_eq!(state.on_recheck(first), Recheck::Postpone { deadline: 3_000_200 });
    assert_eq!(state, DebounceState::Pending { deadline: 3_000_200 });
    assert_eq!(state.on_recheck(3_000_200), Recheck::Sample);
    assert_eq!(state, DebounceState::Armed);
}

#[test]
fn edge_deadline_wraps_with_the_counter() {
    let mut state = DebounceState::Armed;
    assert_eq!(state.on_edge(u32::MAX - 999_999), Some(2_000_000));
    assert_eq!(state.on_recheck(2_000_000), Recheck::Sample);
}
