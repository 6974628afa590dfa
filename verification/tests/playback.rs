use morse_i2s::playback::{AudioBuffer, PlaybackError, PlaybackState, Scheduler, TickPlan};
use morse_i2s::queue::SymbolQueue;
use morse_i2s::symbol::{PinLevel, SymbolState};

#[test]
fn scheduler_starts_silent_with_silence_in_flight() {
    let scheduler = Scheduler::new();
    assert_eq!(scheduler.current_state(), PlaybackState::Silent);
    assert_eq!(scheduler.in_flight(), Some(AudioBuffer::Silence));
}

#[test]
fn tick_on_empty_queue_selects_silence() {
    let mut scheduler = Scheduler::new();
    let mut queue = SymbolQueue::new();
    for k in 0..5u32 {
        let plan = scheduler.tick(&mut queue, 1000 * k, 5_000_000).unwrap();
        assert_eq!(plan.state, PlaybackState::Silent);
        assert_eq!(plan.buffer, AudioBuffer::Silence);
        assert_eq!(plan.indicator, PinLevel::High);
        assert_eq!(scheduler.current_state(), PlaybackState::Silent);
    }
}

#[test]
fn tick_plays_a_tone_entry() {
    let mut scheduler = Scheduler::new();
    let mut queue = SymbolQueue::new();
    queue.enqueue(SymbolState::Tone).unwrap();
    let plan = scheduler.tick(&mut queue, 10, 5_000_000).unwrap();
    assert_eq!(
        plan,
        TickPlan {
            state: PlaybackState::Tone,
            buffer: AudioBuffer::Waveform,
            indicator: PinLevel::Low,
            next_tick: 5_000_010,
        }
    );
    assert_eq!(scheduler.current_state(), PlaybackState::Tone);
    assert_eq!(scheduler.in_flight(), Some(AudioBuffer::Waveform));
    assert!(queue.is_empty());
}

#[test]
fn tick_plays_a_silence_entry() {
    let mut scheduler = Scheduler::new();
    let mut queue = SymbolQueue::new();
    queue.enqueue(SymbolState::Silence).unwrap();
    queue.enqueue(SymbolState::Tone).unwrap();
    let plan = scheduler.tick(&mut queue, 0, 1).unwrap();
    assert_eq!(
        plan,
        TickPlan {
            state: PlaybackState::Silent,
            buffer: AudioBuffer::Silence,
            indicator: PinLevel::High,
            next_tick: 1,
        }
    );
    assert_eq!(queue.len(), 1);
}

#[test]
fn tick_falls_back_to_silence_after_the_last_entry() {
    let mut scheduler = Scheduler::new();
    let mut queue = SymbolQueue::new();
    queue.enqueue(SymbolState::Tone).unwrap();
    assert_eq!(scheduler.tick(&mut queue, 0, 100).unwrap().state, PlaybackState::Tone);
    assert_eq!(scheduler.tick(&mut queue, 100, 100).unwrap().state, PlaybackState::Silent);
    assert_eq!(scheduler.in_flight(), Some(AudioBuffer::Silence));
}

#[test]
fn each_tick_takes_one_entry() {
    let mut scheduler = Scheduler::new();
    let mut queue = SymbolQueue::new();
    for _ in 0..10 {
        queue.enqueue(SymbolState::Tone).unwrap();
    }
    for taken in 1..=10 {
        scheduler.tick(&mut queue, 0, 100).unwrap();
        assert_eq!(queue.len(), 10 - taken);
    }
}

#[test]
fn next_tick_counts_from_the_scheduled_instant() {
    let mut scheduler = Scheduler::new();
    let mut queue = SymbolQueue::new();
    let first = scheduler.tick(&mut queue, 7_000, 5_000_000).unwrap();
    assert_eq!(first.next_tick, 5_007_000);
    let second = scheduler.tick(&mut queue, first.next_tick, 4_400_000).unwrap();
    assert_eq!(second.next_tick, 9_407_000);
}

#[test]
fn next_tick_wraps_with_the_counter() {
    let mut scheduler = Scheduler::new();
    let mut queue = SymbolQueue::new();
    let plan = scheduler.tick(&mut queue, 0xffff_fff0, 0x20).unwrap();
    assert_eq!(plan.next_tick, 0x10);
}

#[test]
fn failed_transfer_stops_the_scheduler() {
    let mut scheduler = Scheduler::new();
    let mut queue = SymbolQueue::new();
    queue.enqueue(SymbolState::Tone).unwrap();
    scheduler.transfer_failed();
    assert_eq!(scheduler.in_flight(), None);
    assert_eq!(scheduler.tick(&mut queue, 0, 100), Err(PlaybackError::TransferMissing));
    assert_eq!(scheduler.tick(&mut queue, 100, 100), Err(PlaybackError::TransferMissing));
    assert_eq!(queue.len(), 1);
    assert_eq!(scheduler.current_state(), PlaybackState::Silent);
}
