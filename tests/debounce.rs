use scoreboard_sampler::state::{CurrentTeam, Debouncer, GameState};

fn state(team: Option<CurrentTeam>, ct: u8, t: u8) -> GameState {
    GameState { current_team: team, num_ct: ct, num_t: t }
}

#[test]
fn default_state_is_empty() {
    let d = GameState::default();
    assert_eq!(d, state(None, 0, 0));
}

#[test]
fn new_debouncer_trusts_default() {
    let d = Debouncer::new();
    assert_eq!(d.trusted(), GameState::default());
    assert_eq!(d.history(), vec![GameState::default(); 3]);
}

#[test]
fn three_agreeing_samples_become_trusted() {
    let a = state(Some(CurrentTeam::CT), 5, 4);
    let mut d = Debouncer::new();
    assert_eq!(d.record(a), GameState::default());
    assert_eq!(d.record(a), GameState::default());
    assert_eq!(d.record(a), a);
    assert_eq!(d.trusted(), a);
}

#[test]
fn disagreeing_third_sample_keeps_trusted() {
    let a = state(Some(CurrentTeam::T), 3, 2);
    let b = state(Some(CurrentTeam::T), 3, 1);
    let mut d = Debouncer::new();
    d.record(a);
    let before = d.record(a);
    assert_eq!(d.record(b), before);
    assert_eq!(before, GameState::default());
}

#[test]
fn interrupted_value_is_not_trusted() {
    let a = state(Some(CurrentTeam::CT), 1, 1);
    let b = state(None, 1, 1);
    let mut d = Debouncer::new();
    d.record(a);
    d.record(b);
    assert_eq!(d.record(a), GameState::default());
    assert_ne!(d.trusted(), a);
}

#[test]
fn trusted_state_changes_after_three_new_samples() {
    let a = state(Some(CurrentTeam::CT), 5, 5);
    let b = state(Some(CurrentTeam::T), 4, 5);
    let mut d = Debouncer::new();
    for _ in 0..3 {
        d.record(a);
    }
    assert_eq!(d.trusted(), a);
    d.record(b);
    d.record(b);
    assert_eq!(d.trusted(), a);
    assert_eq!(d.record(b), b);
}

#[test]
fn ring_holds_last_three_after_four_writes() {
    let s: Vec<GameState> = (1..=4u8).map(|i| state(None, i, 0)).collect();
    let mut d = Debouncer::new();
    for x in &s {
        d.record(*x);
    }
    let mut h = d.history();
    h.sort_by_key(|g| g.num_ct);
    assert_eq!(h, s[1..].to_vec());
}

#[test]
fn skipped_ticks_do_not_touch_the_ring() {
    let s: Vec<GameState> = (1..=4u8).map(|i| state(Some(CurrentTeam::T), 0, i)).collect();
    let mut with_skips = Debouncer::new();
    let mut plain = Debouncer::new();
    for x in &s {
        with_skips.observe(None);
        with_skips.observe(Some(*x));
        with_skips.observe(None);
        plain.record(*x);
    }
    assert_eq!(with_skips.history(), plain.history());
    assert_eq!(with_skips.trusted(), plain.trusted());
}

#[test]
fn skipped_tick_returns_trusted() {
    let mut d = Debouncer::new();
    assert_eq!(d.observe(None), GameState::default());
    assert_eq!(d.history(), vec![GameState::default(); 3]);
}
