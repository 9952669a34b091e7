use area_25_5::events::{
    BuffUIAdd, BuffUIRemove, CurrentTimeChanged, CurrentWaveChanged, GameEvent, GameOver,
    PlayerProfileUISet, PlayerSpawned, PowerFound, ScorePoints,
};
use area_25_5::config::{ItemKind, NUMBER_OF_WAVES};
use area_25_5::state::{on_game_over, on_restart_click, GameState};
use area_25_5::timer::{
    on_all_enemies_died, on_current_time_changed, reset_initial_state, tick_timer, CurrentWave,
    TimePassed,
};
use area_25_5::waves::{find_wave_entry, on_player_spawned, on_wave_changed};

fn time(minutes: u16, seconds: u16) -> TimePassed {
    TimePassed { minutes, seconds }
}

#[test]
fn tick_timer_counts_down_one_second() {
    let out = tick_timer(time(2, 10));
    assert_eq!(out.time, time(2, 9));
    assert_eq!(out.events, vec![GameEvent::CurrentTimeChanged(CurrentTimeChanged)]);
}

#[test]
fn tick_timer_borrows_a_minute() {
    let out = tick_timer(time(3, 0));
    assert_eq!(out.time, time(2, 59));
    assert_eq!(out.events, vec![GameEvent::CurrentTimeChanged(CurrentTimeChanged)]);
}

#[test]
fn tick_timer_at_zero_ends_the_game() {
    let out = tick_timer(time(0, 0));
    assert_eq!(out.time, time(0, 0));
    assert_eq!(out.events, vec![GameEvent::GameOver(GameOver)]);
}

#[test]
fn countdown_reaches_zero_after_its_seconds() {
    let mut t = time(1, 5);
    for _ in 0..65 {
        let out = tick_timer(t);
        assert_eq!(out.events, vec![GameEvent::CurrentTimeChanged(CurrentTimeChanged)]);
        t = out.time;
    }
    assert_eq!(t, time(0, 0));
    assert_eq!(tick_timer(t).events, vec![GameEvent::GameOver(GameOver)]);
}

#[test]
fn clearing_a_wave_starts_the_next_one() {
    let out = on_all_enemies_died(CurrentWave(2), time(1, 15), GameState::Alive);
    assert_eq!(out.wave, CurrentWave(3));
    assert_eq!(out.time, time(1, 30));
    assert_eq!(out.next_state, None);
    assert_eq!(
        out.events,
        vec![
            GameEvent::ScoreChanged(ScorePoints::TimeLeft { seconds: 75 }),
            GameEvent::CurrentWaveChanged(CurrentWaveChanged),
            GameEvent::CurrentTimeChanged(CurrentTimeChanged),
        ]
    );
}

#[test]
fn clearing_an_even_wave_leaves_no_seconds() {
    let out = on_all_enemies_died(CurrentWave(1), time(0, 0), GameState::Alive);
    assert_eq!(out.wave, CurrentWave(2));
    assert_eq!(out.time, time(1, 0));
}

#[test]
fn clearing_the_last_wave_wins() {
    let out = on_all_enemies_died(CurrentWave(NUMBER_OF_WAVES as u16), time(0, 20), GameState::Alive);
    assert_eq!(out.wave, CurrentWave(5));
    assert_eq!(out.time, time(0, 20));
    assert_eq!(out.next_state, Some(GameState::Won));
    assert_eq!(out.events, vec![GameEvent::ScoreChanged(ScorePoints::TimeLeft { seconds: 20 })]);
}

#[test]
fn clearing_the_last_wave_twice_does_not_change_state_again() {
    let out = on_all_enemies_died(CurrentWave(5), time(0, 20), GameState::Won);
    assert_eq!(out.next_state, None);
}

#[test]
fn wave_countdowns_grow_by_thirty_seconds() {
    for wave in 1..=4u16 {
        let out = on_all_enemies_died(CurrentWave(wave), time(0, 0), GameState::Alive);
        let total = out.time.minutes as u32 * 60 + out.time.seconds as u32;
        assert_eq!(total, (wave as u32 + 1) * 30);
    }
}

#[test]
fn new_game_starts_from_the_first_wave() {
    let out = reset_initial_state();
    assert_eq!(out.wave, CurrentWave(1));
    assert_eq!(out.time, time(10, 30));
    assert_eq!(out.wave_text, "Current wave: 1");
    assert_eq!(
        out.events,
        vec![
            GameEvent::ScoreChanged(ScorePoints::Zero),
            GameEvent::CurrentTimeChanged(CurrentTimeChanged),
            GameEvent::PlayerProfileUISet(PlayerProfileUISet),
            GameEvent::PlayerHealthRestored,
        ]
    );
}

#[test]
fn clock_text_pads_to_two_digits() {
    assert_eq!(on_current_time_changed(time(1, 5)), "01:05");
    assert_eq!(on_current_time_changed(time(10, 30)), "10:30");
    assert_eq!(on_current_time_changed(time(0, 0)), "00:00");
    assert_eq!(on_current_time_changed(time(123, 59)), "123:59");
}

#[test]
fn game_over_then_restart() {
    for state in [GameState::Menu, GameState::Alive, GameState::Dead, GameState::Won] {
        let dead = on_game_over(state).unwrap_or(state);
        assert_eq!(dead, GameState::Dead);
        assert_eq!(on_game_over(dead), None);
        assert_eq!(on_restart_click(dead), Some(GameState::Alive));
    }
    assert_eq!(on_restart_click(GameState::Alive), None);
    assert_eq!(GameState::default(), GameState::Menu);
}

#[test]
fn wave_entries_are_found_by_level() {
    let levels = vec![1usize, 2, 3, 2];
    assert_eq!(find_wave_entry(&levels, CurrentWave(2)), Some(1));
    assert_eq!(find_wave_entry(&levels, CurrentWave(3)), Some(2));
    assert_eq!(find_wave_entry(&levels, CurrentWave(7)), None);
}

#[test]
fn spawning_the_player_populates_the_wave() {
    let levels = vec![1usize, 2, 3, 4, 5];
    let plan = on_player_spawned(GameState::Menu, CurrentWave(3), &levels, &levels, &levels);
    assert_eq!(plan.next_state, Some(GameState::Alive));
    assert_eq!(plan.enemy, Some(2));
    assert_eq!(plan.weapon, Some(2));
    assert_eq!(plan.item, Some(2));
    assert!(plan.spawn_hud);
    assert_eq!(plan.events, vec![GameEvent::PlayerProfileUISet(PlayerProfileUISet)]);
}

#[test]
fn spawning_stops_at_the_first_missing_table() {
    let full = vec![1usize, 2];
    let missing = vec![1usize];
    let plan = on_player_spawned(GameState::Alive, CurrentWave(2), &full, &missing, &full);
    assert_eq!(plan.next_state, None);
    assert_eq!(plan.enemy, Some(1));
    assert_eq!(plan.weapon, None);
    assert_eq!(plan.item, None);
    assert!(!plan.spawn_hud);
    assert!(plan.events.is_empty());
}

#[test]
fn a_new_wave_clears_the_map_and_gives_a_power() {
    let levels = vec![1usize, 2, 3];
    let items = vec![ItemKind::Speed, ItemKind::Health, ItemKind::Shield];
    let weapons = vec![true, false];
    let plan = on_wave_changed(true, CurrentWave(2), &items, &weapons, &levels, &levels, &levels);
    assert_eq!(plan.despawn_items, vec![true, false, true]);
    assert_eq!(plan.despawn_weapons, vec![false, true]);
    assert_eq!((plan.enemy, plan.weapon, plan.item), (Some(1), Some(1), Some(1)));
    assert_eq!(plan.events, vec![GameEvent::PowerFound(PowerFound)]);
    assert_eq!(plan.wave_text.as_deref(), Some("Wave #2"));
}

#[test]
fn a_new_wave_without_player_does_nothing() {
    let levels = vec![1usize, 2, 3];
    let items = vec![ItemKind::Speed];
    let weapons = vec![false];
    let plan = on_wave_changed(false, CurrentWave(2), &items, &weapons, &levels, &levels, &levels);
    assert_eq!(plan.despawn_items, vec![false]);
    assert_eq!(plan.despawn_weapons, vec![false]);
    assert_eq!(plan.enemy, None);
    assert!(plan.events.is_empty());
    assert_eq!(plan.wave_text, None);
}

#[test]
fn event_values_compare() {
    assert_ne!(
        GameEvent::BuffUIAdd(BuffUIAdd { item_kind: ItemKind::Shield }),
        GameEvent::BuffUIRemove(BuffUIRemove { item_kind: ItemKind::Shield })
    );
    assert_eq!(GameEvent::PlayerSpawned(PlayerSpawned), GameEvent::PlayerSpawned(PlayerSpawned));
}
