use vstd::prelude::*;
use vstd::string::*;

use crate::config::{NUMBER_OF_WAVES, SECONDS_PER_WAVE};
use crate::events::{CurrentTimeChanged, CurrentWaveChanged, GameEvent, GameOver, PlayerProfileUISet, ScorePoints};
use crate::state::GameState;
use crate::text::{decimal, decimal_two_digits, labeled_number, push_two_digits};

verus! {

/// The wave the player is fighting, counted from one.
#[derive(PartialEq, Eq, Structural, Clone, Copy, Debug)]
pub struct CurrentWave(pub u16);

/// The countdown of the current wave.
#[derive(PartialEq, Eq, Structural, Clone, Copy, Debug)]
pub struct TimePassed {
    pub minutes: u16,
    pub seconds: u16,
}

/// The time a countdown shows, in seconds.
pub open spec fn total_seconds(t: TimePassed) -> nat {
    t.minutes as nat * 60 + t.seconds as nat
}

/// The countdown one tick later: a second less, borrowing a minute when the
/// seconds are at zero; a countdown at zero stays there.
pub open spec fn next_tick(t: TimePassed) -> TimePassed {
    if t.minutes == 0 && t.seconds == 0 {
        t
    } else if t.seconds == 0 {
        TimePassed { minutes: (t.minutes - 1) as u16, seconds: 59 }
    } else {
        TimePassed { minutes: t.minutes, seconds: (t.seconds - 1) as u16 }
    }
}

/// What a tick of the countdown leaves and triggers.
pub struct TickOutcome {
    pub time: TimePassed,
    pub events: Vec<GameEvent>,
}

/// One second of the countdown: at zero the game is over and the time stays
/// as it is, otherwise the time goes down by one second and is redrawn.
pub fn tick_timer(current_time: TimePassed) -> (out: TickOutcome)
    ensures
        out.time == next_tick(current_time),
        out.events@ == (if current_time.minutes == 0 && current_time.seconds == 0 {
            seq![GameEvent::GameOver(GameOver)]
        } else {
            seq![GameEvent::CurrentTimeChanged(CurrentTimeChanged)]
        }),
{
    let mut minutes = current_time.minutes;
    let mut seconds = current_time.seconds;
    let mut events: Vec<GameEvent> = Vec::new();

    if seconds == 0 && minutes == 0 {
        events.push(GameEvent::GameOver(GameOver));
        return TickOutcome { time: current_time, events };
    }
    if seconds == 0 && minutes > 0 {
        minutes = minutes - 1;
        seconds = 59;
    } else if seconds > 0 {
        seconds = seconds - 1;
    }
    events.push(GameEvent::CurrentTimeChanged(CurrentTimeChanged));
    TickOutcome { time: TimePassed { minutes, seconds }, events }
}

/// Every tick of a running countdown takes exactly one second off it, and a
/// countdown at zero stays at zero.
pub proof fn lemma_tick_takes_one_second(t: TimePassed)
    ensures
        total_seconds(t) > 0 ==> total_seconds(next_tick(t)) == total_seconds(t) - 1,
        total_seconds(t) == 0 ==> next_tick(t) == t,
{
}

/// A tick keeps the clock well formed: seconds below sixty stay below sixty,
/// and while the seconds are above zero only they change, going down by one.
pub proof fn lemma_tick_keeps_clock_form(t: TimePassed)
    ensures
        t.seconds < 60 ==> next_tick(t).seconds < 60,
        t.seconds > 0 ==> next_tick(t).minutes == t.minutes && next_tick(t).seconds + 1 == t.seconds,
        t.seconds == 0 && t.minutes > 0 ==> next_tick(t).minutes + 1 == t.minutes && next_tick(t).seconds == 59,
{
}

/// The countdown that a wave number starts with: `SECONDS_PER_WAVE` seconds per wave.
pub open spec fn wave_start_time(wave: u16) -> TimePassed {
    TimePassed {
        minutes: ((wave * SECONDS_PER_WAVE) / 60) as u16,
        seconds: ((wave * SECONDS_PER_WAVE) % 60) as u16,
    }
}

/// What clearing a wave leaves and triggers.
pub struct WaveCleared {
    pub wave: CurrentWave,
    pub time: TimePassed,
    pub next_state: Option<GameState>,
    pub events: Vec<GameEvent>,
}

/// When the last enemy of a wave dies, the seconds left are added to the score;
/// then the game is won after the last wave, and otherwise the next wave starts
/// with a countdown of `SECONDS_PER_WAVE` seconds per wave number.
pub fn on_all_enemies_died(current_wave: CurrentWave, current_time: TimePassed, state: GameState) -> (out: WaveCleared)
    requires
        current_time.seconds + current_time.minutes * 60 <= u16::MAX,
        current_wave.0 < u16::MAX,
    ensures
        out.events@.len() >= 1,
        out.events@[0] == GameEvent::ScoreChanged(
            ScorePoints::TimeLeft { seconds: (current_time.seconds + current_time.minutes * 60) as u16 },
        ),
        current_wave.0 + 1 > NUMBER_OF_WAVES ==> {
            &&& out.wave == current_wave
            &&& out.time == current_time
            &&& out.next_state == (if state == GameState::Won { None } else { Some(GameState::Won) })
            &&& out.events@.len() == 1
        },
        current_wave.0 + 1 <= NUMBER_OF_WAVES ==> {
            &&& out.wave == CurrentWave((current_wave.0 + 1) as u16)
            &&& out.time == wave_start_time((current_wave.0 + 1) as u16)
            &&& out.next_state is None
            &&& out.events@ == seq![
                out.events@[0],
                GameEvent::CurrentWaveChanged(CurrentWaveChanged),
                GameEvent::CurrentTimeChanged(CurrentTimeChanged),
            ]
        },
{
    let mut events: Vec<GameEvent> = Vec::new();

    let mut seconds = current_time.seconds;
    seconds = seconds + current_time.minutes * 60;
    events.push(GameEvent::ScoreChanged(ScorePoints::TimeLeft { seconds }));

    let new_wave = current_wave.0 + 1;
    if new_wave as usize > NUMBER_OF_WAVES {
        let next_state = if state != GameState::Won {
            Some(GameState::Won)
        } else {
            None
        };
        return WaveCleared { wave: current_wave, time: current_time, next_state, events };
    }
    events.push(GameEvent::CurrentWaveChanged(CurrentWaveChanged));

    let mut seconds: u16 = new_wave * SECONDS_PER_WAVE;
    let mod_seconds = seconds % 60;
    let minutes: u16 = seconds / 60;
    if mod_seconds == 0 {
        seconds = 0;
    } else {
        seconds = mod_seconds;
    }
    events.push(GameEvent::CurrentTimeChanged(CurrentTimeChanged));
    WaveCleared {
        wave: CurrentWave(new_wave),
        time: TimePassed { minutes, seconds },
        next_state: None,
        events,
    }
}

/// A wave's countdown starts at `SECONDS_PER_WAVE` seconds per wave number, and
/// the waves never go past `NUMBER_OF_WAVES`.
pub proof fn lemma_wave_start_time(wave: u16)
    requires
        1 <= wave <= NUMBER_OF_WAVES,
    ensures
        total_seconds(wave_start_time(wave)) == wave * SECONDS_PER_WAVE,
        wave_start_time(wave).seconds < 60,
{
}

/// What a new game starts from.
pub struct InitialState {
    pub wave: CurrentWave,
    pub time: TimePassed,
    pub wave_text: String,
    pub events: Vec<GameEvent>,
}

/// The state every new game starts from: the first wave, ten and a half
/// minutes on the clock, a refreshed score, full health and a redrawn HUD.
pub fn reset_initial_state() -> (out: InitialState)
    ensures
        out.wave == CurrentWave(1),
        out.time == (TimePassed { minutes: 10, seconds: 30 }),
        out.wave_text@ == "Current wave: "@ + decimal(1),
        out.events@ == seq![
            GameEvent::ScoreChanged(ScorePoints::Zero),
            GameEvent::CurrentTimeChanged(CurrentTimeChanged),
            GameEvent::PlayerProfileUISet(PlayerProfileUISet),
            GameEvent::PlayerHealthRestored,
        ],
{
    let wave = CurrentWave(1u16);
    let wave_text = labeled_number("Current wave: ", wave.0 as u64);
    let time = TimePassed { minutes: 10u16, seconds: 30u16 };
    let mut events: Vec<GameEvent> = Vec::new();
    events.push(GameEvent::ScoreChanged(ScorePoints::Zero));
    events.push(GameEvent::CurrentTimeChanged(CurrentTimeChanged));
    events.push(GameEvent::PlayerProfileUISet(PlayerProfileUISet));
    events.push(GameEvent::PlayerHealthRestored);
    InitialState { wave, time, wave_text, events }
}

/// The text of the countdown, minutes and seconds on two digits each (`"MM:SS"`).
pub open spec fn clock_text(t: TimePassed) -> Seq<char> {
    decimal_two_digits(t.minutes as nat) + seq![':'] + decimal_two_digits(t.seconds as nat)
}

/// The text the countdown shows after it changed.
pub fn on_current_time_changed(current_time: TimePassed) -> (text: String)
    ensures
        text@ == clock_text(current_time),
{
    let mut text = String::new();
    push_two_digits(&mut text, current_time.minutes as u64);
    proof {
        reveal_strlit(":");
    }
    text.append(":");
    push_two_digits(&mut text, current_time.seconds as u64);
    text
}

} // verus!
