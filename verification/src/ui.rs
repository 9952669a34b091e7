use vstd::prelude::*;

use crate::config::{DEFAULT_WEAPON_SPRITE_SOURCE, PLAYER_HEALTH, PLAYER_MANA};
use crate::events::{GameEvent, PlayerProfileUISet, RestartGame};

verus! {

/// Marks the health bar drawn above a character.
#[derive(PartialEq, Eq, Structural, Clone, Copy, Debug)]
pub struct HealthBar;

/// Marks the health bar of the player profile panel.
#[derive(PartialEq, Eq, Structural, Clone, Copy, Debug)]
pub struct HealthBarUI;

/// Marks the text of the current wave.
#[derive(PartialEq, Eq, Structural, Clone, Copy, Debug)]
pub struct CurrentWaveUI;

/// Marks the text of the score.
#[derive(PartialEq, Eq, Structural, Clone, Copy, Debug)]
pub struct ScoreUI;

/// Marks the text of the countdown.
#[derive(PartialEq, Eq, Structural, Clone, Copy, Debug)]
pub struct CurrentTimeUI;

/// Marks the row of buff icons.
#[derive(PartialEq, Eq, Structural, Clone, Copy, Debug)]
pub struct ContainerBuffsUI;

/// Marks the weapon slot.
#[derive(PartialEq, Eq, Structural, Clone, Copy, Debug)]
pub struct WeaponUI;

/// Marks the player profile panel.
#[derive(PartialEq, Eq, Structural, Clone, Copy, Debug)]
pub struct PlayerProfileUI;

/// Marks the panel of player statistics.
#[derive(PartialEq, Eq, Structural, Clone, Copy, Debug)]
pub struct PlayerStatsUI;

/// Marks the button of the victory screen.
#[derive(PartialEq, Eq, Structural, Clone, Copy, Debug)]
pub struct PlayAgainButton;

/// Marks the button of the menu screen.
#[derive(PartialEq, Eq, Structural, Clone, Copy, Debug)]
pub struct StartGameButton;

/// Marks the button of the game over screen.
#[derive(PartialEq, Eq, Structural, Clone, Copy, Debug)]
pub struct RestartGameButton;

/// Marks the menu screen.
#[derive(PartialEq, Eq, Structural, Clone, Copy, Debug)]
pub struct MenuOverlay;

/// Marks the game over screen.
#[derive(PartialEq, Eq, Structural, Clone, Copy, Debug)]
pub struct GameOverOverlay;

/// Marks the victory screen.
#[derive(PartialEq, Eq, Structural, Clone, Copy, Debug)]
pub struct GameWonOverlay;

/// The panels of the in-game HUD.
#[derive(PartialEq, Eq, Structural, Clone, Copy, Debug)]
pub enum HudPanel {
    CurrentWave(CurrentWaveUI),
    Score(ScoreUI),
    CurrentTime(CurrentTimeUI),
    PlayerProfile(PlayerProfileUI),
    ContainerBuffs(ContainerBuffsUI),
    Weapon(WeaponUI),
}

/// The HUD of a new game: its panels in the order they are created, the first
/// texts they show and the images they carry, and the events their creation triggers.
pub struct HudSetup {
    pub panels: Vec<HudPanel>,
    pub wave_text: &'static str,
    pub score_text: &'static str,
    pub time_text: &'static str,
    pub profile_image: &'static str,
    pub weapon_image: &'static str,
    pub events: Vec<GameEvent>,
}

/// The HUD of a new game: the wave, the score, the countdown, the player
/// profile (which asks for its health and mana bars), the buff row and the
/// weapon slot showing the default weapon.
pub fn setup_ui() -> (hud: HudSetup)
    ensures
        hud.panels@ == seq![
            HudPanel::CurrentWave(CurrentWaveUI),
            HudPanel::Score(ScoreUI),
            HudPanel::CurrentTime(CurrentTimeUI),
            HudPanel::PlayerProfile(PlayerProfileUI),
            HudPanel::ContainerBuffs(ContainerBuffsUI),
            HudPanel::Weapon(WeaponUI),
        ],
        hud.wave_text@ == "Current wave: 1"@,
        hud.score_text@ == "0"@,
        hud.time_text@ == "01:00"@,
        hud.profile_image@ == "textures/UI/profile.png"@,
        hud.weapon_image@ == DEFAULT_WEAPON_SPRITE_SOURCE@,
        hud.events@ == seq![GameEvent::PlayerProfileUISet(PlayerProfileUISet)],
{
    let mut panels: Vec<HudPanel> = Vec::new();
    panels.push(HudPanel::CurrentWave(CurrentWaveUI));
    panels.push(HudPanel::Score(ScoreUI));
    panels.push(HudPanel::CurrentTime(CurrentTimeUI));
    panels.push(HudPanel::PlayerProfile(PlayerProfileUI));
    panels.push(HudPanel::ContainerBuffs(ContainerBuffsUI));
    panels.push(HudPanel::Weapon(WeaponUI));
    let mut events: Vec<GameEvent> = Vec::new();
    events.push(GameEvent::PlayerProfileUISet(PlayerProfileUISet));
    HudSetup {
        panels,
        wave_text: "Current wave: 1",
        score_text: "0",
        time_text: "01:00",
        profile_image: "textures/UI/profile.png",
        weapon_image: DEFAULT_WEAPON_SPRITE_SOURCE,
        events,
    }
}

/// The full-screen overlays.
#[derive(PartialEq, Eq, Structural, Clone, Copy, Debug)]
pub enum ScreenOverlay {
    Menu(MenuOverlay),
    GameOver(GameOverOverlay),
    GameWon(GameWonOverlay),
}

/// The buttons of the full-screen overlays.
#[derive(PartialEq, Eq, Structural, Clone, Copy, Debug)]
pub enum ScreenButton {
    StartGame(StartGameButton),
    RestartGame(RestartGameButton),
    PlayAgain(PlayAgainButton),
}

/// A full-screen overlay: a title, the final score when it shows one, and a
/// button with its label, stacked in that order.
pub struct ScreenSpec {
    pub overlay: ScreenOverlay,
    pub title: &'static str,
    pub title_font_size: u32,
    pub shows_final_score: bool,
    pub button: ScreenButton,
    pub button_title: &'static str,
    pub text_font_size: u32,
}

/// The main menu: a title and a button that starts the game.
pub fn menu_screen() -> (screen: ScreenSpec)
    ensures
        screen.overlay == ScreenOverlay::Menu(MenuOverlay),
        screen.title@ == "MAIN MENU"@,
        screen.title_font_size == 100,
        !screen.shows_final_score,
        screen.button == ScreenButton::StartGame(StartGameButton),
        screen.button_title@ == "Start game"@,
        screen.text_font_size == 40,
{
    ScreenSpec {
        overlay: ScreenOverlay::Menu(MenuOverlay),
        title: "MAIN MENU",
        title_font_size: 100,
        shows_final_score: false,
        button: ScreenButton::StartGame(StartGameButton),
        button_title: "Start game",
        text_font_size: 40,
    }
}

/// The game over screen: a title, the final score and a button that restarts the game.
pub fn game_over_screen() -> (screen: ScreenSpec)
    ensures
        screen.overlay == ScreenOverlay::GameOver(GameOverOverlay),
        screen.title@ == "GAME OVER"@,
        screen.title_font_size == 100,
        screen.shows_final_score,
        screen.button == ScreenButton::RestartGame(RestartGameButton),
        screen.button_title@ == "Restart game"@,
        screen.text_font_size == 40,
{
    ScreenSpec {
        overlay: ScreenOverlay::GameOver(GameOverOverlay),
        title: "GAME OVER",
        title_font_size: 100,
        shows_final_score: true,
        button: ScreenButton::RestartGame(RestartGameButton),
        button_title: "Restart game",
        text_font_size: 40,
    }
}

/// The victory screen: a title, the final score and a button for a new game.
pub fn game_won_screen() -> (screen: ScreenSpec)
    ensures
        screen.overlay == ScreenOverlay::GameWon(GameWonOverlay),
        screen.title@ == "YOU WON"@,
        screen.title_font_size == 100,
        screen.shows_final_score,
        screen.button == ScreenButton::PlayAgain(PlayAgainButton),
        screen.button_title@ == "Play again"@,
        screen.text_font_size == 40,
{
    ScreenSpec {
        overlay: ScreenOverlay::GameWon(GameWonOverlay),
        title: "YOU WON",
        title_font_size: 100,
        shows_final_score: true,
        button: ScreenButton::PlayAgain(PlayAgainButton),
        button_title: "Play again",
        text_font_size: 40,
    }
}

/// How a button was interacted with since the last frame.
#[derive(PartialEq, Eq, Structural, Clone, Copy, Debug)]
pub enum ButtonInteraction {
    Pressed,
    Hovered,
    Idle,
}

/// The background colours of a button.
#[derive(PartialEq, Eq, Structural, Clone, Copy, Debug)]
pub enum ButtonBackground {
    /// Black: the button at rest.
    Black,
    /// A faint dark green: the overlay buttons under the pointer.
    Highlight,
    /// Bright green: the restart button of the first screens under the pointer.
    Green,
}

/// What a button does about an interaction.
#[derive(PartialEq, Eq, Structural, Clone, Copy, Debug)]
pub enum ButtonAction {
    Trigger(RestartGame),
    SetBackground(ButtonBackground),
}

/// The response of a button to an interaction: a press asks for a new game,
/// the pointer over it shows the hover colour, and black comes back otherwise.
pub open spec fn button_response(interaction: ButtonInteraction, hover: ButtonBackground) -> ButtonAction {
    match interaction {
        ButtonInteraction::Pressed => ButtonAction::Trigger(RestartGame),
        ButtonInteraction::Hovered => ButtonAction::SetBackground(hover),
        ButtonInteraction::Idle => ButtonAction::SetBackground(ButtonBackground::Black),
    }
}

fn handle_button_click(interactions: &Vec<ButtonInteraction>, hover: ButtonBackground) -> (actions: Vec<ButtonAction>)
    ensures
        actions@.len() == interactions@.len(),
        forall|i: int| 0 <= i < interactions@.len() ==> actions@[i] == button_response(interactions@[i], hover),
{
    let mut actions: Vec<ButtonAction> = Vec::new();
    let mut i: usize = 0;
    while i < interactions.len()
        invariant
            i <= interactions@.len(),
            actions@.len() == i,
            forall|k: int| 0 <= k < i ==> actions@[k] == button_response(interactions@[k], hover),
        decreases interactions@.len() - i,
    {
        let action = match interactions[i] {
            ButtonInteraction::Pressed => ButtonAction::Trigger(RestartGame),
            ButtonInteraction::Hovered => ButtonAction::SetBackground(hover),
            ButtonInteraction::Idle => ButtonAction::SetBackground(ButtonBackground::Black),
        };
        actions.push(action);
        i = i + 1;
    }
    actions
}

/// The responses of the victory screen's button to this frame's interactions.
pub fn handle_play_again_click(interactions: &Vec<ButtonInteraction>) -> (actions: Vec<ButtonAction>)
    ensures
        actions@.len() == interactions@.len(),
        forall|i: int|
            0 <= i < interactions@.len() ==> actions@[i] == button_response(interactions@[i], ButtonBackground::Highlight),
{
    handle_button_click(interactions, ButtonBackground::Highlight)
}

/// The responses of the game over screen's button to this frame's interactions.
pub fn handle_restart_click(interactions: &Vec<ButtonInteraction>) -> (actions: Vec<ButtonAction>)
    ensures
        actions@.len() == interactions@.len(),
        forall|i: int|
            0 <= i < interactions@.len() ==> actions@[i] == button_response(interactions@[i], ButtonBackground::Highlight),
{
    handle_button_click(interactions, ButtonBackground::Highlight)
}

/// The responses of the menu's start button to this frame's interactions.
pub fn handle_start_game_click(interactions: &Vec<ButtonInteraction>) -> (actions: Vec<ButtonAction>)
    ensures
        actions@.len() == interactions@.len(),
        forall|i: int|
            0 <= i < interactions@.len() ==> actions@[i] == button_response(interactions@[i], ButtonBackground::Highlight),
{
    handle_button_click(interactions, ButtonBackground::Highlight)
}

/// The responses of a restart button that turns bright green under the pointer.
pub fn check_restart_click(interactions: &Vec<ButtonInteraction>) -> (actions: Vec<ButtonAction>)
    ensures
        actions@.len() == interactions@.len(),
        forall|i: int|
            0 <= i < interactions@.len() ==> actions@[i] == button_response(interactions@[i], ButtonBackground::Green),
{
    handle_button_click(interactions, ButtonBackground::Green)
}

/// The statistics the statistics panel lists.
#[derive(PartialEq, Eq, Structural, Clone, Copy, Debug)]
pub enum PlayerStat {
    Health,
    Damage,
    Armor,
    Speed,
}

/// A row of the statistics panel: the statistic, the label written before its
/// value (as `"label: value"`), and the picture beside it.
#[derive(Clone, Copy, Debug)]
pub struct StatsRow {
    pub stat: PlayerStat,
    pub label: &'static str,
    pub icon: &'static str,
}

/// Row `row` shows `stat` with this label and picture.
pub open spec fn is_stats_row(row: StatsRow, stat: PlayerStat, label: Seq<char>, icon: Seq<char>) -> bool {
    row.stat == stat && row.label@ == label && row.icon@ == icon
}

/// The rows of the statistics panel, top to bottom: the player's health by the
/// profile picture, the weapon's damage by the weapon's picture, the armor by a
/// shield and the speed by a lightning bolt.
pub fn spawn_player_stats_ui(weapon_sprite: &'static str) -> (rows: Vec<StatsRow>)
    ensures
        rows@.len() == 4,
        is_stats_row(rows@[0], PlayerStat::Health, "Health"@, "textures/UI/profile.png"@),
        is_stats_row(rows@[1], PlayerStat::Damage, "Damage"@, weapon_sprite@),
        is_stats_row(rows@[2], PlayerStat::Armor, "Armor"@, "textures/Items/shield.png"@),
        is_stats_row(rows@[3], PlayerStat::Speed, "Speed"@, "textures/Items/lightning.png"@),
{
    let mut rows: Vec<StatsRow> = Vec::new();
    rows.push(StatsRow { stat: PlayerStat::Health, label: "Health", icon: "textures/UI/profile.png" });
    rows.push(StatsRow { stat: PlayerStat::Damage, label: "Damage", icon: weapon_sprite });
    rows.push(StatsRow { stat: PlayerStat::Armor, label: "Armor", icon: "textures/Items/shield.png" });
    rows.push(StatsRow { stat: PlayerStat::Speed, label: "Speed", icon: "textures/Items/lightning.png" });
    rows
}

/// How full the two bars of the player profile are.
#[derive(PartialEq, Eq, Structural, Clone, Copy, Debug)]
pub struct ProfileBars {
    pub health: u32,
    pub max_health: u32,
    pub mana: u32,
    pub max_mana: u32,
}

/// When the player profile is set up, its health and mana bars are full.
pub fn on_player_profile_ui_set() -> (bars: ProfileBars)
    ensures
        bars == (ProfileBars { health: PLAYER_HEALTH, max_health: PLAYER_HEALTH, mana: PLAYER_MANA, max_mana: PLAYER_MANA }),
{
    ProfileBars { health: PLAYER_HEALTH, max_health: PLAYER_HEALTH, mana: PLAYER_MANA, max_mana: PLAYER_MANA }
}

} // verus!
