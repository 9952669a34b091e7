use vstd::prelude::*;

use crate::config::{BASE_LAYER, MENU_UI_LAYER, OVERLAY_LAYER, PLAYER_LAYER};

verus! {

/// Marks the camera that draws the map.
#[derive(PartialEq, Eq, Structural, Clone, Copy, Debug)]
pub struct BaseCamera;

/// Marks the camera that draws the player.
#[derive(PartialEq, Eq, Structural, Clone, Copy, Debug)]
pub struct PlayerCamera;

/// Marks the camera that draws the HUD.
#[derive(PartialEq, Eq, Structural, Clone, Copy, Debug)]
pub struct OverlayCamera;

/// Marks the camera that draws the menu screens.
#[derive(PartialEq, Eq, Structural, Clone, Copy, Debug)]
pub struct MenuCamera;

/// The marker a camera carries.
#[derive(PartialEq, Eq, Structural, Clone, Copy, Debug)]
pub enum CameraMarker {
    Base(BaseCamera),
    Player(PlayerCamera),
    Overlay(OverlayCamera),
    Menu(MenuCamera),
}

/// Whether a camera clears the screen before drawing.
#[derive(PartialEq, Eq, Structural, Clone, Copy, Debug)]
pub enum CameraClear {
    /// The screen is cleared with the default colour.
    WithDefaultColor,
    /// The camera draws over what earlier cameras drew.
    Keep,
}

/// A 2D camera: its drawing order, how it clears, its marker and the render layer it draws.
#[derive(PartialEq, Eq, Structural, Clone, Copy, Debug)]
pub struct CameraSpec {
    pub order: isize,
    pub clear: CameraClear,
    pub marker: CameraMarker,
    pub layer: usize,
}

/// The camera that draws the map first, clearing the screen.
pub fn spawn_base_camera() -> (camera: CameraSpec)
    ensures
        camera == (CameraSpec {
            order: 0,
            clear: CameraClear::WithDefaultColor,
            marker: CameraMarker::Base(BaseCamera),
            layer: BASE_LAYER,
        }),
{
    CameraSpec {
        order: 0,
        clear: CameraClear::WithDefaultColor,
        marker: CameraMarker::Base(BaseCamera),
        layer: BASE_LAYER,
    }
}

/// The camera that draws the player over the map.
pub fn spawn_player_camera() -> (camera: CameraSpec)
    ensures
        camera == (CameraSpec {
            order: 1,
            clear: CameraClear::Keep,
            marker: CameraMarker::Player(PlayerCamera),
            layer: PLAYER_LAYER,
        }),
{
    CameraSpec { order: 1, clear: CameraClear::Keep, marker: CameraMarker::Player(PlayerCamera), layer: PLAYER_LAYER }
}

/// The camera that draws the HUD over the player; it carries the menu camera's marker.
pub fn spawn_overlay_camera() -> (camera: CameraSpec)
    ensures
        camera == (CameraSpec {
            order: 2,
            clear: CameraClear::Keep,
            marker: CameraMarker::Menu(MenuCamera),
            layer: OVERLAY_LAYER,
        }),
{
    CameraSpec { order: 2, clear: CameraClear::Keep, marker: CameraMarker::Menu(MenuCamera), layer: OVERLAY_LAYER }
}

/// The camera that draws the menu screens over everything else.
pub fn spawn_menu_camera() -> (camera: CameraSpec)
    ensures
        camera == (CameraSpec {
            order: 3,
            clear: CameraClear::Keep,
            marker: CameraMarker::Menu(MenuCamera),
            layer: MENU_UI_LAYER,
        }),
{
    CameraSpec { order: 3, clear: CameraClear::Keep, marker: CameraMarker::Menu(MenuCamera), layer: MENU_UI_LAYER }
}

/// The base camera set up when the game starts.
pub fn setup_base_camera() -> (camera: CameraSpec)
    ensures
        camera == (CameraSpec {
            order: 0,
            clear: CameraClear::WithDefaultColor,
            marker: CameraMarker::Base(BaseCamera),
            layer: BASE_LAYER,
        }),
{
    spawn_base_camera()
}

/// The player camera set up when the game starts.
pub fn setup_player_camera() -> (camera: CameraSpec)
    ensures
        camera == (CameraSpec {
            order: 1,
            clear: CameraClear::Keep,
            marker: CameraMarker::Player(PlayerCamera),
            layer: PLAYER_LAYER,
        }),
{
    spawn_player_camera()
}

/// The overlay camera set up when the game starts.
pub fn setup_overlay_camera() -> (camera: CameraSpec)
    ensures
        camera == (CameraSpec {
            order: 2,
            clear: CameraClear::Keep,
            marker: CameraMarker::Menu(MenuCamera),
            layer: OVERLAY_LAYER,
        }),
{
    spawn_overlay_camera()
}

/// The menu camera set up when the game starts.
pub fn setup_menu_camera() -> (camera: CameraSpec)
    ensures
        camera == (CameraSpec {
            order: 3,
            clear: CameraClear::Keep,
            marker: CameraMarker::Menu(MenuCamera),
            layer: MENU_UI_LAYER,
        }),
{
    spawn_menu_camera()
}

} // verus!
