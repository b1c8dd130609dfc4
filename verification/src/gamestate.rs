//! The game's top-level flow: menu, play and pause, and the decisions the
//! menu and pause screens make from button interactions and keys.

use vstd::prelude::*;

verus! {

/// The screen the game is on.
#[derive(Clone, Copy, PartialEq, Eq, Structural, Debug, Default)]
pub enum GameState {
    #[default]
    Menu,
    Playing,
    Paused,
}

/// What a pointer is doing to a button this frame.
#[derive(Clone, Copy, PartialEq, Eq, Structural, Debug)]
pub enum ButtonInteraction {
    Pressed,
    Hovered,
    Inactive,
}

/// How the start button is drawn.
#[derive(Clone, Copy, PartialEq, Eq, Structural, Debug)]
pub enum ButtonFill {
    Normal,
    Hovered,
    Pressed,
}

/// The colour of the start button's border.
#[derive(Clone, Copy, PartialEq, Eq, Structural, Debug)]
pub enum ButtonBorder {
    Black,
    White,
    Red,
}

/// What one frame of the menu does to the start button and the game.
#[derive(Clone, Copy, PartialEq, Eq, Structural, Debug)]
pub struct StartButtonOutcome {
    /// Whether the button reads as starting rather than inviting a start.
    pub label_starting: bool,
    pub fill: ButtonFill,
    pub border: ButtonBorder,
    pub next: Option<GameState>,
}

/// The menu's reaction to the start button and the start keys: a press (or
/// a start key) begins play, hovering and leaving restyle the button.
pub fn handle_start_button(
    interaction: ButtonInteraction,
    backspace_just_pressed: bool,
    space_just_pressed: bool,
) -> (r: StartButtonOutcome)
    ensures
        interaction is Pressed ==> r == (StartButtonOutcome {
            label_starting: true,
            fill: ButtonFill::Pressed,
            border: ButtonBorder::Red,
            next: Some(GameState::Playing),
        }),
        interaction is Hovered ==> r == (StartButtonOutcome {
            label_starting: false,
            fill: ButtonFill::Hovered,
            border: ButtonBorder::White,
            next: if backspace_just_pressed || space_just_pressed {
                Some(GameState::Playing)
            } else {
                None
            },
        }),
        interaction is Inactive ==> r == (StartButtonOutcome {
            label_starting: false,
            fill: ButtonFill::Normal,
            border: ButtonBorder::Black,
            next: if backspace_just_pressed || space_just_pressed {
                Some(GameState::Playing)
            } else {
                None
            },
        }),
{
    let (label_starting, fill, border, mut next) = match interaction {
        ButtonInteraction::Pressed => (
            true,
            ButtonFill::Pressed,
            ButtonBorder::Red,
            Some(GameState::Playing),
        ),
        ButtonInteraction::Hovered => (false, ButtonFill::Hovered, ButtonBorder::White, None),
        ButtonInteraction::Inactive => (false, ButtonFill::Normal, ButtonBorder::Black, None),
    };
    if backspace_just_pressed || space_just_pressed {
        next = Some(GameState::Playing);
    }
    StartButtonOutcome { label_starting, fill, border, next }
}

/// The pause screen's reaction: any pressed button, or the pause keys,
/// resume play.
pub fn handle_resume_button(
    any_button_pressed: bool,
    escape_just_pressed: bool,
    pause_key_just_pressed: bool,
) -> (r: Option<GameState>)
    ensures
        r == if any_button_pressed || escape_just_pressed || pause_key_just_pressed {
            Some(GameState::Playing)
        } else {
            None::<GameState>
        },
{
    if any_button_pressed || escape_just_pressed || pause_key_just_pressed {
        Some(GameState::Playing)
    } else {
        None
    }
}

/// During play, the pause keys pause the game.
pub fn handle_pause_input(escape_just_pressed: bool, pause_key_just_pressed: bool) -> (r: Option<
    GameState,
>)
    ensures
        r == if escape_just_pressed || pause_key_just_pressed {
            Some(GameState::Paused)
        } else {
            None::<GameState>
        },
{
    if escape_just_pressed || pause_key_just_pressed {
        Some(GameState::Paused)
    } else {
        None
    }
}

} // verus!
