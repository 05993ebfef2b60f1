//! The run-state machine and the decisions of the control bar.

use vstd::prelude::*;

use crate::ui::components::{ButtonType, ClassicButton};
use crate::ui::styles::ButtonColor;

verus! {

/// The request to leave the program. It touches neither the grid nor the
/// run state.
#[derive(Clone, Copy, Debug, PartialEq, Eq, Structural)]
pub struct GameExitEvent;

/// The run state. It starts as `Stop` and changes on a command only.
#[derive(Clone, Copy, Debug, PartialEq, Eq, Hash, Structural)]
pub enum SimulationState {
    /// The automaton rests and the grid may be edited.
    Stop,
    /// The automaton advances and edits are discarded.
    Start,
}

/// A command to the run-state machine.
#[derive(Clone, Copy, Debug, PartialEq, Eq, Structural)]
pub enum RunCommand {
    /// Let the automaton run.
    Play,
    /// Pause the automaton.
    Stop,
}

/// What the pointer does with a button.
#[derive(Clone, Copy, Debug, PartialEq, Eq, Structural)]
pub enum Interaction {
    /// The button is held down.
    Pressed,
    /// The pointer is over the button.
    Hovered,
    /// The pointer is elsewhere.
    Idle,
}

/// What a button answers to the pointer.
#[derive(Clone, Copy, Debug, PartialEq, Eq, Structural)]
pub struct ButtonResponse {
    /// The background the button takes.
    pub background_color: ButtonColor,
    /// The command for the run-state machine, if the button gives one.
    pub command: Option<RunCommand>,
    /// The request to leave the program, if the button makes one.
    pub exit: Option<GameExitEvent>,
}

/// The run state after `command` was given in `state`: `Play` leads to
/// `Start` and `Stop` to `Stop`, from either state; no command changes
/// nothing.
pub open spec fn state_after(state: SimulationState, command: Option<RunCommand>) -> SimulationState {
    match command {
        Some(RunCommand::Play) => SimulationState::Start,
        Some(RunCommand::Stop) => SimulationState::Stop,
        None => state,
    }
}

/// The background of a button under `interaction`.
pub open spec fn color_for(interaction: Interaction) -> ButtonColor {
    match interaction {
        Interaction::Pressed => ButtonColor::Pressed,
        Interaction::Hovered => ButtonColor::Hovered,
        Interaction::Idle => ButtonColor::Normal,
    }
}

/// The command that a button of type `button` gives under `interaction`: its
/// own while it is held down, if it has one; none otherwise.
pub open spec fn command_for(interaction: Interaction, button: ButtonType) -> Option<RunCommand> {
    match (interaction, button) {
        (Interaction::Pressed, ButtonType::Play) => Some(RunCommand::Play),
        (Interaction::Pressed, ButtonType::Stop) => Some(RunCommand::Stop),
        _ => None,
    }
}

/// Whether a button of type `button` asks to leave the program under
/// `interaction`: the exit button does while it is held down.
pub open spec fn exit_for(interaction: Interaction, button: ButtonType) -> bool {
    interaction == Interaction::Pressed && button == ButtonType::Exit
}

impl Default for SimulationState {
    fn default() -> (state: SimulationState)
        ensures
            state == SimulationState::Stop,
    {
        SimulationState::Stop
    }
}

impl SimulationState {
    /// The run state after `command` was given in this one.
    pub fn apply(self, command: Option<RunCommand>) -> (next: SimulationState)
        ensures
            next == state_after(self, command),
    {
        match command {
            Some(RunCommand::Play) => SimulationState::Start,
            Some(RunCommand::Stop) => SimulationState::Stop,
            None => self,
        }
    }
}

/// To give a command twice is to give it once; a command leads to the same
/// state from either state; and without a command the state stays.
pub proof fn lemma_commands_are_idempotent(state: SimulationState, command: Option<RunCommand>)
    ensures
        state_after(state_after(state, command), command) == state_after(state, command),
        command is Some ==> state_after(state, command) == state_after(
            SimulationState::Stop,
            command,
        ),
        state_after(state, None) == state,
{
}

/// What the button `classic_button` answers to `interaction`: the background
/// it takes, the command it gives to the run-state machine and whether it
/// asks to leave the program.
pub fn button_system(interaction: Interaction, classic_button: &ClassicButton) -> (response:
    ButtonResponse)
    ensures
        response.background_color == color_for(interaction),
        response.command == command_for(interaction, classic_button.0),
        response.exit is Some <==> exit_for(interaction, classic_button.0),
{
    match interaction {
        Interaction::Pressed => {
            let (command, exit) = match classic_button.0 {
                ButtonType::Play => (Some(RunCommand::Play), None),
                ButtonType::Stop => (Some(RunCommand::Stop), None),
                ButtonType::Exit => (None, Some(GameExitEvent)),
            };
            ButtonResponse { background_color: ButtonColor::Pressed, command, exit }
        },
        Interaction::Hovered => ButtonResponse {
            background_color: ButtonColor::Hovered,
            command: None,
            exit: None,
        },
        Interaction::Idle => ButtonResponse {
            background_color: ButtonColor::Normal,
            command: None,
            exit: None,
        },
    }
}

} // verus!
