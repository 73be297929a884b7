use vstd::prelude::*;

pub mod codec;
pub mod flight_instrument_panel;
pub mod multi_panel;
pub mod radio_panel;
pub mod switch_panel;

use crate::switch_panel::{EngineSelection, LedColors, OutputCommands};

verus! {

/// One decoded input report, tagged by the panel it came from.
pub enum InputData {
    RadioInputData(radio_panel::RadioPanelInputs),
    MultiInputData(multi_panel::MultiPanelInputs),
    SwitchInputData(switch_panel::SwitchPanelInputs),
    FIPInputData(flight_instrument_panel::FlightInstrumentPanelInputs),
}

/// The switch-panel command for each engine selector position.
pub open spec fn spec_engine_command(e: EngineSelection) -> Option<OutputCommands> {
    match e {
        EngineSelection::LEFT => Some(OutputCommands::SetLeftLedTo(LedColors::Green)),
        EngineSelection::RIGHT => Some(OutputCommands::SetRightLedTo(LedColors::Green)),
        EngineSelection::BOTH => Some(OutputCommands::SetUpLedTo(LedColors::Green)),
        EngineSelection::OFF => Some(OutputCommands::SetAllLedsTo(LedColors::Off)),
        EngineSelection::START => Some(
            OutputCommands::SetLeds(
                switch_panel::LEFT_GREEN | switch_panel::UP_YELLOW | switch_panel::RIGHT_RED,
            ),
        ),
        EngineSelection::Invalid => None,
    }
}

/// The switch-panel command that an engine selector position calls for.
pub fn engine_command(e: EngineSelection) -> (r: Option<OutputCommands>)
    ensures
        r == spec_engine_command(e),
{
    match e {
        EngineSelection::LEFT => Some(OutputCommands::SetLeftLedTo(LedColors::Green)),
        EngineSelection::RIGHT => Some(OutputCommands::SetRightLedTo(LedColors::Green)),
        EngineSelection::BOTH => Some(OutputCommands::SetUpLedTo(LedColors::Green)),
        EngineSelection::OFF => Some(OutputCommands::SetAllLedsTo(LedColors::Off)),
        EngineSelection::START => Some(
            OutputCommands::SetLeds(
                switch_panel::LEFT_GREEN | switch_panel::UP_YELLOW | switch_panel::RIGHT_RED,
            ),
        ),
        EngineSelection::Invalid => None,
    }
}

/// The command that an input event calls for: switch-panel events map their engine
/// selector through `engine_command`; other panels' events call for none.
pub fn dispatch(event: &InputData) -> (r: Option<OutputCommands>)
    ensures
        r == (match event {
            InputData::SwitchInputData(d) => spec_engine_command(d.engine_selector),
            _ => None::<OutputCommands>,
        }),
{
    match event {
        InputData::SwitchInputData(d) => engine_command(d.engine_selector),
        _ => None,
    }
}

} // verus!
