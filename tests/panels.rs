use flightpanels::dispatch;
use flightpanels::flight_instrument_panel::FlightInstrumentPanelInputs;
use flightpanels::multi_panel::{
    MultiDisplay, MultiPanelInputs, MultiPanelOutputLeds, MultiPanelOutputs, SettingSelection,
    BLANK, DASH,
};
use flightpanels::radio_panel::{ComSelection, RadioDisplay, RadioPanelInputs, RadioPanelOutputs};
use flightpanels::switch_panel::{
    led_report, next_leds, EngineSelection, LedColors, OutputCommands, SwitchPanelInputs,
    LEFT_GREEN, RIGHT_RED, UP_GREEN, UP_MASK, UP_RED, UP_YELLOW,
};
use flightpanels::InputData;

fn multi_outputs() -> MultiPanelOutputs {
    MultiPanelOutputs {
        upper_display: [0xff; 5],
        lower_display: [0xff; 5],
        leds: MultiPanelOutputLeds::from(0u8),
    }
}

fn radio_outputs() -> RadioPanelOutputs {
    RadioPanelOutputs {
        upper_active_display: [1; 5],
        upper_standby_display: [2; 5],
        lower_active_display: [3; 5],
        lower_standby_display: [4; 5],
    }
}

#[test]
fn multi_display_zero_is_blanks_and_a_zero() {
    let mut o = multi_outputs();
    assert_eq!(o.set_display(MultiDisplay::UpperDisplay, 0), Ok(()));
    assert_eq!(o.upper_display, [BLANK, BLANK, BLANK, BLANK, 0]);
    assert_eq!(o.lower_display, [0xff; 5]);
}

#[test]
fn multi_display_negative_starts_with_dash() {
    let mut o = multi_outputs();
    assert_eq!(o.set_display(MultiDisplay::LowerDisplay, -1), Ok(()));
    assert_eq!(o.lower_display, [DASH, BLANK, BLANK, BLANK, 1]);
    assert_eq!(o.set_display(MultiDisplay::LowerDisplay, -9999), Ok(()));
    assert_eq!(o.lower_display, [DASH, 9, 9, 9, 9]);
}

#[test]
fn multi_display_inner_zeros_are_digits() {
    let mut o = multi_outputs();
    assert_eq!(o.set_display(MultiDisplay::UpperDisplay, 10500), Ok(()));
    assert_eq!(o.upper_display, [1, 0, 5, 0, 0]);
    assert_eq!(o.set_display(MultiDisplay::UpperDisplay, 99999), Ok(()));
    assert_eq!(o.upper_display, [9, 9, 9, 9, 9]);
    assert_eq!(o.set_display(MultiDisplay::UpperDisplay, 250), Ok(()));
    assert_eq!(o.upper_display, [BLANK, BLANK, 2, 5, 0]);
}

#[test]
fn multi_display_out_of_range_is_refused() {
    let mut o = multi_outputs();
    assert!(o.set_display(MultiDisplay::UpperDisplay, 100000).is_err());
    assert!(o.set_display(MultiDisplay::UpperDisplay, -10000).is_err());
    assert_eq!(o.upper_display, [0xff; 5]);
}

#[test]
fn multi_output_report_layout() {
    let mut o = multi_outputs();
    o.set_display(MultiDisplay::UpperDisplay, 12345).unwrap();
    o.set_display(MultiDisplay::LowerDisplay, 7).unwrap();
    o.leds = MultiPanelOutputLeds::from(0b1000_0001u8);
    let b = o.as_bytes();
    assert_eq!(
        b,
        vec![0, 1, 2, 3, 4, 5, BLANK, BLANK, BLANK, BLANK, 7, 0b1000_0001, 0]
    );
}

#[test]
fn radio_display_two_fraction_digits() {
    let mut o = radio_outputs();
    assert_eq!(o.set_display(RadioDisplay::UpperActive, 11850), Ok(()));
    assert_eq!(o.upper_active_display, [1, 1, 8 + 0xD0, 5, 0]);
    assert_eq!(o.set_display(RadioDisplay::UpperStandby, 2550), Ok(()));
    assert_eq!(o.upper_standby_display, [0xff, 2, 5 + 0xD0, 5, 0]);
    assert_eq!(o.lower_active_display, [3; 5]);
}

#[test]
fn radio_display_one_and_no_fraction_digits() {
    let mut o = radio_outputs();
    assert_eq!(o.set_display(RadioDisplay::LowerActive, 123456), Ok(()));
    assert_eq!(o.lower_active_display, [1, 2, 3, 4 + 0xD0, 5]);
    assert_eq!(o.set_display(RadioDisplay::LowerStandby, 1234567), Ok(()));
    assert_eq!(o.lower_standby_display, [1, 2, 3, 4, 5]);
    assert_eq!(o.set_display(RadioDisplay::LowerStandby, 5), Ok(()));
    assert_eq!(o.lower_standby_display, [0xff, 0xff, 0xD0, 0xff, 5]);
}

#[test]
fn radio_display_out_of_range_is_refused() {
    let mut o = radio_outputs();
    assert_eq!(
        o.set_display(RadioDisplay::UpperActive, 10_000_000),
        Err("Displays cannot show more than 5 figures")
    );
    assert_eq!(
        o.set_display(RadioDisplay::UpperActive, -1),
        Err("Displays cannot show negative values")
    );
    assert_eq!(o.upper_active_display, [1; 5]);
}

#[test]
fn radio_output_report_layout() {
    let b = radio_outputs().as_bytes();
    let mut want = vec![0u8];
    for d in 1..=4u8 {
        want.extend_from_slice(&[d; 5]);
    }
    want.extend_from_slice(&[0, 0]);
    assert_eq!(b, want);
    assert_eq!(b.len(), 23);
}

#[test]
fn led_group_update_keeps_other_groups() {
    let current: u8 = 0b0010_0010;
    let next = next_leds(current, OutputCommands::SetUpLedTo(LedColors::Green));
    assert_eq!(next & !UP_MASK, UP_GREEN);
    assert_eq!(next & UP_MASK, current & UP_MASK);
    assert_eq!(next, 0b0010_0011);
    let red = next_leds(next, OutputCommands::SetUpLedTo(LedColors::Red));
    assert_eq!(red, 0b0010_1010);
    let yellow = next_leds(red, OutputCommands::SetUpLedTo(LedColors::Yellow));
    assert_eq!(yellow & (UP_GREEN | UP_RED), UP_YELLOW);
    let off = next_leds(yellow, OutputCommands::SetUpLedTo(LedColors::Off));
    assert_eq!(off, 0b0010_0010);
}

#[test]
fn led_commands_for_all_groups() {
    assert_eq!(next_leds(0xff, OutputCommands::SetAllLedsTo(LedColors::Off)), 0);
    assert_eq!(next_leds(0, OutputCommands::SetAllLedsTo(LedColors::Green)), 0b0000_0111);
    assert_eq!(next_leds(0, OutputCommands::SetAllLedsTo(LedColors::Red)), 0b0011_1000);
    assert_eq!(next_leds(0, OutputCommands::SetAllLedsTo(LedColors::Yellow)), 0b0011_1111);
    assert_eq!(next_leds(0, OutputCommands::SetLeds(0x5a)), 0x5a);
    assert_eq!(next_leds(0, OutputCommands::SetLeftLedTo(LedColors::Red)), 0b0001_0000);
    assert_eq!(next_leds(0xff, OutputCommands::SetRightLedTo(LedColors::Off)), 0b1101_1011);
    assert_eq!(led_report(0x21), vec![0, 0x21]);
}

#[test]
fn switch_zero_report_is_all_off() {
    let d = SwitchPanelInputs::from(0u32);
    assert!(!d.battery && !d.alt && !d.avionics && !d.fuel_pump && !d.de_ice);
    assert!(!d.pitot_heat && !d.cowl && !d.panel_lights && !d.beacon_lights);
    assert!(!d.navigation_lights && !d.strobe_lights && !d.taxi_lights && !d.landing_lights);
    assert!(!d.gear_up && !d.gear_down);
    assert_eq!(d.engine_selector, EngineSelection::Invalid);
    assert_eq!(dispatch(&InputData::SwitchInputData(d)), None);
}

#[test]
fn switch_engine_left_asks_for_left_green() {
    let d = SwitchPanelInputs::from_report(&[0, 0x80, 0, 0]).unwrap();
    assert_eq!(d.engine_selector, EngineSelection::LEFT);
    assert_eq!(
        dispatch(&InputData::SwitchInputData(d)),
        Some(OutputCommands::SetLeftLedTo(LedColors::Green))
    );
    let start = SwitchPanelInputs::from(16u32 << 13);
    assert_eq!(
        dispatch(&InputData::SwitchInputData(start)),
        Some(OutputCommands::SetLeds(LEFT_GREEN | UP_YELLOW | RIGHT_RED))
    );
    assert_eq!(UP_RED, 0b1000);
}

#[test]
fn switch_fields_and_encoding() {
    let raw: u32 = 1 | (1 << 12) | (8 << 13) | (1 << 19) | (0xfff << 20);
    let d = SwitchPanelInputs::from(raw);
    assert!(d.battery && d.landing_lights && d.gear_down && !d.gear_up && !d.alt);
    assert_eq!(d.engine_selector, EngineSelection::BOTH);
    assert_eq!(d.into_bits(), raw & 0x000f_ffff);
    assert_eq!(SwitchPanelInputs::from(d.into_bits()), d);
    assert_eq!(SwitchPanelInputs::from_report(&[0, 0, 0]), None);
}

#[test]
fn selectors_decode_by_range() {
    assert_eq!(EngineSelection::from(2u32), EngineSelection::RIGHT);
    assert_eq!(EngineSelection::from(3u32), EngineSelection::RIGHT);
    assert_eq!(EngineSelection::from(4u32), EngineSelection::LEFT);
    assert_eq!(EngineSelection::from(7u32), EngineSelection::LEFT);
    assert_eq!(EngineSelection::from(31u32), EngineSelection::START);
    assert_eq!(u32::from(EngineSelection::BOTH), 8);
    assert_eq!(SettingSelection::from(12u32), SettingSelection::HDG);
    assert_eq!(SettingSelection::from(1u32), SettingSelection::ALT);
    assert_eq!(ComSelection::from(40u32), ComSelection::DME);
    assert_eq!(ComSelection::from(127u32), ComSelection::XPDR);
    assert_eq!(ComSelection::from(0u32), ComSelection::Invalid);
}

#[test]
fn multi_and_radio_inputs_decode() {
    let m = MultiPanelInputs::from((4u32) | (1 << 7) | (1 << 19));
    assert_eq!(m.selector, SettingSelection::IAS);
    assert!(m.ap && m.pitch_up && !m.hdg && !m.jog_inc);
    let r = RadioPanelInputs::from_report(&[0x81, 0x01, 0x40, 0x00]).unwrap();
    assert_eq!(r.selector1, ComSelection::COM1);
    assert_eq!(r.selector2, ComSelection::COM2);
    assert!(r.coarse_inc2 && !r.fine_inc2 && !r.swap1);
    let f = FlightInstrumentPanelInputs::from_report(&[0x01, 0x08]).unwrap();
    assert!(f.s1 && f.right_encoder_inc && !f.s2 && !f.up);
    assert_eq!(FlightInstrumentPanelInputs::from_report(&[1, 2, 3]), None);
}

#[test]
fn led_record_round_trip() {
    for raw in 0..=255u8 {
        let leds = MultiPanelOutputLeds::from(raw);
        assert_eq!(leds.into_bits(), raw);
        assert_eq!(MultiPanelOutputLeds::from(leds.into_bits()), leds);
    }
    let l = MultiPanelOutputLeds::from(0b0000_0101u8);
    assert!(l.ap && l.nav && !l.hdg && !l.rev);
}

#[test]
fn instrument_record_round_trip() {
    let f = FlightInstrumentPanelInputs::from(0xf801u16);
    assert!(f.s1 && f.right_encoder_inc && !f.up);
    assert_eq!(f.into_bits(), 0x0801);
    for raw in 0..0x1000u16 {
        let r = FlightInstrumentPanelInputs::from(raw);
        assert_eq!(r.into_bits(), raw);
        assert_eq!(FlightInstrumentPanelInputs::from(r.into_bits()), r);
    }
}
