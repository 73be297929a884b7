use vstd::prelude::*;

use crate::codec::{
    contiguous, field, flag, flag_bit, get_field, get_flag, layout_end, le32,
    lemma_contiguous_layout, ranges_disjoint, read_le32, width_sum,
};

verus! {

/// USB vendor and product id of the switch panel.
pub const VENDOR_ID: u16 = 0x06A3;

pub const PRODUCT_ID: u16 = 0x0D67;

/// The switch panel; its device loop runs outside the library.
pub struct SwitchPanel {}

/// Position of the engine (magneto) rotary selector.
#[allow(non_camel_case_types)]
#[derive(Clone, Copy, Debug, PartialEq, Eq, Structural)]
pub enum EngineSelection {
    Invalid,
    OFF,
    RIGHT,
    LEFT,
    BOTH,
    START,
}

impl EngineSelection {
    /// Decoding by range: the highest set bit of the raw value decides.
    pub open spec fn spec_from_raw(v: u32) -> Self {
        if v == 0 {
            EngineSelection::Invalid
        } else if v == 1 {
            EngineSelection::OFF
        } else if v < 4 {
            EngineSelection::RIGHT
        } else if v < 8 {
            EngineSelection::LEFT
        } else if v < 16 {
            EngineSelection::BOTH
        } else {
            EngineSelection::START
        }
    }

    /// The raw value of each position: one bit each.
    pub open spec fn spec_raw(self) -> u32 {
        match self {
            EngineSelection::Invalid => 0,
            EngineSelection::OFF => 1,
            EngineSelection::RIGHT => 2,
            EngineSelection::LEFT => 4,
            EngineSelection::BOTH => 8,
            EngineSelection::START => 16,
        }
    }

    pub fn from_raw(v: u32) -> (r: Self)
        ensures
            r == Self::spec_from_raw(v),
    {
        if v == 0 {
            EngineSelection::Invalid
        } else if v == 1 {
            EngineSelection::OFF
        } else if v < 4 {
            EngineSelection::RIGHT
        } else if v < 8 {
            EngineSelection::LEFT
        } else if v < 16 {
            EngineSelection::BOTH
        } else {
            EngineSelection::START
        }
    }

    pub fn raw(self) -> (r: u32)
        ensures
            r == self.spec_raw(),
    {
        match self {
            EngineSelection::Invalid => 0,
            EngineSelection::OFF => 1,
            EngineSelection::RIGHT => 2,
            EngineSelection::LEFT => 4,
            EngineSelection::BOTH => 8,
            EngineSelection::START => 16,
        }
    }
}

impl From<u32> for EngineSelection {
    fn from(value: u32) -> Self {
        Self::from_raw(value)
    }
}

impl vstd::std_specs::convert::FromSpecImpl<u32> for EngineSelection {
    open spec fn obeys_from_spec() -> bool {
        true
    }

    open spec fn from_spec(v: u32) -> Self {
        Self::spec_from_raw(v)
    }
}

impl From<EngineSelection> for u32 {
    fn from(value: EngineSelection) -> Self {
        value.raw()
    }
}

impl vstd::std_specs::convert::FromSpecImpl<EngineSelection> for u32 {
    open spec fn obeys_from_spec() -> bool {
        true
    }

    open spec fn from_spec(v: EngineSelection) -> Self {
        v.spec_raw()
    }
}

/// Every raw value decodes to the position of its range: raw values that lie between two
/// values of one position decode to that position too, and a position's own raw value
/// decodes back to it.
pub proof fn lemma_engine_selection_ranges(a: u32, b: u32, c: u32, e: EngineSelection)
    requires
        a <= c <= b,
        EngineSelection::spec_from_raw(a) == EngineSelection::spec_from_raw(b),
    ensures
        EngineSelection::spec_from_raw(c) == EngineSelection::spec_from_raw(a),
        EngineSelection::spec_from_raw(e.spec_raw()) == e,
{
}

/// The switch panel's input report, 32 bits.
#[derive(Clone, Copy, Debug, PartialEq, Eq, Structural)]
pub struct SwitchPanelInputs {
    pub battery: bool,
    pub alt: bool,
    pub avionics: bool,
    pub fuel_pump: bool,
    pub de_ice: bool,
    pub pitot_heat: bool,
    pub cowl: bool,
    pub panel_lights: bool,
    pub beacon_lights: bool,
    pub navigation_lights: bool,
    pub strobe_lights: bool,
    pub taxi_lights: bool,
    pub landing_lights: bool,
    pub engine_selector: EngineSelection,
    pub gear_up: bool,
    pub gear_down: bool,
}

impl SwitchPanelInputs {
    /// First bit of field `k`, in field order: thirteen switches, the selector, two gear
    /// switches, then the padding.
    pub open spec fn offset(k: int) -> u32 {
        if k <= 13 {
            k as u32
        } else {
            (k + 4) as u32
        }
    }

    /// Width of field `k`.
    pub open spec fn width(k: int) -> u32 {
        if k == 13 {
            5
        } else if k == 16 {
            12
        } else {
            1
        }
    }

    /// The first bits of all fields, the padding last.
    pub open spec fn offsets() -> Seq<u32> {
        Seq::new(17, |k: int| Self::offset(k))
    }

    /// The widths of all fields, the padding last.
    pub open spec fn widths() -> Seq<u32> {
        Seq::new(17, |k: int| Self::width(k))
    }

    /// The raw value of field `k`.
    pub open spec fn field_at(raw: u32, k: int) -> u32 {
        field(raw, Self::offset(k), Self::width(k))
    }

    pub open spec fn spec_from_bits(raw: u32) -> Self {
        SwitchPanelInputs {
            battery: Self::field_at(raw, 0) == 1,
            alt: Self::field_at(raw, 1) == 1,
            avionics: Self::field_at(raw, 2) == 1,
            fuel_pump: Self::field_at(raw, 3) == 1,
            de_ice: Self::field_at(raw, 4) == 1,
            pitot_heat: Self::field_at(raw, 5) == 1,
            cowl: Self::field_at(raw, 6) == 1,
            panel_lights: Self::field_at(raw, 7) == 1,
            beacon_lights: Self::field_at(raw, 8) == 1,
            navigation_lights: Self::field_at(raw, 9) == 1,
            strobe_lights: Self::field_at(raw, 10) == 1,
            taxi_lights: Self::field_at(raw, 11) == 1,
            landing_lights: Self::field_at(raw, 12) == 1,
            engine_selector: EngineSelection::spec_from_raw(Self::field_at(raw, 13)),
            gear_up: Self::field_at(raw, 14) == 1,
            gear_down: Self::field_at(raw, 15) == 1,
        }
    }

    pub open spec fn spec_into_bits(self) -> u32 {
        switch_word(
            flag(self.battery),
            flag(self.alt),
            flag(self.avionics),
            flag(self.fuel_pump),
            flag(self.de_ice),
            flag(self.pitot_heat),
            flag(self.cowl),
            flag(self.panel_lights),
            flag(self.beacon_lights),
            flag(self.navigation_lights),
            flag(self.strobe_lights),
            flag(self.taxi_lights),
            flag(self.landing_lights),
            self.engine_selector.spec_raw(),
            flag(self.gear_up),
            flag(self.gear_down),
        )
    }

    /// Decodes a raw report; enum fields decode by range.
    pub fn from_bits(raw: u32) -> (r: Self)
        ensures
            r == Self::spec_from_bits(raw),
    {
        SwitchPanelInputs {
            battery: get_flag(raw, 0),
            alt: get_flag(raw, 1),
            avionics: get_flag(raw, 2),
            fuel_pump: get_flag(raw, 3),
            de_ice: get_flag(raw, 4),
            pitot_heat: get_flag(raw, 5),
            cowl: get_flag(raw, 6),
            panel_lights: get_flag(raw, 7),
            beacon_lights: get_flag(raw, 8),
            navigation_lights: get_flag(raw, 9),
            strobe_lights: get_flag(raw, 10),
            taxi_lights: get_flag(raw, 11),
            landing_lights: get_flag(raw, 12),
            engine_selector: EngineSelection::from_raw(get_field(raw, 13, 5)),
            gear_up: get_flag(raw, 18),
            gear_down: get_flag(raw, 19),
        }
    }

    /// Encodes the record: each field at its offset, the padding bits zero.
    pub fn into_bits(self) -> (r: u32)
        ensures
            r == self.spec_into_bits(),
    {
        proof {
            reveal(switch_word);
        }
        flag_bit(self.battery) | (flag_bit(self.alt) << 1u32) | (flag_bit(self.avionics) << 2u32)
            | (flag_bit(self.fuel_pump) << 3u32) | (flag_bit(self.de_ice) << 4u32) | (flag_bit(
            self.pitot_heat,
        ) << 5u32) | (flag_bit(self.cowl) << 6u32) | (flag_bit(self.panel_lights) << 7u32) | (
        flag_bit(self.beacon_lights) << 8u32) | (flag_bit(self.navigation_lights) << 9u32) | (
        flag_bit(self.strobe_lights) << 10u32) | (flag_bit(self.taxi_lights) << 11u32) | (
        flag_bit(self.landing_lights) << 12u32) | (self.engine_selector.raw() << 13u32) | (
        flag_bit(self.gear_up) << 18u32) | (flag_bit(self.gear_down) << 19u32)
    }

    /// Decodes an input report of exactly four bytes, little-endian; a report of another
    /// length gives `None`.
    pub fn from_report(report: &[u8]) -> (r: Option<Self>)
        ensures
            r == (if report@.len() == 4 {
                Some(Self::spec_from_bits(le32(report@)))
            } else {
                None::<Self>
            }),
    {
        match read_le32(report) {
            Some(raw) => Some(Self::from_bits(raw)),
            None => None,
        }
    }
}

impl From<u32> for SwitchPanelInputs {
    fn from(value: u32) -> Self {
        Self::from_bits(value)
    }
}

impl vstd::std_specs::convert::FromSpecImpl<u32> for SwitchPanelInputs {
    open spec fn obeys_from_spec() -> bool {
        true
    }

    open spec fn from_spec(v: u32) -> Self {
        Self::spec_from_bits(v)
    }
}

/// The report word that holds the given field values, each at its offset.
#[verifier::opaque]
pub open spec fn switch_word(
    b0: u32,
    b1: u32,
    b2: u32,
    b3: u32,
    b4: u32,
    b5: u32,
    b6: u32,
    b7: u32,
    b8: u32,
    b9: u32,
    b10: u32,
    b11: u32,
    b12: u32,
    e: u32,
    g0: u32,
    g1: u32,
) -> u32 {
    b0 | (b1 << 1u32) | (b2 << 2u32) | (b3 << 3u32) | (b4 << 4u32) | (b5 << 5u32) | (b6 << 6u32)
        | (b7 << 7u32) | (b8 << 8u32) | (b9 << 9u32) | (b10 << 10u32) | (b11 << 11u32) | (b12
        << 12u32) | (e << 13u32) | (g0 << 18u32) | (g1 << 19u32)
}

/// The switch panel's fields, padding included, cover the 32 bits of its report exactly
/// once.
pub proof fn lemma_switch_inputs_layout()
    ensures
        contiguous(SwitchPanelInputs::offsets(), SwitchPanelInputs::widths()),
        ranges_disjoint(SwitchPanelInputs::offsets(), SwitchPanelInputs::widths()),
        width_sum(SwitchPanelInputs::widths()) == 32,
        layout_end(SwitchPanelInputs::offsets(), SwitchPanelInputs::widths()) == 32,
{
    lemma_contiguous_layout(SwitchPanelInputs::offsets(), SwitchPanelInputs::widths());
}

/// Landing-gear LED bits: green and red per indicator, yellow being both.
pub const ALL_OFF: u8 = 0b0000_0000;

pub const UP_GREEN: u8 = 0b0000_0001;

pub const UP_RED: u8 = 0b0000_1000;

pub const UP_YELLOW: u8 = UP_GREEN | UP_RED;

/// Keeps every bit but the up indicator's.
pub const UP_MASK: u8 = !(UP_GREEN | UP_RED);

pub const LEFT_GREEN: u8 = 0b0000_0010;

pub const LEFT_RED: u8 = 0b0001_0000;

pub const LEFT_YELLOW: u8 = LEFT_GREEN | LEFT_RED;

/// Keeps every bit but the left indicator's.
pub const LEFT_MASK: u8 = !(LEFT_GREEN | LEFT_RED);

pub const RIGHT_GREEN: u8 = 0b0000_0100;

pub const RIGHT_RED: u8 = 0b0010_0000;

pub const RIGHT_YELLOW: u8 = RIGHT_GREEN | RIGHT_RED;

/// Keeps every bit but the right indicator's.
pub const RIGHT_MASK: u8 = !(RIGHT_GREEN | RIGHT_RED);

#[derive(Clone, Copy, Debug, PartialEq, Eq, Structural)]
pub enum LedColors {
    Off,
    Green,
    Yellow,
    Red,
}

/// What the switch panel can be told to show.
#[derive(Clone, Copy, Debug, PartialEq, Eq, Structural)]
pub enum OutputCommands {
    SetLeds(u8),
    SetAllLedsTo(LedColors),
    SetUpLedTo(LedColors),
    SetLeftLedTo(LedColors),
    SetRightLedTo(LedColors),
}

/// The bits of one indicator, given its green and red bits, for a color.
pub open spec fn color_bits(green: u8, red: u8, color: LedColors) -> u8 {
    match color {
        LedColors::Off => 0,
        LedColors::Green => green,
        LedColors::Yellow => green | red,
        LedColors::Red => red,
    }
}

/// One indicator set to a color, every other LED bit kept.
pub open spec fn with_group(current: u8, green: u8, red: u8, color: LedColors) -> u8 {
    (current & !(green | red)) | color_bits(green, red, color)
}

/// The LED byte after a command.
pub open spec fn spec_next_leds(current: u8, command: OutputCommands) -> u8 {
    match command {
        OutputCommands::SetLeds(v) => v,
        OutputCommands::SetAllLedsTo(c) => color_bits(UP_GREEN, UP_RED, c) | color_bits(
            LEFT_GREEN,
            LEFT_RED,
            c,
        ) | color_bits(RIGHT_GREEN, RIGHT_RED, c),
        OutputCommands::SetUpLedTo(c) => with_group(current, UP_GREEN, UP_RED, c),
        OutputCommands::SetLeftLedTo(c) => with_group(current, LEFT_GREEN, LEFT_RED, c),
        OutputCommands::SetRightLedTo(c) => with_group(current, RIGHT_GREEN, RIGHT_RED, c),
    }
}

fn color_of(green: u8, red: u8, color: LedColors) -> (r: u8)
    ensures
        r == color_bits(green, red, color),
{
    match color {
        LedColors::Off => 0,
        LedColors::Green => green,
        LedColors::Yellow => green | red,
        LedColors::Red => red,
    }
}

/// Folds a command into the LED byte: a group command rewrites the bits of its indicator
/// and keeps all others.
pub fn next_leds(current: u8, command: OutputCommands) -> (r: u8)
    ensures
        r == spec_next_leds(current, command),
{
    match command {
        OutputCommands::SetLeds(v) => v,
        OutputCommands::SetAllLedsTo(c) => color_of(UP_GREEN, UP_RED, c) | color_of(
            LEFT_GREEN,
            LEFT_RED,
            c,
        ) | color_of(RIGHT_GREEN, RIGHT_RED, c),
        OutputCommands::SetUpLedTo(c) => (current & UP_MASK) | color_of(UP_GREEN, UP_RED, c),
        OutputCommands::SetLeftLedTo(c) => (current & LEFT_MASK) | color_of(LEFT_GREEN, LEFT_RED, c),
        OutputCommands::SetRightLedTo(c) => (current & RIGHT_MASK) | color_of(
            RIGHT_GREEN,
            RIGHT_RED,
            c,
        ),
    }
}

/// The feature report that shows an LED byte: report id 0, then the byte.
pub fn led_report(leds: u8) -> (r: Vec<u8>)
    ensures
        r@ == seq![0u8, leds],
{
    let mut r: Vec<u8> = Vec::new();
    r.push(0);
    r.push(leds);
    r
}

/// Setting one indicator to a color rewrites exactly that indicator's bits: they hold the
/// color afterwards, and every bit outside them is as it was.
pub proof fn lemma_group_update(current: u8, green: u8, red: u8, color: LedColors)
    ensures
        with_group(current, green, red, color) & !(green | red) == current & !(green | red),
        with_group(current, green, red, color) & (green | red) == color_bits(green, red, color),
{
    let m = green | red;
    let c = color_bits(green, red, color);
    assert(c & !m == 0 && c & m == c) by (bit_vector)
        requires
            m == green | red,
            c == 0 || c == green || c == (green | red) || c == red,
    ;
    assert(((current & !m) | c) & !m == current & !m && ((current & !m) | c) & m == c)
        by (bit_vector)
        requires
            c & !m == 0 && c & m == c,
    ;
}

} // verus!
